//! Laws of the chip model and of the driver's building blocks, proved
//! once and for all inputs.

use vstd::prelude::*;

use crate::chip::chip_wf;
use crate::chip::read_step;
use crate::chip::read_value;
use crate::chip::write_step;
use crate::chip::ChipState;
use crate::driver::count_writes;
use crate::driver::mode_reg;
use crate::driver::set_mode_ops;
use crate::driver::set_mode_result;
use crate::driver::set_mode_state;
use crate::driver::RFMError;
use crate::link::BusOp;
use crate::mode::Mode;
use crate::registers::REG_FIFO;
use crate::registers::REG_OP_MODE;
use crate::tables::channel_of_index;
use crate::tables::is_hop_target;
use crate::tables::Channel;

verus! {

/// Writing a value to a register and then reading that register back
/// returns the written value, and the read leaves the chip unchanged.
/// The FIFO register is the one exception by design — its accesses move
/// the pointer — and the mode register keeps this law only while no
/// mode glitch is staged.
pub proof fn law_write_then_read(s: ChipState, reg: u8, v: u8)
    requires
        chip_wf(s),
        reg < 128,
        reg != REG_FIFO,
        reg == REG_OP_MODE ==> s.mode_glitch is None,
    ensures
        read_value(write_step(s, reg, v), reg) == v,
        read_step(write_step(s, reg, v), reg) == write_step(s, reg, v),
{
}

/// Asking for the same mode twice in a row issues at most one actual
/// bus write: once a change has succeeded, the second request reads the
/// mode back, sees the target, and writes nothing.
pub proof fn law_set_mode_idempotent(s: ChipState, target: Mode)
    requires
        chip_wf(s),
        set_mode_result(s, target) == Ok::<(), RFMError>(()),
    ensures
        set_mode_result(set_mode_state(s, target), target) == Ok::<(), RFMError>(()),
        set_mode_state(set_mode_state(s, target), target) == set_mode_state(s, target),
        count_writes(set_mode_ops(set_mode_state(s, target), target)) == 0,
        count_writes(set_mode_ops(s, target) + set_mode_ops(set_mode_state(s, target), target))
            <= 1,
{
    let s1 = set_mode_state(s, target);
    let t = target.spec_encode();
    assert(mode_reg(s1) == t);
    let ops1 = set_mode_ops(s, target);
    let ops2 = set_mode_ops(s1, target);
    reveal_with_fuel(count_writes, 5);
    assert(count_writes(ops2) == 0);
    assert(count_writes(ops1) <= 1);
    lemma_count_writes_concat(ops1, ops2);
}

/// Write counting distributes over concatenation.
pub proof fn lemma_count_writes_concat(a: Seq<BusOp>, b: Seq<BusOp>)
    ensures
        count_writes(a + b) == count_writes(a) + count_writes(b),
    decreases b.len(),
{
    if b.len() == 0 {
        assert(a + b =~= a);
    } else {
        assert((a + b).drop_last() =~= a + b.drop_last());
        lemma_count_writes_concat(a, b.drop_last());
    }
}

/// The frequency-hopping draw is a bijection between the eight draw
/// indices and channels 0 through 7: given a uniform index, each hop
/// channel is selected with equal probability, and no other channel is
/// ever selected.
pub proof fn law_hop_resolution_uniform()
    ensures
        forall|i: int| 0 <= i < 8 ==> is_hop_target(#[trigger] channel_of_index(i)),
        forall|i: int, j: int|
            0 <= i < 8 && 0 <= j < 8 && i != j ==> channel_of_index(i) != channel_of_index(j),
        forall|c: Channel|
            is_hop_target(c) ==> exists|i: int| 0 <= i < 8 && #[trigger] channel_of_index(i) == c,
{
    assert forall|c: Channel| is_hop_target(c) implies exists|i: int|
        0 <= i < 8 && #[trigger] channel_of_index(i) == c by {
        match c {
            Channel::Ch0 => assert(channel_of_index(0) == c),
            Channel::Ch1 => assert(channel_of_index(1) == c),
            Channel::Ch2 => assert(channel_of_index(2) == c),
            Channel::Ch3 => assert(channel_of_index(3) == c),
            Channel::Ch4 => assert(channel_of_index(4) == c),
            Channel::Ch5 => assert(channel_of_index(5) == c),
            Channel::Ch6 => assert(channel_of_index(6) == c),
            Channel::Ch7 => assert(channel_of_index(7) == c),
            _ => {},
        }
    }
}

} // verus!
