//! The mathematical model of an RFM9x chip seen over the register bus.
//!
//! A chip is a register file, a FIFO buffer addressed through the
//! pointer register, an interrupt line, and two fault hooks that let a
//! simulated part misbehave the way real hardware can: a mode register
//! that stores something other than what was written, and an interrupt
//! line that stays asserted after its flags are cleared.  Every
//! transfer the link performs is one of the transition functions here.

use vstd::prelude::*;

use crate::registers::FIFO_SIZE;
use crate::registers::REG_FIFO;
use crate::registers::REG_FIFO_ADDR_PTR;
use crate::registers::REG_IRQ_FLAGS;
use crate::registers::REG_OP_MODE;
use crate::registers::REG_SPACE;
use crate::registers::REG_VERSION;

verus! {

/// The state of a chip: what the next transfers will observe.
pub ghost struct ChipState {
    /// The register file, indexed by 7-bit address.
    pub regs: Seq<u8>,
    /// The FIFO buffer behind register 0.
    pub fifo: Seq<u8>,
    /// If set, the byte the mode register actually stores on a write,
    /// whatever was written: a wiring or part fault.
    pub mode_glitch: Option<u8>,
    /// If set, clearing the interrupt flags does not release the
    /// interrupt line: a stale or missed event.
    pub pin_stuck: bool,
    /// The outcomes of the pending interrupt waits, soonest first:
    /// `true` for a rising edge, `false` for a timeout.  An empty
    /// sequence times every wait out.
    pub irq_script: Seq<bool>,
    /// Whether the interrupt line is currently high.
    pub irq_high: bool,
}

/// The sizes a chip state must have: a full 7-bit register space and a
/// 256-byte FIFO.
pub open spec fn chip_wf(s: ChipState) -> bool {
    &&& s.regs.len() == REG_SPACE
    &&& s.fifo.len() == FIFO_SIZE
}

/// The byte a read of `reg` returns: the FIFO byte under the pointer
/// for the FIFO register, the stored byte for every other register.
pub open spec fn read_value(s: ChipState, reg: u8) -> u8 {
    if reg == REG_FIFO {
        s.fifo[s.regs[REG_FIFO_ADDR_PTR as int] as int]
    } else {
        s.regs[reg as int]
    }
}

/// The chip after a read of `reg`: a FIFO read moves the pointer on by
/// one (wrapping), any other read leaves the chip as it was.
pub open spec fn read_step(s: ChipState, reg: u8) -> ChipState {
    if reg == REG_FIFO {
        ChipState {
            regs: s.regs.update(
                REG_FIFO_ADDR_PTR as int,
                ((s.regs[REG_FIFO_ADDR_PTR as int] + 1) % 256) as u8,
            ),
            ..s
        }
    } else {
        s
    }
}

/// The byte the mode register stores when `v` is written to it: `v`
/// itself, or the glitched byte of a faulty part.
pub open spec fn stored_mode(s: ChipState, v: u8) -> u8 {
    match s.mode_glitch {
        Some(g) => g,
        None => v,
    }
}

/// The chip after a write of `v` to `reg`.  A FIFO write stores under
/// the pointer and moves it on; a mode write stores subject to the
/// glitch hook; clearing the interrupt flags releases the interrupt
/// line unless it is stuck; every other write simply stores.
pub open spec fn write_step(s: ChipState, reg: u8, v: u8) -> ChipState {
    if reg == REG_FIFO {
        let p = s.regs[REG_FIFO_ADDR_PTR as int];
        ChipState {
            fifo: s.fifo.update(p as int, v),
            regs: s.regs.update(REG_FIFO_ADDR_PTR as int, ((p + 1) % 256) as u8),
            ..s
        }
    } else if reg == REG_OP_MODE {
        ChipState { regs: s.regs.update(reg as int, stored_mode(s, v)), ..s }
    } else if reg == REG_IRQ_FLAGS {
        ChipState {
            regs: s.regs.update(reg as int, v),
            irq_high: if s.pin_stuck {
                s.irq_high
            } else {
                false
            },
            ..s
        }
    } else {
        ChipState { regs: s.regs.update(reg as int, v), ..s }
    }
}

/// Whether the next interrupt wait sees a rising edge rather than a
/// timeout.
pub open spec fn wait_fired(s: ChipState) -> bool {
    s.irq_script.len() > 0 && s.irq_script[0]
}

/// The chip after one interrupt wait: the soonest scripted outcome is
/// consumed, and a rising edge leaves the line high.
pub open spec fn wait_step(s: ChipState) -> ChipState {
    if s.irq_script.len() > 0 {
        ChipState {
            irq_script: s.irq_script.skip(1),
            irq_high: if s.irq_script[0] {
                true
            } else {
                s.irq_high
            },
            ..s
        }
    } else {
        s
    }
}

/// The register file after a reset pulse: power-on defaults, with the
/// version register keeping the part's identity.
pub open spec fn power_on_regs(version: u8) -> Seq<u8> {
    Seq::new(
        REG_SPACE as nat,
        |i: int|
            if i == REG_VERSION as int {
                version
            } else if i == REG_OP_MODE as int {
                0x09u8
            } else {
                0u8
            },
    )
}

/// The chip after a reset pulse: registers back at their power-on
/// defaults, the interrupt line released, FIFO contents and the fault
/// hooks untouched.
pub open spec fn reset_step(s: ChipState) -> ChipState {
    ChipState { regs: power_on_regs(s.regs[REG_VERSION as int]), irq_high: false, ..s }
}

/// The FIFO position `i` bytes past `base`, wrapping at the FIFO size.
pub open spec fn fifo_pos(base: int, i: int) -> int {
    (base + i) % (FIFO_SIZE as int)
}

/// Distinct offsets within one FIFO wrap land on distinct positions.
pub proof fn lemma_fifo_pos_injective(base: int, j: int, k: int)
    requires
        0 <= base < 256,
        0 <= j < 256,
        0 <= k < 256,
        j != k,
    ensures
        fifo_pos(base, j) != fifo_pos(base, k),
{
    let b = base as u8;
    let ju = j as u8;
    let ku = k as u8;
    assert(ju != ku ==> (b + ju) % 256 != (b + ku) % 256) by (bit_vector);
}

} // verus!
