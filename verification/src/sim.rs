//! A simulated register-backed chip: a verified implementation of the
//! link trait.
//!
//! The simulation holds the register file and FIFO directly, plays
//! interrupt waits from a staged script, and records every bus command
//! it carries.  The staging methods let a test shape the chip — its
//! version byte, FIFO contents, pending interrupts and fault hooks —
//! before driving it.

use vstd::prelude::*;

use crate::chip::chip_wf;
use crate::chip::power_on_regs;
use crate::chip::read_step;
use crate::chip::read_value;
use crate::chip::reset_step;
use crate::chip::wait_fired;
use crate::chip::wait_step;
use crate::chip::write_step;
use crate::chip::ChipState;
use crate::link::BusFault;
use crate::link::BusOp;
use crate::link::ChipLink;
use crate::registers::FIFO_SIZE;
use crate::registers::REG_FIFO;
use crate::registers::REG_FIFO_ADDR_PTR;
use crate::registers::REG_IRQ_FLAGS;
use crate::registers::REG_OP_MODE;
use crate::registers::REG_SPACE;
use crate::registers::REG_VERSION;

verus! {

/// Builds a vector of `n` copies of `v`.
fn byte_vec(n: usize, v: u8) -> (r: Vec<u8>)
    ensures
        r@.len() == n,
        forall|i: int| 0 <= i < n ==> r@[i] == v,
{
    let mut r: Vec<u8> = Vec::new();
    let mut i: usize = 0;
    while i < n
        invariant
            i <= n,
            r@.len() == i,
            forall|j: int| 0 <= j < i ==> r@[j] == v,
        decreases n - i,
    {
        r.push(v);
        i = i + 1;
    }
    r
}

/// A simulated chip joined to a recording link.
pub struct SimChip {
    regs: Vec<u8>,
    fifo: Vec<u8>,
    mode_glitch: Option<u8>,
    pin_stuck: bool,
    irq_script: Vec<bool>,
    next_event: usize,
    irq_high: bool,
    log: Vec<BusOp>,
    fail_next: bool,
}

impl SimChip {
    /// A fresh simulated chip: registers and FIFO all zero, no pending
    /// interrupts, no faults staged, an empty command log.
    pub fn new() -> (s: SimChip)
        ensures
            s.inv(),
            forall|i: int| 0 <= i < REG_SPACE ==> s.chip().regs[i] == 0u8,
            forall|i: int| 0 <= i < FIFO_SIZE ==> s.chip().fifo[i] == 0u8,
            s.chip().mode_glitch is None,
            !s.chip().pin_stuck,
            s.chip().irq_script == Seq::<bool>::empty(),
            !s.chip().irq_high,
            !s.fault_pending(),
            s.log() == Seq::<BusOp>::empty(),
    {
        let s = SimChip {
            regs: byte_vec(REG_SPACE, 0),
            fifo: byte_vec(FIFO_SIZE, 0),
            mode_glitch: None,
            pin_stuck: false,
            irq_script: Vec::new(),
            next_event: 0,
            irq_high: false,
            log: Vec::new(),
            fail_next: false,
        };
        proof {
            assert(s.chip().irq_script =~= Seq::<bool>::empty());
            assert(s.log() =~= Seq::<BusOp>::empty());
        }
        s
    }

    /// Whether the next transfer has been staged to fault.
    pub closed spec fn fault_pending(&self) -> bool {
        self.fail_next
    }

    /// Stores a byte in a register without any bus activity, as if the
    /// chip itself had set it.
    pub fn set_register(&mut self, reg: u8, v: u8)
        requires
            old(self).inv(),
            reg < 128,
        ensures
            final(self).inv(),
            final(self).chip() == (ChipState {
                regs: old(self).chip().regs.update(reg as int, v),
                ..old(self).chip()
            }),
            final(self).log() == old(self).log(),
            final(self).fault_pending() == old(self).fault_pending(),
    {
        self.regs[reg as usize] = v;
    }

    /// Stores a byte in the FIFO buffer without any bus activity.
    pub fn set_fifo(&mut self, pos: u8, v: u8)
        requires
            old(self).inv(),
        ensures
            final(self).inv(),
            final(self).chip() == (ChipState {
                fifo: old(self).chip().fifo.update(pos as int, v),
                ..old(self).chip()
            }),
            final(self).log() == old(self).log(),
            final(self).fault_pending() == old(self).fault_pending(),
    {
        self.fifo[pos as usize] = v;
    }

    /// Stages the mode-register fault: when set, every mode write
    /// stores the given byte instead of the written one.
    pub fn set_mode_glitch(&mut self, glitch: Option<u8>)
        requires
            old(self).inv(),
        ensures
            final(self).inv(),
            final(self).chip() == (ChipState { mode_glitch: glitch, ..old(self).chip() }),
            final(self).log() == old(self).log(),
            final(self).fault_pending() == old(self).fault_pending(),
    {
        self.mode_glitch = glitch;
    }

    /// Stages the stuck interrupt line: when set, clearing the
    /// interrupt flags does not release the line.
    pub fn set_pin_stuck(&mut self, stuck: bool)
        requires
            old(self).inv(),
        ensures
            final(self).inv(),
            final(self).chip() == (ChipState { pin_stuck: stuck, ..old(self).chip() }),
            final(self).log() == old(self).log(),
            final(self).fault_pending() == old(self).fault_pending(),
    {
        self.pin_stuck = stuck;
    }

    /// Sets the current level of the interrupt line.
    pub fn set_irq_high(&mut self, high: bool)
        requires
            old(self).inv(),
        ensures
            final(self).inv(),
            final(self).chip() == (ChipState { irq_high: high, ..old(self).chip() }),
            final(self).log() == old(self).log(),
            final(self).fault_pending() == old(self).fault_pending(),
    {
        self.irq_high = high;
    }

    /// Stages the outcome of the next pending interrupt wait, after
    /// those already staged: a rising edge or a timeout.
    pub fn push_irq_event(&mut self, fired: bool)
        requires
            old(self).inv(),
        ensures
            final(self).inv(),
            final(self).chip() == (ChipState {
                irq_script: old(self).chip().irq_script.push(fired),
                ..old(self).chip()
            }),
            final(self).log() == old(self).log(),
            final(self).fault_pending() == old(self).fault_pending(),
    {
        self.irq_script.push(fired);
        proof {
            assert(self.irq_script@.skip(self.next_event as int) =~= old(
                self,
            ).irq_script@.skip(old(self).next_event as int).push(fired));
        }
    }

    /// Stages a transport fault: the next transfer or wait returns a
    /// fault and has no effect on the chip.
    pub fn set_fail_next(&mut self, fail: bool)
        requires
            old(self).inv(),
        ensures
            final(self).inv(),
            final(self).chip() == old(self).chip(),
            final(self).log() == old(self).log(),
            final(self).fault_pending() == fail,
    {
        self.fail_next = fail;
    }

    /// Reads a register directly, without any bus activity.
    pub fn get_register(&self, reg: u8) -> (v: u8)
        requires
            self.inv(),
            reg < 128,
        ensures
            v == self.chip().regs[reg as int],
    {
        self.regs[reg as usize]
    }

    /// Reads a FIFO byte directly, without any bus activity.
    pub fn get_fifo(&self, pos: u8) -> (v: u8)
        requires
            self.inv(),
        ensures
            v == self.chip().fifo[pos as int],
    {
        self.fifo[pos as usize]
    }

    /// The bus commands carried so far, oldest first.
    pub fn op_log(&self) -> (l: &Vec<BusOp>)
        ensures
            l@ == self.log(),
    {
        &self.log
    }
}

impl ChipLink for SimChip {
    closed spec fn chip(&self) -> ChipState {
        ChipState {
            regs: self.regs@,
            fifo: self.fifo@,
            mode_glitch: self.mode_glitch,
            pin_stuck: self.pin_stuck,
            irq_script: self.irq_script@.skip(self.next_event as int),
            irq_high: self.irq_high,
        }
    }

    closed spec fn log(&self) -> Seq<BusOp> {
        self.log@
    }

    closed spec fn inv(&self) -> bool {
        &&& self.regs@.len() == REG_SPACE
        &&& self.fifo@.len() == FIFO_SIZE
        &&& self.next_event <= self.irq_script@.len()
    }

    fn bus_read(&mut self, cmd: u8) -> (r: Result<u8, BusFault>) {
        if self.fail_next {
            self.fail_next = false;
            return Err(BusFault);
        }
        proof {
            assert(cmd & 0x80 == 0 ==> cmd < 128) by (bit_vector);
        }
        let v: u8;
        if cmd == REG_FIFO {
            let p = self.regs[REG_FIFO_ADDR_PTR as usize];
            v = self.fifo[p as usize];
            self.regs[REG_FIFO_ADDR_PTR as usize] = p.wrapping_add(1);
        } else {
            v = self.regs[cmd as usize];
        }
        self.log.push(BusOp::Read { cmd, response: v });
        Ok(v)
    }

    fn bus_write(&mut self, cmd: u8, data: u8) -> (r: Result<(), BusFault>) {
        if self.fail_next {
            self.fail_next = false;
            return Err(BusFault);
        }
        let addr = cmd & 0x7F;
        proof {
            assert(cmd & 0x7F < 128) by (bit_vector);
        }
        if addr == REG_FIFO {
            let p = self.regs[REG_FIFO_ADDR_PTR as usize];
            self.fifo[p as usize] = data;
            self.regs[REG_FIFO_ADDR_PTR as usize] = p.wrapping_add(1);
        } else if addr == REG_OP_MODE {
            let stored = match self.mode_glitch {
                Some(g) => g,
                None => data,
            };
            self.regs[REG_OP_MODE as usize] = stored;
        } else if addr == REG_IRQ_FLAGS {
            self.regs[REG_IRQ_FLAGS as usize] = data;
            if !self.pin_stuck {
                self.irq_high = false;
            }
        } else {
            self.regs[addr as usize] = data;
        }
        self.log.push(BusOp::Write { cmd, data });
        Ok(())
    }

    fn settle(&mut self, ms: u64) {
    }

    fn irq_is_high(&self) -> (r: bool) {
        self.irq_high
    }

    fn wait_rising_edge(&mut self, timeout_ms: u64) -> (r: Result<bool, BusFault>) {
        if self.fail_next {
            self.fail_next = false;
            return Err(BusFault);
        }
        if self.next_event < self.irq_script.len() {
            let fired = self.irq_script[self.next_event];
            self.next_event = self.next_event + 1;
            if fired {
                self.irq_high = true;
            }
            proof {
                assert(self.irq_script@.skip(self.next_event as int) =~= old(
                    self,
                ).irq_script@.skip(old(self).next_event as int).skip(1));
            }
            Ok(fired)
        } else {
            Ok(false)
        }
    }

    fn pulse_reset(&mut self) -> (r: Result<(), BusFault>) {
        if self.fail_next {
            self.fail_next = false;
            return Err(BusFault);
        }
        let version = self.regs[REG_VERSION as usize];
        let mut fresh = byte_vec(REG_SPACE, 0);
        fresh[REG_OP_MODE as usize] = 0x09;
        fresh[REG_VERSION as usize] = version;
        self.regs = fresh;
        self.irq_high = false;
        proof {
            assert(self.regs@ =~= power_on_regs(version));
        }
        Ok(())
    }
}

} // verus!
