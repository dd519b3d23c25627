//! The link a driver talks to a chip over: one register-transfer and
//! digital-I/O collaborator.
//!
//! A link carries single-byte register exchanges, the settle delay, the
//! reset pulse and the interrupt wait.  Its contract is stated over the
//! chip model: what each transfer observes and what it does to the chip,
//! and the log of bus commands issued so far.  The simulated chip of
//! this crate implements the trait and is verified against it; a
//! hardware binding implements it over the real bus and pins.

use vstd::prelude::*;

use crate::chip::chip_wf;
use crate::chip::read_step;
use crate::chip::read_value;
use crate::chip::reset_step;
use crate::chip::wait_fired;
use crate::chip::wait_step;
use crate::chip::write_step;
use crate::chip::ChipState;

verus! {

/// One command the link has carried over the bus: the raw command byte
/// (address plus read/write bit) and the byte exchanged with it.
#[derive(Clone, Copy, Debug, PartialEq, Eq, Structural)]
pub enum BusOp {
    /// A register read: the command byte sent and the byte returned.
    Read { cmd: u8, response: u8 },
    /// A register write: the command byte sent and the byte written.
    Write { cmd: u8, data: u8 },
}

/// A transport fault of the underlying bus or pin collaborator.  The
/// faulted transfer is modelled as having had no effect on the chip.
#[derive(Clone, Copy, Debug, PartialEq, Eq, Structural)]
pub struct BusFault;

/// A register-transfer and digital-I/O collaborator joined to one chip.
///
/// The ghost items have default bodies so that an unverified hardware
/// binding outside this crate provides only the executable methods: for
/// such a binding the chip state and the command log stay abstract.
pub trait ChipLink: Sized {
    /// The chip as the coming transfers will observe it.
    open spec fn chip(&self) -> ChipState {
        vstd::pervasive::arbitrary()
    }

    /// Every bus command carried so far, oldest first.
    open spec fn log(&self) -> Seq<BusOp> {
        vstd::pervasive::arbitrary()
    }

    /// The link's own well-formedness.
    open spec fn inv(&self) -> bool {
        true
    }

    /// Exchanges a read command (bit 7 clear) for one register byte.
    fn bus_read(&mut self, cmd: u8) -> (r: Result<u8, BusFault>)
        requires
            old(self).inv(),
            chip_wf(old(self).chip()),
            cmd & 0x80 == 0,
        ensures
            final(self).inv(),
            chip_wf(final(self).chip()),
            match r {
                Ok(v) => {
                    &&& v == read_value(old(self).chip(), cmd)
                    &&& final(self).chip() == read_step(old(self).chip(), cmd)
                    &&& final(self).log() == old(self).log().push(
                        (BusOp::Read { cmd: cmd, response: v }),
                    )
                },
                Err(_) => {
                    &&& final(self).chip() == old(self).chip()
                    &&& final(self).log() == old(self).log()
                },
            },
    ;

    /// Sends a write command (bit 7 set) followed by one register byte.
    fn bus_write(&mut self, cmd: u8, data: u8) -> (r: Result<(), BusFault>)
        requires
            old(self).inv(),
            chip_wf(old(self).chip()),
            cmd & 0x80 == 0x80,
        ensures
            final(self).inv(),
            chip_wf(final(self).chip()),
            match r {
                Ok(()) => {
                    &&& final(self).chip() == write_step(old(self).chip(), (cmd & 0x7F) as u8, data)
                    &&& final(self).log() == old(self).log().push(
                        (BusOp::Write { cmd: cmd, data: data }),
                    )
                },
                Err(_) => {
                    &&& final(self).chip() == old(self).chip()
                    &&& final(self).log() == old(self).log()
                },
            },
    ;

    /// Lets the chip settle for the given number of milliseconds; no
    /// bus activity and no observable chip change.
    fn settle(&mut self, ms: u64)
        requires
            old(self).inv(),
        ensures
            final(self).inv(),
            final(self).chip() == old(self).chip(),
            final(self).log() == old(self).log(),
    ;

    /// Reads the current level of the interrupt line.
    fn irq_is_high(&self) -> (r: bool)
        requires
            self.inv(),
        ensures
            r == self.chip().irq_high,
    ;

    /// Blocks until the interrupt line rises or the timeout elapses;
    /// returns whether it rose.  A single blocking wait, never a poll
    /// loop.
    fn wait_rising_edge(&mut self, timeout_ms: u64) -> (r: Result<bool, BusFault>)
        requires
            old(self).inv(),
            chip_wf(old(self).chip()),
        ensures
            final(self).inv(),
            chip_wf(final(self).chip()),
            final(self).log() == old(self).log(),
            match r {
                Ok(fired) => {
                    &&& fired == wait_fired(old(self).chip())
                    &&& final(self).chip() == wait_step(old(self).chip())
                },
                Err(_) => final(self).chip() == old(self).chip(),
            },
    ;

    /// Pulses the reset line per the datasheet sequence and waits for
    /// the chip to come back up at its power-on defaults.
    fn pulse_reset(&mut self) -> (r: Result<(), BusFault>)
        requires
            old(self).inv(),
            chip_wf(old(self).chip()),
        ensures
            final(self).inv(),
            chip_wf(final(self).chip()),
            final(self).log() == old(self).log(),
            match r {
                Ok(()) => final(self).chip() == reset_step(old(self).chip()),
                Err(_) => final(self).chip() == old(self).chip(),
            },
    ;
}

} // verus!
