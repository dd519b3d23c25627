//! The RFM95 driver: register transport, mode state machine, and the
//! packet engine, generic over the link that carries the transfers.
//!
//! Every contract is stated against the chip model: what the operation
//! does to the chip it is joined to, which bus commands it issues, and
//! exactly when each error is returned.

use vstd::prelude::*;

use crate::chip::chip_wf;
use crate::chip::lemma_fifo_pos_injective;
use crate::chip::fifo_pos;
use crate::chip::read_step;
use crate::chip::reset_step;
use crate::chip::read_value;
use crate::chip::wait_fired;
use crate::chip::wait_step;
use crate::chip::write_step;
use crate::chip::ChipState;
use crate::link::BusFault;
use crate::link::BusOp;
use crate::link::ChipLink;
use crate::mode::Mode;
use crate::registers::FIFO_RX_START;
use crate::registers::FIFO_TX_START;
use crate::registers::REG_DIO_MAPPING_1;
use crate::registers::REG_FIFO;
use crate::registers::REG_FIFO_ADDR_PTR;
use crate::registers::REG_FIFO_RX_BASE;
use crate::registers::REG_FIFO_RX_CURRENT;
use crate::registers::REG_FIFO_TX_BASE;
use crate::registers::REG_FRF_LSB;
use crate::registers::REG_FRF_MID;
use crate::registers::REG_FRF_MSB;
use crate::registers::REG_IRQ_FLAGS;
use crate::registers::REG_MODEM_CONFIG_1;
use crate::registers::REG_MODEM_CONFIG_2;
use crate::registers::REG_MODEM_CONFIG_3;
use crate::registers::REG_OP_MODE;
use crate::registers::REG_PAYLOAD_LENGTH;
use crate::registers::REG_PA_CONFIG;
use crate::registers::REG_PREAMBLE_LSB;
use crate::registers::REG_PREAMBLE_MSB;
use crate::registers::REG_RX_NB_BYTES;
use crate::registers::REG_SYMB_TIMEOUT_LSB;
use crate::registers::REG_SYNC_WORD;
use crate::registers::REG_VERSION;
use crate::registers::RFM_VERSION;
use crate::tables::lemma_hop_target_has_frequency;
use crate::tables::resolves_to;
use crate::tables::spec_frequency;
use crate::tables::valid_pair;
use crate::tables::Band;
use crate::tables::Channel;
use crate::tables::DataRate;

verus! {

/// The diagnostic triple of a failed mode change: the mode byte read
/// before the write, the mode requested, and the byte read back after
/// the settle delay.
#[derive(Clone, Copy, Debug, PartialEq, Eq, Structural)]
pub struct ModeChangeFailedErrorInfo {
    /// The raw mode byte before the change.
    pub old_mode: u8,
    /// The mode that was requested.
    pub new_mode: Mode,
    /// The raw mode byte read back after the write.
    pub set_mode: u8,
}

/// Everything a driver operation can fail with.
#[derive(Clone, Copy, Debug, PartialEq, Eq, Structural)]
pub enum RFMError {
    /// The post-reset identity check failed: the version register did
    /// not hold the expected constant.
    InvalidVersion,
    /// A mode write was not reflected by the chip after the settle
    /// delay.
    ModeChangeFailed(ModeChangeFailedErrorInfo),
    /// No transmit-done interrupt arrived within the transmit window.
    TransmissionTimedOut,
    /// No receive-done interrupt arrived within the caller's timeout.
    ReceiveTimedOut,
    /// A payload length outside 1..=254 was rejected before any bus
    /// activity.
    InvalidPayloadLength,
    /// The interrupt line was still asserted after its flags were
    /// cleared: a stale or missed event.
    StaleInterrupt,
    /// A transport fault of the bus or pin collaborator, propagated.
    Transport(BusFault),
}

/// The current value of the mode register.
pub open spec fn mode_reg(s: ChipState) -> u8 {
    s.regs[REG_OP_MODE as int]
}

/// The outcome the mode state machine reaches from chip state `s` when
/// asked for `target`: a no-op if the chip already holds the encoding,
/// otherwise a write followed by a verifying read-back.
pub open spec fn set_mode_result(s: ChipState, target: Mode) -> Result<(), RFMError> {
    let t = target.spec_encode();
    if mode_reg(s) == t {
        Ok(())
    } else if mode_reg(write_step(s, REG_OP_MODE, t)) == t {
        Ok(())
    } else {
        Err(
            RFMError::ModeChangeFailed(
                (ModeChangeFailedErrorInfo {
                    old_mode: mode_reg(s),
                    new_mode: target,
                    set_mode: mode_reg(write_step(s, REG_OP_MODE, t)),
                }),
            ),
        )
    }
}

/// The chip after the mode state machine ran from `s` towards `target`.
pub open spec fn set_mode_state(s: ChipState, target: Mode) -> ChipState {
    if mode_reg(s) == target.spec_encode() {
        s
    } else {
        write_step(s, REG_OP_MODE, target.spec_encode())
    }
}

/// The bus commands the mode state machine issues from `s` towards
/// `target`: one read in the idempotent case, else read, write and the
/// verifying read-back.
pub open spec fn set_mode_ops(s: ChipState, target: Mode) -> Seq<BusOp> {
    let t = target.spec_encode();
    if mode_reg(s) == t {
        seq![(BusOp::Read { cmd: REG_OP_MODE, response: mode_reg(s) })]
    } else {
        seq![
            (BusOp::Read { cmd: REG_OP_MODE, response: mode_reg(s) }),
            (BusOp::Write { cmd: REG_OP_MODE | 0x80, data: t }),
            (BusOp::Read {
                cmd: REG_OP_MODE,
                response: mode_reg(write_step(s, REG_OP_MODE, t)),
            }),
        ]
    }
}

/// How many of the given bus commands are writes.
pub open spec fn count_writes(ops: Seq<BusOp>) -> int
    decreases ops.len(),
{
    if ops.len() == 0 {
        0
    } else {
        count_writes(ops.drop_last()) + (if ops.last() is Write {
            1int
        } else {
            0int
        })
    }
}

/// A driver joined to one chip over a link, together with its radio
/// configuration and lifetime counters.
pub struct RFM95<L: ChipLink> {
    link: L,
    tx_random_number: u8,
    tx_packets: u32,
    data_rate: DataRate,
    channel: Channel,
    band: Band,
}

impl<L: ChipLink> RFM95<L> {
    /// The chip as the driver's coming transfers will observe it.
    pub closed spec fn chip(&self) -> ChipState {
        self.link.chip()
    }

    /// Every bus command issued so far over the driver's link.
    pub closed spec fn log(&self) -> Seq<BusOp> {
        self.link.log()
    }

    /// The driver's well-formedness: a well-formed link joined to a
    /// well-formed chip and a (band, channel) pair the frequency plan
    /// declares.
    pub closed spec fn inv(&self) -> bool {
        &&& self.link.inv()
        &&& chip_wf(self.link.chip())
        &&& valid_pair(self.band, self.channel)
    }

    /// The configured band.
    pub closed spec fn spec_band(&self) -> Band {
        self.band
    }

    /// The configured channel.
    pub closed spec fn spec_channel(&self) -> Channel {
        self.channel
    }

    /// The configured data rate.
    pub closed spec fn spec_data_rate(&self) -> DataRate {
        self.data_rate
    }

    /// The configured band, channel and data rate together.
    pub open spec fn spec_config(&self) -> (Band, Channel, DataRate) {
        (self.spec_band(), self.spec_channel(), self.spec_data_rate())
    }

    /// The lifetime count of payload bytes written to the FIFO.
    pub closed spec fn spec_tx_packets(&self) -> u32 {
        self.tx_packets
    }

    /// The transmit nonce.
    pub closed spec fn spec_tx_random(&self) -> u8 {
        self.tx_random_number
    }

    /// The link the driver is joined to the chip over.
    pub closed spec fn spec_link(&self) -> L {
        self.link
    }

    /// Borrows the link, to inspect the device side without any bus
    /// activity.
    pub fn link(&self) -> (l: &L)
        ensures
            *l == self.spec_link(),
    {
        &self.link
    }

    /// A well-formed driver is joined to a well-formed chip.
    pub proof fn lemma_inv_wf(&self)
        requires
            self.inv(),
        ensures
            chip_wf(self.chip()),
    {
    }

    /// Creates a driver over an already-claimed link.  The caller picks
    /// the radio configuration; the pair must be one the frequency plan
    /// declares.
    pub fn new(link: L, data_rate: DataRate, band: Band, channel: Channel) -> (d: RFM95<L>)
        requires
            link.inv(),
            chip_wf(link.chip()),
            valid_pair(band, channel),
        ensures
            d.inv(),
            d.chip() == link.chip(),
            d.log() == link.log(),
            d.spec_config() == (band, channel, data_rate),
            d.spec_tx_packets() == 0,
            d.spec_tx_random() == 0,
    {
        RFM95 {
            link,
            tx_random_number: 0,
            tx_packets: 0,
            data_rate,
            channel,
            band,
        }
    }

    /// Reads one register: a guarded exchange of the address with bit 7
    /// cleared, then the data byte.  Transport faults propagate.
    pub fn read_register(&mut self, reg: u8) -> (r: Result<u8, RFMError>)
        requires
            old(self).inv(),
            reg < 128,
        ensures
            final(self).inv(),
            final(self).spec_config() == old(self).spec_config(),
            final(self).spec_tx_packets() == old(self).spec_tx_packets(),
            final(self).spec_tx_random() == old(self).spec_tx_random(),
            match r {
                Ok(v) => {
                    &&& v == read_value(old(self).chip(), reg)
                    &&& final(self).chip() == read_step(old(self).chip(), reg)
                    &&& final(self).log() == old(self).log().push(
                        (BusOp::Read { cmd: reg, response: v }),
                    )
                },
                Err(e) => {
                    &&& e matches RFMError::Transport(_)
                    &&& final(self).chip() == old(self).chip()
                    &&& final(self).log() == old(self).log()
                },
            },
    {
        let cmd = reg & 0x7F;
        proof {
            assert(reg < 128 ==> (reg & 0x7F == reg && reg & 0x80 == 0)) by (bit_vector);
        }
        match self.link.bus_read(cmd) {
            Ok(v) => Ok(v),
            Err(f) => Err(RFMError::Transport(f)),
        }
    }

    /// Writes one register: a guarded exchange of the address with bit
    /// 7 set, then the data byte.  Transport faults propagate.
    pub fn write_register(&mut self, reg: u8, value: u8) -> (r: Result<(), RFMError>)
        requires
            old(self).inv(),
            reg < 128,
        ensures
            final(self).inv(),
            final(self).spec_config() == old(self).spec_config(),
            final(self).spec_tx_packets() == old(self).spec_tx_packets(),
            final(self).spec_tx_random() == old(self).spec_tx_random(),
            match r {
                Ok(()) => {
                    &&& final(self).chip() == write_step(old(self).chip(), reg, value)
                    &&& final(self).log() == old(self).log().push(
                        (BusOp::Write { cmd: reg | 0x80, data: value }),
                    )
                },
                Err(e) => {
                    &&& e matches RFMError::Transport(_)
                    &&& final(self).chip() == old(self).chip()
                    &&& final(self).log() == old(self).log()
                },
            },
    {
        let cmd = reg | 0x80;
        proof {
            assert(reg < 128 ==> ((reg | 0x80) & 0x80 == 0x80 && (reg | 0x80) & 0x7F == reg))
                by (bit_vector);
        }
        match self.link.bus_write(cmd, value) {
            Ok(()) => Ok(()),
            Err(f) => Err(RFMError::Transport(f)),
        }
    }

    /// Reads the chip's version register.
    pub fn get_version(&mut self) -> (r: Result<u8, RFMError>)
        requires
            old(self).inv(),
        ensures
            final(self).inv(),
            final(self).spec_config() == old(self).spec_config(),
            final(self).spec_tx_packets() == old(self).spec_tx_packets(),
            final(self).spec_tx_random() == old(self).spec_tx_random(),
            match r {
                Ok(v) => {
                    &&& v == old(self).chip().regs[REG_VERSION as int]
                    &&& final(self).chip() == old(self).chip()
                    &&& final(self).log() == old(self).log().push(
                        (BusOp::Read { cmd: REG_VERSION, response: v }),
                    )
                },
                Err(e) => {
                    &&& e matches RFMError::Transport(_)
                    &&& final(self).chip() == old(self).chip()
                    &&& final(self).log() == old(self).log()
                },
            },
    {
        self.read_register(REG_VERSION)
    }

    /// Sets the operating mode and verifies the chip took it: reads the
    /// current mode; if it already equals the target the call is a
    /// no-op, else it writes the target, waits the settle delay, reads
    /// the mode back and fails with the full diagnostic triple if the
    /// chip reports anything else.  Never retried internally.
    pub fn set_mode(&mut self, target: Mode) -> (r: Result<(), RFMError>)
        requires
            old(self).inv(),
        ensures
            final(self).inv(),
            final(self).spec_config() == old(self).spec_config(),
            final(self).spec_tx_packets() == old(self).spec_tx_packets(),
            final(self).spec_tx_random() == old(self).spec_tx_random(),
            match r {
                Err(RFMError::Transport(_)) => final(self).chip() == old(self).chip()
                    || final(self).chip() == set_mode_state(old(self).chip(), target),
                _ => {
                    &&& r == set_mode_result(old(self).chip(), target)
                    &&& final(self).chip() == set_mode_state(old(self).chip(), target)
                    &&& final(self).log() == old(self).log() + set_mode_ops(
                        old(self).chip(),
                        target,
                    )
                },
            },
    {
        let t = target.encode();
        let old_mode = match self.read_register(REG_OP_MODE) {
            Ok(v) => v,
            Err(e) => {
                return Err(e);
            },
        };
        if old_mode == t {
            proof {
                assert(self.log() =~= old(self).log() + set_mode_ops(old(self).chip(), target));
            }
            return Ok(());
        }
        match self.write_register(REG_OP_MODE, t) {
            Ok(()) => {},
            Err(e) => {
                return Err(e);
            },
        }
        self.link.settle(10);
        let new_mode = match self.read_register(REG_OP_MODE) {
            Ok(v) => v,
            Err(e) => {
                return Err(e);
            },
        };
        proof {
            assert(self.log() =~= old(self).log() + set_mode_ops(old(self).chip(), target));
        }
        if new_mode != t {
            return Err(
                RFMError::ModeChangeFailed(
                    ModeChangeFailedErrorInfo { old_mode, new_mode: target, set_mode: new_mode },
                ),
            );
        }
        Ok(())
    }
}


/// What a completed receive means, relative to the chip as it stood
/// when the call began: the chip-reported count of bytes streamed from
/// the chip-reported FIFO address, the radio programmed for the
/// requested channel and rate with CRC as asked, explicit headers (a
/// zero payload-length register), the FIFO pointer back at zero, and
/// the chip resting in LoRa standby.
pub open spec fn receive_ok_post(
    s0: ChipState,
    s1: ChipState,
    band: Band,
    channel: Channel,
    rate: DataRate,
    with_crc: bool,
    data: Seq<u8>,
) -> bool {
    let n = s0.regs[REG_RX_NB_BYTES as int];
    let a = s0.regs[REG_FIFO_RX_CURRENT as int];
    &&& data.len() == n
    &&& forall|i: int| 0 <= i < n ==> data[i] == s0.fifo[fifo_pos(a as int, i)]
    &&& mode_reg(s1) == 0x81
    &&& s1.regs[REG_FIFO_ADDR_PTR as int] == 0
    &&& s1.regs[REG_PAYLOAD_LENGTH as int] == 0
    &&& s1.regs[REG_DIO_MAPPING_1 as int] == 0x00
    &&& carrier_programmed(s1, band, channel)
    &&& modem_programmed(s1, rate, with_crc)
}

/// The carrier registers of `s` hold the triplet of a channel that the
/// requested channel resolves to in the given band.
pub open spec fn carrier_programmed(s: ChipState, band: Band, requested: Channel) -> bool {
    exists|c: Channel|
        {
            &&& #[trigger] resolves_to(requested, c)
            &&& spec_frequency(c, band) is Some
            &&& s.regs[REG_FRF_MSB as int] == spec_frequency(c, band).unwrap().0
            &&& s.regs[REG_FRF_MID as int] == spec_frequency(c, band).unwrap().1
            &&& s.regs[REG_FRF_LSB as int] == spec_frequency(c, band).unwrap().2
        }
}

/// The modem-configuration registers of `s` hold the bytes of the given
/// data rate, with the CRC flag OR-ed into the second byte if asked.
pub open spec fn modem_programmed(s: ChipState, rate: DataRate, crc: bool) -> bool {
    &&& s.regs[REG_MODEM_CONFIG_1 as int] == rate.spec_modem_config_1()
    &&& s.regs[REG_MODEM_CONFIG_2 as int] == (if crc {
        rate.spec_modem_config_2() | 0x04u8
    } else {
        rate.spec_modem_config_2()
    })
    &&& s.regs[REG_MODEM_CONFIG_3 as int] == rate.spec_modem_config_3()
}

/// The FIFO of `s` holds the given bytes starting at `base`, wrapping
/// at the FIFO size.
pub open spec fn payload_in_fifo(s: ChipState, base: int, data: Seq<u8>) -> bool {
    forall|i: int| 0 <= i < data.len() ==> s.fifo[fifo_pos(base, i)] == data[i]
}

/// The event hooks and pending interrupts of `b` are those of `a`.
pub open spec fn same_events(a: ChipState, b: ChipState) -> bool {
    &&& b.mode_glitch == a.mode_glitch
    &&& b.pin_stuck == a.pin_stuck
    &&& b.irq_script == a.irq_script
    &&& b.irq_high == a.irq_high
}

/// A 32-bit counter after `n` more increments, wrapping.
pub open spec fn wrap_add_u32(a: u32, n: int) -> u32 {
    ((a + n) % 0x1_0000_0000) as u32
}

impl<L: ChipLink> RFM95<L> {
    /// Programs the carrier for the given channel: resolves the hopping
    /// pseudo-channel to a fresh random hop target, looks the triplet
    /// up, and writes it most significant byte first.
    fn set_frequency(&mut self, channel: Channel) -> (r: Result<(), RFMError>)
        requires
            old(self).inv(),
            valid_pair(old(self).spec_band(), channel),
        ensures
            final(self).inv(),
            final(self).spec_config() == old(self).spec_config(),
            final(self).spec_tx_packets() == old(self).spec_tx_packets(),
            final(self).spec_tx_random() == old(self).spec_tx_random(),
            match r {
                Ok(()) => ({
                    let s0 = old(self).chip();
                    let s1 = final(self).chip();
                    &&& carrier_programmed(s1, old(self).spec_band(), channel)
                    &&& s1.regs.len() == s0.regs.len()
                    &&& forall|i: int|
                        0 <= i < s0.regs.len() && i != REG_FRF_MSB as int && i != REG_FRF_MID as int
                            && i != REG_FRF_LSB as int ==> s1.regs[i] == s0.regs[i]
                    &&& s1.fifo == s0.fifo
                    &&& same_events(s0, s1)
                }),
                Err(e) => e matches RFMError::Transport(_),
            },
    {
        proof {
            old(self).lemma_inv_wf();
        }
        let ch = channel.resolve();
        let f = match ch.frequency(&self.band) {
            Some(f) => f,
            None => {
                proof {
                    match channel {
                        Channel::Multi => lemma_hop_target_has_frequency(self.band, ch),
                        _ => {},
                    }
                    assert(false);
                }
                (0, 0, 0)
            },
        };
        match self.write_register(REG_FRF_MSB, f.0) {
            Ok(()) => {},
            Err(e) => {
                return Err(e);
            },
        }
        match self.write_register(REG_FRF_MID, f.1) {
            Ok(()) => {},
            Err(e) => {
                return Err(e);
            },
        }
        match self.write_register(REG_FRF_LSB, f.2) {
            Ok(()) => {},
            Err(e) => {
                return Err(e);
            },
        }
        proof {
            assert(resolves_to(channel, ch));
        }
        Ok(())
    }

    /// Programs the three modem-configuration registers for the given
    /// data rate, OR-ing the CRC-enable flag into the spreading-factor
    /// byte where asked.
    fn set_data_rate(&mut self, data_rate: DataRate, enable_crc: bool) -> (r: Result<
        (),
        RFMError,
    >)
        requires
            old(self).inv(),
        ensures
            final(self).inv(),
            final(self).spec_config() == old(self).spec_config(),
            final(self).spec_tx_packets() == old(self).spec_tx_packets(),
            final(self).spec_tx_random() == old(self).spec_tx_random(),
            match r {
                Ok(()) => ({
                    let s0 = old(self).chip();
                    let s1 = final(self).chip();
                    &&& modem_programmed(s1, data_rate, enable_crc)
                    &&& s1.regs.len() == s0.regs.len()
                    &&& forall|i: int|
                        0 <= i < s0.regs.len() && i != REG_MODEM_CONFIG_1 as int && i
                            != REG_MODEM_CONFIG_2 as int && i != REG_MODEM_CONFIG_3 as int
                            ==> s1.regs[i] == s0.regs[i]
                    &&& s1.fifo == s0.fifo
                    &&& same_events(s0, s1)
                }),
                Err(e) => e matches RFMError::Transport(_),
            },
    {
        proof {
            old(self).lemma_inv_wf();
        }
        let mut modem_config_2 = data_rate.modem_config_2();
        if enable_crc {
            modem_config_2 = modem_config_2 | 0x04;
        }
        match self.write_register(REG_MODEM_CONFIG_2, modem_config_2) {
            Ok(()) => {},
            Err(e) => {
                return Err(e);
            },
        }
        match self.write_register(REG_MODEM_CONFIG_1, data_rate.modem_config_1()) {
            Ok(()) => {},
            Err(e) => {
                return Err(e);
            },
        }
        match self.write_register(REG_MODEM_CONFIG_3, data_rate.modem_config_3()) {
            Ok(()) => {},
            Err(e) => {
                return Err(e);
            },
        }
        Ok(())
    }

    /// Clears the interrupt flags, checks defensively that the line is
    /// deasserted — an asserted line here is a stale or missed event and
    /// is surfaced, never ignored — then blocks until the line rises or
    /// the timeout elapses.  One blocking wait, never a poll loop.
    fn wait_for_interrupt(&mut self, timeout_ms: u64) -> (r: Result<bool, RFMError>)
        requires
            old(self).inv(),
        ensures
            final(self).inv(),
            final(self).spec_config() == old(self).spec_config(),
            final(self).spec_tx_packets() == old(self).spec_tx_packets(),
            final(self).spec_tx_random() == old(self).spec_tx_random(),
            ({
                let s1 = write_step(old(self).chip(), REG_IRQ_FLAGS, 0xFF);
                match r {
                    Ok(fired) => {
                        &&& !s1.irq_high
                        &&& fired == wait_fired(s1)
                        &&& final(self).chip() == wait_step(s1)
                    },
                    Err(RFMError::StaleInterrupt) => s1.irq_high && final(self).chip() == s1,
                    Err(RFMError::Transport(_)) => final(self).chip() == old(self).chip()
                        || final(self).chip() == s1,
                    _ => false,
                }
            }),
    {
        proof {
            old(self).lemma_inv_wf();
        }
        match self.write_register(REG_IRQ_FLAGS, 0xFF) {
            Ok(()) => {},
            Err(e) => {
                return Err(e);
            },
        }
        if self.link.irq_is_high() {
            return Err(RFMError::StaleInterrupt);
        }
        match self.link.wait_rising_edge(timeout_ms) {
            Ok(fired) => Ok(fired),
            Err(f) => Err(RFMError::Transport(f)),
        }
    }

    /// Transmits one packet of 1 to 254 bytes: standby, map the
    /// interrupt output to transmit-done, program the carrier and the
    /// data rate with CRC forced on, write the payload length, point
    /// the FIFO at the transmit region, stream the payload — counting
    /// every byte in the lifetime counter — switch to transmit, wait up
    /// to a second for the done interrupt, and return to standby on
    /// success and on timeout alike.  A length outside 1..=254 is a
    /// validation error raised before any bus activity; a missing done
    /// interrupt is a timeout, never retried internally.
    pub fn send_packet(&mut self, packet: &[u8]) -> (r: Result<(), RFMError>)
        requires
            old(self).inv(),
        ensures
            final(self).inv(),
            final(self).spec_config() == old(self).spec_config(),
            final(self).spec_tx_random() == old(self).spec_tx_random(),
            r == Err::<(), RFMError>(RFMError::InvalidPayloadLength) <==> (packet@.len() == 0
                || packet@.len() >= 255),
            r == Err::<(), RFMError>(RFMError::InvalidPayloadLength) ==> *final(self) == *old(self),
            match r {
                Ok(()) => ({
                    let s1 = final(self).chip();
                    &&& mode_reg(s1) == 0x81
                    &&& carrier_programmed(s1, old(self).spec_band(), old(self).spec_channel())
                    &&& modem_programmed(s1, old(self).spec_data_rate(), true)
                    &&& s1.regs[REG_PAYLOAD_LENGTH as int] == packet@.len()
                    &&& s1.regs[REG_DIO_MAPPING_1 as int] == 0x40
                    &&& payload_in_fifo(s1, FIFO_TX_START as int, packet@)
                    &&& final(self).spec_tx_packets() == wrap_add_u32(
                        old(self).spec_tx_packets(),
                        packet@.len() as int,
                    )
                    &&& wait_fired(old(self).chip())
                }),
                Err(RFMError::TransmissionTimedOut) => ({
                    let s1 = final(self).chip();
                    &&& mode_reg(s1) == 0x81
                    &&& payload_in_fifo(s1, FIFO_TX_START as int, packet@)
                    &&& final(self).spec_tx_packets() == wrap_add_u32(
                        old(self).spec_tx_packets(),
                        packet@.len() as int,
                    )
                    &&& !wait_fired(old(self).chip())
                }),
                Err(RFMError::InvalidPayloadLength) => true,
                Err(RFMError::ModeChangeFailed(_)) => old(self).chip().mode_glitch is Some,
                Err(RFMError::StaleInterrupt) => old(self).chip().pin_stuck,
                Err(RFMError::Transport(_)) => true,
                _ => false,
            },
            (packet@.len() >= 1 && packet@.len() < 255 && old(self).chip().mode_glitch is None
                && !old(self).chip().pin_stuck) ==> match r {
                Ok(()) => wait_fired(old(self).chip()),
                Err(e) => (e == RFMError::TransmissionTimedOut && !wait_fired(old(self).chip()))
                    || (e matches RFMError::Transport(_)),
            },
    {
        proof {
            old(self).lemma_inv_wf();
        }
        if packet.len() == 0 || packet.len() >= 255 {
            return Err(RFMError::InvalidPayloadLength);
        }
        match self.set_mode(Mode::standby_lora()) {
            Ok(()) => {},
            Err(e) => {
                return Err(e);
            },
        }
        // Raise the interrupt output on transmit-done.
        match self.write_register(REG_DIO_MAPPING_1, 0x40) {
            Ok(()) => {},
            Err(e) => {
                return Err(e);
            },
        }
        let channel = self.channel;
        match self.set_frequency(channel) {
            Ok(()) => {},
            Err(e) => {
                return Err(e);
            },
        }
        let data_rate = self.data_rate;
        match self.set_data_rate(data_rate, true) {
            Ok(()) => {},
            Err(e) => {
                return Err(e);
            },
        }
        match self.write_register(REG_PAYLOAD_LENGTH, packet.len() as u8) {
            Ok(()) => {},
            Err(e) => {
                return Err(e);
            },
        }
        match self.write_register(REG_FIFO_ADDR_PTR, FIFO_TX_START) {
            Ok(()) => {},
            Err(e) => {
                return Err(e);
            },
        }
        let ghost s_base = self.chip();
        proof {
            assert(modem_programmed(s_base, data_rate, true));
            assert(carrier_programmed(s_base, old(self).spec_band(), old(self).spec_channel()));
            assert(s_base.regs[REG_PAYLOAD_LENGTH as int] == packet@.len());
            assert(s_base.regs[REG_DIO_MAPPING_1 as int] == 0x40);
        }
        let mut i: usize = 0;
        #[verifier::loop_isolation(false)]
        while i < packet.len()
            invariant
                self.inv(),
                i <= packet@.len(),
                1 <= packet@.len() < 255,
                self.spec_config() == old(self).spec_config(),
                self.spec_tx_random() == old(self).spec_tx_random(),
                self.spec_tx_packets() == wrap_add_u32(old(self).spec_tx_packets(), i as int),
                chip_wf(self.chip()),
                s_base.regs.len() == 128,
                s_base.fifo.len() == 256,
                self.chip().regs[REG_FIFO_ADDR_PTR as int] == fifo_pos(
                    FIFO_TX_START as int,
                    i as int,
                ),
                forall|q: int|
                    0 <= q < 128 && q != REG_FIFO_ADDR_PTR as int ==> self.chip().regs[q]
                        == s_base.regs[q],
                forall|j: int|
                    0 <= j < i ==> self.chip().fifo[fifo_pos(FIFO_TX_START as int, j)]
                        == packet@[j],
                same_events(s_base, self.chip()),
            decreases packet@.len() - i,
        {
            let b = packet[i];
            let ghost s_cur = self.chip();
            match self.write_register(REG_FIFO, b) {
                Ok(()) => {},
                Err(e) => {
                    return Err(e);
                },
            }
            self.tx_packets = self.tx_packets.wrapping_add(1);
            proof {
                assert forall|j: int|
                    0 <= j < i + 1 implies self.chip().fifo[fifo_pos(FIFO_TX_START as int, j)]
                    == packet@[j] by {
                    if j < i {
                        lemma_fifo_pos_injective(FIFO_TX_START as int, j, i as int);
                    }
                }
            }
            i = i + 1;
        }
        match self.set_mode(Mode::transmit_lora()) {
            Ok(()) => {},
            Err(e) => {
                return Err(e);
            },
        }
        let fired = match self.wait_for_interrupt(1000) {
            Ok(f) => f,
            Err(e) => {
                return Err(e);
            },
        };
        if !fired {
            match self.set_mode(Mode::standby_lora()) {
                Ok(()) => {},
                Err(e) => {
                    return Err(e);
                },
            }
            return Err(RFMError::TransmissionTimedOut);
        }
        match self.set_mode(Mode::standby_lora()) {
            Ok(()) => {},
            Err(e) => {
                return Err(e);
            },
        }
        Ok(())
    }

    /// Receives one packet: standby then continuous receive, program
    /// the carrier and the data rate with CRC as requested, select
    /// explicit headers, map the interrupt output to receive-done, and
    /// block until the done interrupt or the caller's timeout — a
    /// timeout is a fault, never a truncated result.  On success the
    /// chip-reported count of bytes is streamed out of the FIFO, the
    /// FIFO pointer is reset, and the chip returns to standby.
    pub fn receive_packet(
        &mut self,
        channel: Channel,
        data_rate: DataRate,
        with_crc: bool,
        timeout_ms: u64,
    ) -> (r: Result<Vec<u8>, RFMError>)
        requires
            old(self).inv(),
            valid_pair(old(self).spec_band(), channel),
        ensures
            final(self).inv(),
            final(self).spec_config() == old(self).spec_config(),
            final(self).spec_tx_packets() == old(self).spec_tx_packets(),
            final(self).spec_tx_random() == old(self).spec_tx_random(),
            match r {
                Ok(data) => receive_ok_post(
                    old(self).chip(),
                    final(self).chip(),
                    old(self).spec_band(),
                    channel,
                    data_rate,
                    with_crc,
                    data@,
                ) && wait_fired(old(self).chip()),
                Err(RFMError::ReceiveTimedOut) => mode_reg(final(self).chip()) == 0x81
                    && !wait_fired(old(self).chip()),
                Err(RFMError::ModeChangeFailed(_)) => old(self).chip().mode_glitch is Some,
                Err(RFMError::StaleInterrupt) => old(self).chip().pin_stuck,
                Err(RFMError::Transport(_)) => true,
                _ => false,
            },
            (old(self).chip().mode_glitch is None && !old(self).chip().pin_stuck) ==> match r {
                Ok(_) => wait_fired(old(self).chip()),
                Err(e) => (e == RFMError::ReceiveTimedOut && !wait_fired(old(self).chip())) || (
                e matches RFMError::Transport(_)),
            },
    {
        proof {
            old(self).lemma_inv_wf();
        }
        match self.set_mode(Mode::standby_lora()) {
            Ok(()) => {},
            Err(e) => {
                return Err(e);
            },
        }
        match self.set_mode(Mode::receive_continuous_lora()) {
            Ok(()) => {},
            Err(e) => {
                return Err(e);
            },
        }
        match self.set_frequency(channel) {
            Ok(()) => {},
            Err(e) => {
                return Err(e);
            },
        }
        match self.set_data_rate(data_rate, with_crc) {
            Ok(()) => {},
            Err(e) => {
                return Err(e);
            },
        }
        // Zero payload length: explicit-header mode, the length comes
        // from the received header.
        match self.write_register(REG_PAYLOAD_LENGTH, 0) {
            Ok(()) => {},
            Err(e) => {
                return Err(e);
            },
        }
        // Raise the interrupt output on receive-done.
        match self.write_register(REG_DIO_MAPPING_1, 0x00) {
            Ok(()) => {},
            Err(e) => {
                return Err(e);
            },
        }
        let fired = match self.wait_for_interrupt(timeout_ms) {
            Ok(f) => f,
            Err(e) => {
                return Err(e);
            },
        };
        if !fired {
            match self.set_mode(Mode::standby_lora()) {
                Ok(()) => {},
                Err(e) => {
                    return Err(e);
                },
            }
            return Err(RFMError::ReceiveTimedOut);
        }
        let count = match self.read_register(REG_RX_NB_BYTES) {
            Ok(v) => v,
            Err(e) => {
                return Err(e);
            },
        };
        let fifo_addr = match self.read_register(REG_FIFO_RX_CURRENT) {
            Ok(v) => v,
            Err(e) => {
                return Err(e);
            },
        };
        match self.write_register(REG_FIFO_ADDR_PTR, fifo_addr) {
            Ok(()) => {},
            Err(e) => {
                return Err(e);
            },
        }
        let ghost s_pre = self.chip();
        proof {
            assert(count == old(self).chip().regs[REG_RX_NB_BYTES as int]);
            assert(fifo_addr == old(self).chip().regs[REG_FIFO_RX_CURRENT as int]);
            assert(s_pre.fifo == old(self).chip().fifo);
            assert(carrier_programmed(s_pre, old(self).spec_band(), channel));
            assert(modem_programmed(s_pre, data_rate, with_crc));
            assert(s_pre.regs[REG_PAYLOAD_LENGTH as int] == 0);
            assert(s_pre.regs[REG_DIO_MAPPING_1 as int] == 0x00);
            assert(s_pre.regs[REG_FIFO_ADDR_PTR as int] == fifo_addr);
        }
        let mut data: Vec<u8> = Vec::new();
        let mut i: usize = 0;
        #[verifier::loop_isolation(false)]
        while i < count as usize
            invariant
                self.inv(),
                i <= count as int,
                data@.len() == i,
                chip_wf(self.chip()),
                self.spec_config() == old(self).spec_config(),
                self.spec_tx_packets() == old(self).spec_tx_packets(),
                self.spec_tx_random() == old(self).spec_tx_random(),
                self.chip().regs[REG_FIFO_ADDR_PTR as int] == fifo_pos(fifo_addr as int, i as int),
                forall|q: int|
                    0 <= q < 128 && q != REG_FIFO_ADDR_PTR as int ==> self.chip().regs[q]
                        == s_pre.regs[q],
                self.chip().fifo == s_pre.fifo,
                forall|j: int| 0 <= j < i ==> data@[j] == s_pre.fifo[fifo_pos(fifo_addr as int, j)],
                same_events(s_pre, self.chip()),
            decreases count as int - i,
        {
            let byte = match self.read_register(REG_FIFO) {
                Ok(v) => v,
                Err(e) => {
                    return Err(e);
                },
            };
            data.push(byte);
            i = i + 1;
        }
        match self.write_register(REG_FIFO_ADDR_PTR, 0) {
            Ok(()) => {},
            Err(e) => {
                return Err(e);
            },
        }
        match self.set_mode(Mode::standby_lora()) {
            Ok(()) => {},
            Err(e) => {
                return Err(e);
            },
        }
        Ok(data)
    }

    /// Receives in the window after a transmission, re-using the
    /// driver's own channel and data rate.
    pub fn receive_packet_on_tx(&mut self, with_crc: bool, timeout_ms: u64) -> (r: Result<
        Vec<u8>,
        RFMError,
    >)
        requires
            old(self).inv(),
        ensures
            final(self).inv(),
            final(self).spec_config() == old(self).spec_config(),
            final(self).spec_tx_packets() == old(self).spec_tx_packets(),
            final(self).spec_tx_random() == old(self).spec_tx_random(),
            match r {
                Ok(data) => receive_ok_post(
                    old(self).chip(),
                    final(self).chip(),
                    old(self).spec_band(),
                    old(self).spec_channel(),
                    old(self).spec_data_rate(),
                    with_crc,
                    data@,
                ) && wait_fired(old(self).chip()),
                Err(RFMError::ReceiveTimedOut) => mode_reg(final(self).chip()) == 0x81
                    && !wait_fired(old(self).chip()),
                Err(RFMError::ModeChangeFailed(_)) => old(self).chip().mode_glitch is Some,
                Err(RFMError::StaleInterrupt) => old(self).chip().pin_stuck,
                Err(RFMError::Transport(_)) => true,
                _ => false,
            },
            (old(self).chip().mode_glitch is None && !old(self).chip().pin_stuck) ==> match r {
                Ok(_) => wait_fired(old(self).chip()),
                Err(e) => (e == RFMError::ReceiveTimedOut && !wait_fired(old(self).chip())) || (
                e matches RFMError::Transport(_)),
            },
    {
        let channel = self.channel;
        let data_rate = self.data_rate;
        self.receive_packet(channel, data_rate, with_crc, timeout_ms)
    }

    /// Resets the chip over the link's reset line, verifies the version
    /// register against the expected constant — a mismatch is fatal —
    /// then forces Sleep, switches into LoRa mode, and programs the
    /// fixed baseline: maximum transmit power, a 37-symbol receive
    /// timeout, an 8-symbol preamble, the LoRa sync word, and the FIFO
    /// base addresses of the transmit and receive regions.
    pub fn reset(&mut self) -> (r: Result<(), RFMError>)
        requires
            old(self).inv(),
        ensures
            final(self).inv(),
            final(self).spec_config() == old(self).spec_config(),
            final(self).spec_tx_packets() == old(self).spec_tx_packets(),
            match r {
                Ok(()) => ({
                    let s1 = final(self).chip();
                    &&& old(self).chip().regs[REG_VERSION as int] == RFM_VERSION
                    &&& mode_reg(s1) == 0x80
                    &&& s1.regs[REG_PA_CONFIG as int] == 0xFF
                    &&& s1.regs[REG_SYMB_TIMEOUT_LSB as int] == 0x25
                    &&& s1.regs[REG_PREAMBLE_MSB as int] == 0x00
                    &&& s1.regs[REG_PREAMBLE_LSB as int] == 0x08
                    &&& s1.regs[REG_SYNC_WORD as int] == 0x34
                    &&& s1.regs[REG_FIFO_TX_BASE as int] == FIFO_TX_START
                    &&& s1.regs[REG_FIFO_RX_BASE as int] == FIFO_RX_START
                    &&& final(self).spec_tx_random() == 0
                }),
                Err(RFMError::InvalidVersion) => old(self).chip().regs[REG_VERSION as int]
                    != RFM_VERSION,
                Err(RFMError::ModeChangeFailed(_)) => old(self).chip().mode_glitch is Some,
                Err(RFMError::Transport(_)) => true,
                _ => false,
            },
            (old(self).chip().regs[REG_VERSION as int] == RFM_VERSION && old(
                self,
            ).chip().mode_glitch is None) ==> (r == Ok::<(), RFMError>(()) || (
            r matches Err(RFMError::Transport(_)))),
            old(self).chip().regs[REG_VERSION as int] != RFM_VERSION ==> (r == Err::<
                (),
                RFMError,
            >(RFMError::InvalidVersion) || (r matches Err(RFMError::Transport(_)))),
    {
        proof {
            old(self).lemma_inv_wf();
        }
        match self.link.pulse_reset() {
            Ok(()) => {},
            Err(f) => {
                return Err(RFMError::Transport(f));
            },
        }
        let version = match self.get_version() {
            Ok(v) => v,
            Err(e) => {
                return Err(e);
            },
        };
        if version != RFM_VERSION {
            return Err(RFMError::InvalidVersion);
        }
        match self.set_mode(Mode::sleep()) {
            Ok(()) => {},
            Err(e) => {
                return Err(e);
            },
        }
        match self.set_mode(Mode::sleep_lora()) {
            Ok(()) => {},
            Err(e) => {
                return Err(e);
            },
        }
        // Maximum transmit power, 17 dBm.
        match self.write_register(REG_PA_CONFIG, 0xFF) {
            Ok(()) => {},
            Err(e) => {
                return Err(e);
            },
        }
        // Receive timeout of 37 symbols.
        match self.write_register(REG_SYMB_TIMEOUT_LSB, 0x25) {
            Ok(()) => {},
            Err(e) => {
                return Err(e);
            },
        }
        // Preamble length of 8 symbols.
        match self.write_register(REG_PREAMBLE_MSB, 0x00) {
            Ok(()) => {},
            Err(e) => {
                return Err(e);
            },
        }
        match self.write_register(REG_PREAMBLE_LSB, 0x08) {
            Ok(()) => {},
            Err(e) => {
                return Err(e);
            },
        }
        // The LoRa sync word.
        match self.write_register(REG_SYNC_WORD, 0x34) {
            Ok(()) => {},
            Err(e) => {
                return Err(e);
            },
        }
        // FIFO base addresses of the transmit and receive regions.
        match self.write_register(REG_FIFO_TX_BASE, FIFO_TX_START) {
            Ok(()) => {},
            Err(e) => {
                return Err(e);
            },
        }
        match self.write_register(REG_FIFO_RX_BASE, FIFO_RX_START) {
            Ok(()) => {},
            Err(e) => {
                return Err(e);
            },
        }
        self.tx_random_number = 0;
        Ok(())
    }
}

} // verus!
