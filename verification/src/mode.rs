//! Operating-mode encoding for the RFM9x mode register.
//!
//! The register combines exactly one operating state (the low three
//! bits) with orthogonal modem flags.  Encoding and decoding are total;
//! the two reserved bits of the register are ignored by the decoder, so
//! decoding is deterministic for every byte.

use vstd::prelude::*;

verus! {

/// The operating state held in the low three bits of the mode register.
#[derive(Clone, Copy, Debug, PartialEq, Eq, Structural)]
pub enum OperatingMode {
    Sleep,
    Standby,
    FrequencySynthesisTx,
    Transmit,
    FrequencySynthesisRx,
    ReceiveContinuous,
    ReceiveSingle,
    ChannelActivityDetection,
}

impl OperatingMode {
    /// The three-bit pattern of this operating state.
    pub open spec fn spec_bits(self) -> u8 {
        match self {
            OperatingMode::Sleep => 0x00,
            OperatingMode::Standby => 0x01,
            OperatingMode::FrequencySynthesisTx => 0x02,
            OperatingMode::Transmit => 0x03,
            OperatingMode::FrequencySynthesisRx => 0x04,
            OperatingMode::ReceiveContinuous => 0x05,
            OperatingMode::ReceiveSingle => 0x06,
            OperatingMode::ChannelActivityDetection => 0x07,
        }
    }

    /// The operating state selected by a three-bit pattern.
    pub open spec fn spec_from_bits(bits: u8) -> OperatingMode {
        if bits == 0x00 {
            OperatingMode::Sleep
        } else if bits == 0x01 {
            OperatingMode::Standby
        } else if bits == 0x02 {
            OperatingMode::FrequencySynthesisTx
        } else if bits == 0x03 {
            OperatingMode::Transmit
        } else if bits == 0x04 {
            OperatingMode::FrequencySynthesisRx
        } else if bits == 0x05 {
            OperatingMode::ReceiveContinuous
        } else if bits == 0x06 {
            OperatingMode::ReceiveSingle
        } else {
            OperatingMode::ChannelActivityDetection
        }
    }

    /// Returns the three-bit pattern of this operating state.
    pub fn bits(self) -> (b: u8)
        ensures
            b == self.spec_bits(),
    {
        match self {
            OperatingMode::Sleep => 0x00,
            OperatingMode::Standby => 0x01,
            OperatingMode::FrequencySynthesisTx => 0x02,
            OperatingMode::Transmit => 0x03,
            OperatingMode::FrequencySynthesisRx => 0x04,
            OperatingMode::ReceiveContinuous => 0x05,
            OperatingMode::ReceiveSingle => 0x06,
            OperatingMode::ChannelActivityDetection => 0x07,
        }
    }
}

/// A decoded value of the mode register: one operating state plus the
/// three orthogonal flags the driver cares about.
#[derive(Clone, Copy, Debug, PartialEq, Eq, Structural)]
pub struct Mode {
    /// The single active operating state.
    pub operating: OperatingMode,
    /// LoRa rather than FSK/OOK modulation (bit 7).
    pub lora: bool,
    /// Access to the shared FSK registers while in LoRa mode (bit 6).
    pub shared_access: bool,
    /// Low-frequency-port operation (bit 3).
    pub low_frequency: bool,
}

impl Mode {
    /// The register byte this mode encodes to.
    pub open spec fn spec_encode(self) -> u8 {
        (self.operating.spec_bits() | (if self.lora {
            0x80u8
        } else {
            0x00u8
        }) | (if self.shared_access {
            0x40u8
        } else {
            0x00u8
        }) | (if self.low_frequency {
            0x08u8
        } else {
            0x00u8
        })) as u8
    }

    /// The mode a register byte decodes to; the reserved bits 4 and 5
    /// are dropped.
    pub open spec fn spec_decode(b: u8) -> Mode {
        Mode {
            operating: OperatingMode::spec_from_bits((b & 0x07) as u8),
            lora: b & 0x80 != 0,
            shared_access: b & 0x40 != 0,
            low_frequency: b & 0x08 != 0,
        }
    }

    /// Encodes this mode as a register byte.
    pub fn encode(self) -> (b: u8)
        ensures
            b == self.spec_encode(),
    {
        self.operating.bits() | (if self.lora {
            0x80u8
        } else {
            0x00u8
        }) | (if self.shared_access {
            0x40u8
        } else {
            0x00u8
        }) | (if self.low_frequency {
            0x08u8
        } else {
            0x00u8
        })
    }

    /// Decodes a register byte, ignoring the reserved bits.
    pub fn decode(b: u8) -> (m: Mode)
        ensures
            m == Mode::spec_decode(b),
    {
        let op = b & 0x07;
        let operating = if op == 0x00 {
            OperatingMode::Sleep
        } else if op == 0x01 {
            OperatingMode::Standby
        } else if op == 0x02 {
            OperatingMode::FrequencySynthesisTx
        } else if op == 0x03 {
            OperatingMode::Transmit
        } else if op == 0x04 {
            OperatingMode::FrequencySynthesisRx
        } else if op == 0x05 {
            OperatingMode::ReceiveContinuous
        } else if op == 0x06 {
            OperatingMode::ReceiveSingle
        } else {
            OperatingMode::ChannelActivityDetection
        };
        Mode { operating, lora: b & 0x80 != 0, shared_access: b & 0x40 != 0, low_frequency: b & 0x08 != 0 }
    }

    /// Sleep with the modem still in FSK mode, as after power-on.
    pub fn sleep() -> (m: Mode)
        ensures
            m == (Mode {
                operating: OperatingMode::Sleep,
                lora: false,
                shared_access: false,
                low_frequency: false,
            }),
            m.spec_encode() == 0x00,
    {
        let m = Mode { operating: OperatingMode::Sleep, lora: false, shared_access: false, low_frequency: false };
        proof {
            assert(m.spec_encode() == ((0x00u8 | 0x00u8 | 0x00u8 | 0x00u8) as u8));
            assert(((0x00u8 | 0x00u8 | 0x00u8 | 0x00u8) as u8) == 0x00u8) by (bit_vector);
        }
        m
    }

    /// Sleep in LoRa mode; the only state in which the modulation flag
    /// may be switched.
    pub fn sleep_lora() -> (m: Mode)
        ensures
            m == (Mode {
                operating: OperatingMode::Sleep,
                lora: true,
                shared_access: false,
                low_frequency: false,
            }),
            m.spec_encode() == 0x80,
    {
        let m = Mode { operating: OperatingMode::Sleep, lora: true, shared_access: false, low_frequency: false };
        proof {
            assert(m.spec_encode() == ((0x00u8 | 0x80u8 | 0x00u8 | 0x00u8) as u8));
            assert(((0x00u8 | 0x80u8 | 0x00u8 | 0x00u8) as u8) == 0x80u8) by (bit_vector);
        }
        m
    }

    /// Standby in LoRa mode; the resting state between operations.
    pub fn standby_lora() -> (m: Mode)
        ensures
            m == (Mode {
                operating: OperatingMode::Standby,
                lora: true,
                shared_access: false,
                low_frequency: false,
            }),
            m.spec_encode() == 0x81,
    {
        let m = Mode { operating: OperatingMode::Standby, lora: true, shared_access: false, low_frequency: false };
        proof {
            assert(m.spec_encode() == ((0x01u8 | 0x80u8 | 0x00u8 | 0x00u8) as u8));
            assert(((0x01u8 | 0x80u8 | 0x00u8 | 0x00u8) as u8) == 0x81u8) by (bit_vector);
        }
        m
    }

    /// Transmit in LoRa mode.
    pub fn transmit_lora() -> (m: Mode)
        ensures
            m == (Mode {
                operating: OperatingMode::Transmit,
                lora: true,
                shared_access: false,
                low_frequency: false,
            }),
            m.spec_encode() == 0x83,
    {
        let m = Mode { operating: OperatingMode::Transmit, lora: true, shared_access: false, low_frequency: false };
        proof {
            assert(m.spec_encode() == ((0x03u8 | 0x80u8 | 0x00u8 | 0x00u8) as u8));
            assert(((0x03u8 | 0x80u8 | 0x00u8 | 0x00u8) as u8) == 0x83u8) by (bit_vector);
        }
        m
    }

    /// Continuous receive in LoRa mode.
    pub fn receive_continuous_lora() -> (m: Mode)
        ensures
            m == (Mode {
                operating: OperatingMode::ReceiveContinuous,
                lora: true,
                shared_access: false,
                low_frequency: false,
            }),
            m.spec_encode() == 0x85,
    {
        let m = Mode {
            operating: OperatingMode::ReceiveContinuous,
            lora: true,
            shared_access: false,
            low_frequency: false,
        };
        proof {
            assert(m.spec_encode() == ((0x05u8 | 0x80u8 | 0x00u8 | 0x00u8) as u8));
            assert(((0x05u8 | 0x80u8 | 0x00u8 | 0x00u8) as u8) == 0x85u8) by (bit_vector);
        }
        m
    }
}

/// Decoding inverts encoding: every mode survives a round trip through
/// its register byte.
pub proof fn law_mode_decode_encode(m: Mode)
    ensures
        Mode::spec_decode(m.spec_encode()) == m,
{
    let ob = m.operating.spec_bits();
    let l: u8 = if m.lora { 0x80 } else { 0x00 };
    let s: u8 = if m.shared_access { 0x40 } else { 0x00 };
    let f: u8 = if m.low_frequency { 0x08 } else { 0x00 };
    assert(ob < 8 && (l == 0 || l == 0x80) && (s == 0 || s == 0x40) && (f == 0 || f == 0x08)
        ==> ((ob | l | s | f) & 0x07 == ob && ((ob | l | s | f) & 0x80 == if l == 0x80 {
        0x80u8
    } else {
        0x00u8
    }) && ((ob | l | s | f) & 0x40 == if s == 0x40 {
        0x40u8
    } else {
        0x00u8
    }) && ((ob | l | s | f) & 0x08 == if f == 0x08 {
        0x08u8
    } else {
        0x00u8
    }))) by (bit_vector);
}

/// Encoding a decoded byte reproduces the byte up to the reserved bits
/// 4 and 5, which the decoder deterministically drops.
pub proof fn law_mode_encode_decode(b: u8)
    ensures
        Mode::spec_decode(b).spec_encode() == b & 0xCF,
{
    let ob = (b & 0x07) as u8;
    assert(b & 0x07 < 8) by (bit_vector);
    assert(OperatingMode::spec_from_bits(ob).spec_bits() == ob);
    assert(((b & 0x07) | (if b & 0x80 != 0 {
        0x80u8
    } else {
        0x00u8
    }) | (if b & 0x40 != 0 {
        0x40u8
    } else {
        0x00u8
    }) | (if b & 0x08 != 0 {
        0x08u8
    } else {
        0x00u8
    })) == b & 0xCF) by (bit_vector);
}

} // verus!
