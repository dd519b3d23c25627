//! Datasheet tables: per-band carrier-frequency triplets and the
//! modem-configuration bytes of each data rate.
//!
//! The carrier lookup is total and deterministic over every declared
//! (band, channel) pair; the pairs the frequency plans leave undefined
//! yield `None` rather than a wrong value.  The frequency-hopping
//! channel is resolved separately, from an explicit random draw, so the
//! lookup itself stays deterministic.

use vstd::prelude::*;

verus! {

/// A regional frequency plan.
#[derive(Clone, Copy, Debug, PartialEq, Eq, Structural)]
pub enum Band {
    EU863,
    US901,
    AS920,
}

/// A preset carrier within a band, or the hopping pseudo-channel.
///
/// `Multi` stands for no fixed carrier: each time a frequency is
/// programmed it resolves anew to a uniformly random choice among the
/// channels 0 through 7 of the band.
#[derive(Clone, Copy, Debug, PartialEq, Eq, Structural)]
pub enum Channel {
    Ch0,
    Ch1,
    Ch2,
    Ch3,
    Ch4,
    Ch5,
    Ch6,
    Ch7,
    Ch9,
    Multi,
}

/// A LoRa spreading-factor/bandwidth combination.
#[derive(Clone, Copy, Debug, PartialEq, Eq, Structural)]
#[allow(non_camel_case_types)]
pub enum DataRate {
    SF7_BW125,
    SF7_BW250,
    SF8_BW125,
    SF9_BW125,
    SF10_BW125,
    SF11_BW125,
    SF12_BW125,
}

/// The three carrier-frequency register bytes (most significant first)
/// of a (band, channel) pair, or `None` where the frequency plan
/// declares no carrier: channel 9 outside EU863, and the hopping
/// pseudo-channel, which must be resolved to a concrete channel first.
pub open spec fn spec_frequency(ch: Channel, band: Band) -> Option<(u8, u8, u8)> {
    match band {
        Band::EU863 => match ch {
            Channel::Ch0 => Some((0xD9, 0x06, 0x8B)),
            Channel::Ch1 => Some((0xD9, 0x13, 0x58)),
            Channel::Ch2 => Some((0xD9, 0x20, 0x24)),
            Channel::Ch3 => Some((0xD8, 0xC6, 0x8B)),
            Channel::Ch4 => Some((0xD8, 0xD3, 0x58)),
            Channel::Ch5 => Some((0xD8, 0xE0, 0x24)),
            Channel::Ch6 => Some((0xD8, 0xEC, 0xF1)),
            Channel::Ch7 => Some((0xD8, 0xF9, 0xBE)),
            Channel::Ch9 => Some((0xD9, 0x61, 0xBE)),
            Channel::Multi => None,
        },
        Band::US901 => match ch {
            Channel::Ch0 => Some((0xE1, 0xF9, 0xC0)),
            Channel::Ch1 => Some((0xE2, 0x06, 0x8C)),
            Channel::Ch2 => Some((0xE2, 0x13, 0x59)),
            Channel::Ch3 => Some((0xE2, 0x20, 0x26)),
            Channel::Ch4 => Some((0xE2, 0x2C, 0xF3)),
            Channel::Ch5 => Some((0xE2, 0x39, 0xC0)),
            Channel::Ch6 => Some((0xE2, 0x46, 0x8C)),
            Channel::Ch7 => Some((0xE2, 0x53, 0x59)),
            Channel::Ch9 => None,
            Channel::Multi => None,
        },
        Band::AS920 => match ch {
            Channel::Ch0 => Some((0xE6, 0xCC, 0xF4)),
            Channel::Ch1 => Some((0xE6, 0xD9, 0xC0)),
            Channel::Ch2 => Some((0xE6, 0x8C, 0xF3)),
            Channel::Ch3 => Some((0xE6, 0x99, 0xC0)),
            Channel::Ch4 => Some((0xE6, 0xA6, 0x8D)),
            Channel::Ch5 => Some((0xE6, 0xB3, 0x5A)),
            Channel::Ch6 => Some((0xE6, 0xC0, 0x27)),
            Channel::Ch7 => Some((0xE6, 0x80, 0x27)),
            Channel::Ch9 => None,
            Channel::Multi => None,
        },
    }
}

/// A channel the frequency-hopping draw may resolve to: one of the
/// eight numbered channels 0 through 7.
pub open spec fn is_hop_target(ch: Channel) -> bool {
    match ch {
        Channel::Ch0 | Channel::Ch1 | Channel::Ch2 | Channel::Ch3 | Channel::Ch4 | Channel::Ch5
            | Channel::Ch6 | Channel::Ch7 => true,
        Channel::Ch9 | Channel::Multi => false,
    }
}

/// The hop channel a draw index below eight selects.
pub open spec fn channel_of_index(i: int) -> Channel {
    if i == 0 {
        Channel::Ch0
    } else if i == 1 {
        Channel::Ch1
    } else if i == 2 {
        Channel::Ch2
    } else if i == 3 {
        Channel::Ch3
    } else if i == 4 {
        Channel::Ch4
    } else if i == 5 {
        Channel::Ch5
    } else if i == 6 {
        Channel::Ch6
    } else {
        Channel::Ch7
    }
}

/// The concrete channel a request resolves to: `Multi` may become any
/// hop target, every other channel stands for itself.
pub open spec fn resolves_to(requested: Channel, resolved: Channel) -> bool {
    match requested {
        Channel::Multi => is_hop_target(resolved),
        _ => resolved == requested,
    }
}

/// A (band, channel) pair the frequency plans declare: any concrete
/// channel with a carrier in the band, or the hopping pseudo-channel,
/// which resolves to one.
pub open spec fn valid_pair(band: Band, ch: Channel) -> bool {
    match ch {
        Channel::Multi => true,
        _ => spec_frequency(ch, band) is Some,
    }
}

/// Relies on rand::random_range: a uniform draw from a half-open
/// integer range, here yielding a value below eight.
#[verifier::external_body]
fn draw_hop_index() -> (i: u8)
    ensures
        i < 8,
{
    rand::random_range(0u8..8u8)
}

impl Channel {
    /// The carrier-frequency register triplet of this channel in the
    /// given band, most significant byte first; `None` where the
    /// frequency plan declares no carrier.
    pub fn frequency(&self, band: &Band) -> (f: Option<(u8, u8, u8)>)
        ensures
            f == spec_frequency(*self, *band),
    {
        match band {
            Band::EU863 => match self {
                Channel::Ch0 => Some((0xD9, 0x06, 0x8B)),
                Channel::Ch1 => Some((0xD9, 0x13, 0x58)),
                Channel::Ch2 => Some((0xD9, 0x20, 0x24)),
                Channel::Ch3 => Some((0xD8, 0xC6, 0x8B)),
                Channel::Ch4 => Some((0xD8, 0xD3, 0x58)),
                Channel::Ch5 => Some((0xD8, 0xE0, 0x24)),
                Channel::Ch6 => Some((0xD8, 0xEC, 0xF1)),
                Channel::Ch7 => Some((0xD8, 0xF9, 0xBE)),
                Channel::Ch9 => Some((0xD9, 0x61, 0xBE)),
                Channel::Multi => None,
            },
            Band::US901 => match self {
                Channel::Ch0 => Some((0xE1, 0xF9, 0xC0)),
                Channel::Ch1 => Some((0xE2, 0x06, 0x8C)),
                Channel::Ch2 => Some((0xE2, 0x13, 0x59)),
                Channel::Ch3 => Some((0xE2, 0x20, 0x26)),
                Channel::Ch4 => Some((0xE2, 0x2C, 0xF3)),
                Channel::Ch5 => Some((0xE2, 0x39, 0xC0)),
                Channel::Ch6 => Some((0xE2, 0x46, 0x8C)),
                Channel::Ch7 => Some((0xE2, 0x53, 0x59)),
                Channel::Ch9 => None,
                Channel::Multi => None,
            },
            Band::AS920 => match self {
                Channel::Ch0 => Some((0xE6, 0xCC, 0xF4)),
                Channel::Ch1 => Some((0xE6, 0xD9, 0xC0)),
                Channel::Ch2 => Some((0xE6, 0x8C, 0xF3)),
                Channel::Ch3 => Some((0xE6, 0x99, 0xC0)),
                Channel::Ch4 => Some((0xE6, 0xA6, 0x8D)),
                Channel::Ch5 => Some((0xE6, 0xB3, 0x5A)),
                Channel::Ch6 => Some((0xE6, 0xC0, 0x27)),
                Channel::Ch7 => Some((0xE6, 0x80, 0x27)),
                Channel::Ch9 => None,
                Channel::Multi => None,
            },
        }
    }

    /// The hop channel a draw index selects; the eight indices map
    /// one-to-one onto channels 0 through 7.
    pub fn from_index(i: u8) -> (c: Channel)
        requires
            i < 8,
        ensures
            c == channel_of_index(i as int),
    {
        if i == 0 {
            Channel::Ch0
        } else if i == 1 {
            Channel::Ch1
        } else if i == 2 {
            Channel::Ch2
        } else if i == 3 {
            Channel::Ch3
        } else if i == 4 {
            Channel::Ch4
        } else if i == 5 {
            Channel::Ch5
        } else if i == 6 {
            Channel::Ch6
        } else {
            Channel::Ch7
        }
    }

    /// Draws a fresh hop channel, uniformly among channels 0 through 7.
    pub fn random() -> (c: Channel)
        ensures
            is_hop_target(c),
    {
        Channel::from_index(draw_hop_index())
    }

    /// Resolves this channel for one frequency programming: the hopping
    /// pseudo-channel becomes a fresh random hop target, every other
    /// channel stands for itself.
    pub fn resolve(self) -> (c: Channel)
        ensures
            resolves_to(self, c),
    {
        match self {
            Channel::Multi => Channel::random(),
            _ => self,
        }
    }
}

/// Every hop target has a carrier in every band.
pub proof fn lemma_hop_target_has_frequency(band: Band, ch: Channel)
    requires
        is_hop_target(ch),
    ensures
        spec_frequency(ch, band) is Some,
{
}

impl DataRate {
    /// The bandwidth and coding-rate byte of this data rate.
    pub open spec fn spec_modem_config_1(self) -> u8 {
        match self {
            DataRate::SF7_BW125 => 0x72,
            DataRate::SF7_BW250 => 0x82,
            DataRate::SF8_BW125 => 0x72,
            DataRate::SF9_BW125 => 0x72,
            DataRate::SF10_BW125 => 0x72,
            DataRate::SF11_BW125 => 0x78,
            DataRate::SF12_BW125 => 0x78,
        }
    }

    /// The spreading-factor byte of this data rate, without the CRC
    /// flag.
    pub open spec fn spec_modem_config_2(self) -> u8 {
        match self {
            DataRate::SF7_BW125 => 0x70,
            DataRate::SF7_BW250 => 0x70,
            DataRate::SF8_BW125 => 0x80,
            DataRate::SF9_BW125 => 0x90,
            DataRate::SF10_BW125 => 0xA0,
            DataRate::SF11_BW125 => 0xB0,
            DataRate::SF12_BW125 => 0xC0,
        }
    }

    /// The gain-control and mobile-node byte of this data rate.
    pub open spec fn spec_modem_config_3(self) -> u8 {
        match self {
            DataRate::SF7_BW125 => 0x04,
            DataRate::SF7_BW250 => 0x04,
            DataRate::SF8_BW125 => 0x04,
            DataRate::SF9_BW125 => 0x04,
            DataRate::SF10_BW125 => 0x04,
            DataRate::SF11_BW125 => 0x0C,
            DataRate::SF12_BW125 => 0x0C,
        }
    }

    /// Bandwidth 125 kHz for every rate but SF7/250 kHz, coding rate
    /// 4/5 up to SF10 and 4/8 above, explicit headers throughout.
    pub fn modem_config_1(&self) -> (b: u8)
        ensures
            b == self.spec_modem_config_1(),
    {
        match self {
            DataRate::SF7_BW125 => 0x72,
            DataRate::SF7_BW250 => 0x82,
            DataRate::SF8_BW125 => 0x72,
            DataRate::SF9_BW125 => 0x72,
            DataRate::SF10_BW125 => 0x72,
            DataRate::SF11_BW125 => 0x78,
            DataRate::SF12_BW125 => 0x78,
        }
    }

    /// The spreading factor in the high nibble; the CRC flag is OR-ed
    /// in separately where requested.
    pub fn modem_config_2(&self) -> (b: u8)
        ensures
            b == self.spec_modem_config_2(),
    {
        match self {
            DataRate::SF7_BW125 => 0x70,
            DataRate::SF7_BW250 => 0x70,
            DataRate::SF8_BW125 => 0x80,
            DataRate::SF9_BW125 => 0x90,
            DataRate::SF10_BW125 => 0xA0,
            DataRate::SF11_BW125 => 0xB0,
            DataRate::SF12_BW125 => 0xC0,
        }
    }

    /// Automatic gain control for every rate; the two slowest rates
    /// also set the mobile-node (low-data-rate-optimise) flag.
    pub fn modem_config_3(&self) -> (b: u8)
        ensures
            b == self.spec_modem_config_3(),
    {
        match self {
            DataRate::SF7_BW125 => 0x04,
            DataRate::SF7_BW250 => 0x04,
            DataRate::SF8_BW125 => 0x04,
            DataRate::SF9_BW125 => 0x04,
            DataRate::SF10_BW125 => 0x04,
            DataRate::SF11_BW125 => 0x0C,
            DataRate::SF12_BW125 => 0x0C,
        }
    }
}

} // verus!
