use rfm9x::mode::Mode;
use rfm9x::mode::OperatingMode;
use rfm9x::tables::Band;
use rfm9x::tables::Channel;
use rfm9x::tables::DataRate;

const EU_CHANNELS: [(u8, u8, u8); 9] = [
    (0xD9, 0x06, 0x8B),
    (0xD9, 0x13, 0x58),
    (0xD9, 0x20, 0x24),
    (0xD8, 0xC6, 0x8B),
    (0xD8, 0xD3, 0x58),
    (0xD8, 0xE0, 0x24),
    (0xD8, 0xEC, 0xF1),
    (0xD8, 0xF9, 0xBE),
    (0xD9, 0x61, 0xBE),
];

const US_CHANNELS: [(u8, u8, u8); 8] = [
    (0xE1, 0xF9, 0xC0),
    (0xE2, 0x06, 0x8C),
    (0xE2, 0x13, 0x59),
    (0xE2, 0x20, 0x26),
    (0xE2, 0x2C, 0xF3),
    (0xE2, 0x39, 0xC0),
    (0xE2, 0x46, 0x8C),
    (0xE2, 0x53, 0x59),
];

const AS_CHANNELS: [(u8, u8, u8); 8] = [
    (0xE6, 0xCC, 0xF4),
    (0xE6, 0xD9, 0xC0),
    (0xE6, 0x8C, 0xF3),
    (0xE6, 0x99, 0xC0),
    (0xE6, 0xA6, 0x8D),
    (0xE6, 0xB3, 0x5A),
    (0xE6, 0xC0, 0x27),
    (0xE6, 0x80, 0x27),
];

fn numbered_channels() -> [Channel; 8] {
    [
        Channel::Ch0,
        Channel::Ch1,
        Channel::Ch2,
        Channel::Ch3,
        Channel::Ch4,
        Channel::Ch5,
        Channel::Ch6,
        Channel::Ch7,
    ]
}

#[test]
fn frequency_is_total_and_exact_for_declared_pairs() {
    for (i, ch) in numbered_channels().iter().enumerate() {
        assert_eq!(ch.frequency(&Band::EU863), Some(EU_CHANNELS[i]));
        assert_eq!(ch.frequency(&Band::US901), Some(US_CHANNELS[i]));
        assert_eq!(ch.frequency(&Band::AS920), Some(AS_CHANNELS[i]));
    }
    assert_eq!(Channel::Ch9.frequency(&Band::EU863), Some(EU_CHANNELS[8]));
}

#[test]
fn frequency_fails_for_undeclared_pairs() {
    assert_eq!(Channel::Ch9.frequency(&Band::US901), None);
    assert_eq!(Channel::Ch9.frequency(&Band::AS920), None);
    assert_eq!(Channel::Multi.frequency(&Band::EU863), None);
    assert_eq!(Channel::Multi.frequency(&Band::US901), None);
    assert_eq!(Channel::Multi.frequency(&Band::AS920), None);
}

#[test]
fn frequency_is_deterministic() {
    for ch in numbered_channels().iter() {
        assert_eq!(ch.frequency(&Band::EU863), ch.frequency(&Band::EU863));
        assert_eq!(ch.frequency(&Band::US901), ch.frequency(&Band::US901));
    }
}

#[test]
fn hop_indices_cover_each_numbered_channel_once() {
    let mut seen = [false; 8];
    for i in 0..8u8 {
        let ch = Channel::from_index(i);
        let pos = numbered_channels()
            .iter()
            .position(|c| *c == ch)
            .expect("a hop index resolved outside channels 0..=7");
        assert!(!seen[pos], "two hop indices resolved to the same channel");
        seen[pos] = true;
    }
    assert!(seen.iter().all(|s| *s));
}

#[test]
fn random_hops_stay_on_numbered_channels_and_spread() {
    let mut seen = [false; 8];
    for _ in 0..2000 {
        let ch = Channel::random();
        let pos = numbered_channels()
            .iter()
            .position(|c| *c == ch)
            .expect("a random hop resolved outside channels 0..=7");
        seen[pos] = true;
    }
    // Over many draws a uniform choice visits every channel.
    assert!(seen.iter().all(|s| *s));
}

#[test]
fn modem_config_bytes_match_the_datasheet_tables() {
    let rates = [
        DataRate::SF7_BW125,
        DataRate::SF7_BW250,
        DataRate::SF8_BW125,
        DataRate::SF9_BW125,
        DataRate::SF10_BW125,
        DataRate::SF11_BW125,
        DataRate::SF12_BW125,
    ];
    let expected_1 = [0x72, 0x82, 0x72, 0x72, 0x72, 0x78, 0x78];
    let expected_2 = [0x70, 0x70, 0x80, 0x90, 0xA0, 0xB0, 0xC0];
    let expected_3 = [0x04, 0x04, 0x04, 0x04, 0x04, 0x0C, 0x0C];
    for (i, rate) in rates.iter().enumerate() {
        assert_eq!(rate.modem_config_1(), expected_1[i]);
        assert_eq!(rate.modem_config_2(), expected_2[i]);
        assert_eq!(rate.modem_config_3(), expected_3[i]);
    }
}

#[test]
fn mode_bytes_round_trip() {
    assert_eq!(Mode::standby_lora().encode(), 0x81);
    assert_eq!(Mode::transmit_lora().encode(), 0x83);
    assert_eq!(Mode::receive_continuous_lora().encode(), 0x85);
    assert_eq!(Mode::sleep_lora().encode(), 0x80);
    assert_eq!(Mode::sleep().encode(), 0x00);
    let m = Mode {
        operating: OperatingMode::ReceiveSingle,
        lora: true,
        shared_access: false,
        low_frequency: true,
    };
    assert_eq!(Mode::decode(m.encode()), m);
    // The reserved bits 4 and 5 are dropped deterministically.
    assert_eq!(Mode::decode(0xFF).encode(), 0xCF);
}
