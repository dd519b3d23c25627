use rfm9x::driver::RFM95;
use rfm9x::link::BusOp;
use rfm9x::sim::SimChip;
use rfm9x::tables::Band;
use rfm9x::tables::Channel;
use rfm9x::tables::DataRate;

/// Constructs against a simulated chip reporting version 0x12, resets,
/// and sends one packet, checking the exact order of every register
/// write the transmission produces.
#[test]
fn reset_then_send_produces_the_exact_write_sequence() {
    let mut sim = SimChip::new();
    sim.set_register(0x42, 0x12);
    sim.push_irq_event(true);
    let mut radio = RFM95::new(sim, DataRate::SF7_BW125, Band::EU863, Channel::Ch3);

    radio.reset().unwrap();
    let ops_after_reset = radio.link().op_log().len();

    radio.send_packet(b"PING").unwrap();

    let writes: Vec<(u8, u8)> = radio.link().op_log()[ops_after_reset..]
        .iter()
        .filter_map(|op| match op {
            BusOp::Write { cmd, data } => Some((*cmd, *data)),
            BusOp::Read { .. } => None,
        })
        .collect();

    let expected: Vec<(u8, u8)> = vec![
        (0x81, 0x81), // Standby | LoRa
        (0xC0, 0x40), // interrupt output mapped to transmit-done
        (0x86, 0xD8), // carrier for EU863 channel 3, MSB
        (0x87, 0xC6), // carrier, middle byte
        (0x88, 0x8B), // carrier, LSB
        (0x9E, 0x74), // spreading factor 7 with CRC forced on
        (0x9D, 0x72), // bandwidth 125 kHz, coding rate 4/5
        (0xA6, 0x04), // automatic gain control
        (0xA2, 0x04), // payload length 4
        (0x8D, 0x80), // FIFO pointer at the transmit region
        (0x80, b'P'),
        (0x80, b'I'),
        (0x80, b'N'),
        (0x80, b'G'),
        (0x81, 0x83), // Transmit | LoRa
        (0x92, 0xFF), // interrupt flags cleared before the wait
        (0x81, 0x81), // back to Standby | LoRa after the interrupt
    ];
    assert_eq!(writes, expected);
}

/// The reset sequence itself: version check against the power-on chip,
/// sleep, LoRa sleep, then the fixed baseline registers.
#[test]
fn reset_write_sequence_programs_the_baseline() {
    let mut sim = SimChip::new();
    sim.set_register(0x42, 0x12);
    let mut radio = RFM95::new(sim, DataRate::SF7_BW125, Band::EU863, Channel::Ch3);
    radio.reset().unwrap();

    let writes: Vec<(u8, u8)> = radio
        .link()
        .op_log()
        .iter()
        .filter_map(|op| match op {
            BusOp::Write { cmd, data } => Some((*cmd, *data)),
            BusOp::Read { .. } => None,
        })
        .collect();
    let expected: Vec<(u8, u8)> = vec![
        (0x81, 0x00), // Sleep (the chip wakes in FSK standby)
        (0x81, 0x80), // Sleep | LoRa
        (0x89, 0xFF), // maximum transmit power
        (0x9F, 0x25), // 37-symbol receive timeout
        (0xA0, 0x00), // preamble length, high byte
        (0xA1, 0x08), // preamble length: 8 symbols
        (0xB9, 0x34), // the LoRa sync word
        (0x8E, 0x80), // FIFO transmit region base
        (0x8F, 0x00), // FIFO receive region base
    ];
    assert_eq!(writes, expected);
}
