use rfm9x::driver::RFM95;
use rfm9x::driver::RFMError;
use rfm9x::sim::SimChip;
use rfm9x::tables::Band;
use rfm9x::tables::Channel;
use rfm9x::tables::DataRate;

fn driver_over(sim: SimChip) -> RFM95<SimChip> {
    RFM95::new(sim, DataRate::SF7_BW125, Band::EU863, Channel::Ch0)
}

#[test]
fn send_rejects_an_empty_payload_before_any_bus_activity() {
    let mut radio = driver_over(SimChip::new());
    match radio.send_packet(&[]) {
        Err(RFMError::InvalidPayloadLength) => {},
        other => panic!("expected a validation error, got {:?}", other),
    }
    assert_eq!(radio.link().op_log().len(), 0);
}

#[test]
fn send_rejects_an_oversized_payload_before_any_bus_activity() {
    let mut radio = driver_over(SimChip::new());
    let too_long = [0u8; 255];
    match radio.send_packet(&too_long) {
        Err(RFMError::InvalidPayloadLength) => {},
        other => panic!("expected a validation error, got {:?}", other),
    }
    assert_eq!(radio.link().op_log().len(), 0);
    // One byte shorter is accepted (and times out on the silent chip).
    let longest = [0u8; 254];
    match radio.send_packet(&longest) {
        Err(RFMError::TransmissionTimedOut) => {},
        other => panic!("expected a timeout, got {:?}", other),
    }
}

#[test]
fn send_leaves_the_chip_in_standby_lora_on_tx_done() {
    let mut sim = SimChip::new();
    sim.push_irq_event(true);
    let mut radio = driver_over(sim);
    radio.send_packet(b"PING").unwrap();
    assert_eq!(radio.link().get_register(0x01), 0x81);
}

#[test]
fn send_leaves_the_chip_in_standby_lora_on_timeout() {
    let mut radio = driver_over(SimChip::new());
    match radio.send_packet(b"PING") {
        Err(RFMError::TransmissionTimedOut) => {},
        other => panic!("expected a timeout, got {:?}", other),
    }
    assert_eq!(radio.link().get_register(0x01), 0x81);
}

#[test]
fn send_stages_the_payload_in_the_fifo() {
    let mut sim = SimChip::new();
    sim.push_irq_event(true);
    let mut radio = driver_over(sim);
    radio.send_packet(b"PING").unwrap();
    // The payload landed in the transmit region of the FIFO.
    let expected = b"PING";
    for (i, byte) in expected.iter().enumerate() {
        assert_eq!(radio.link().get_fifo(0x80 + i as u8), *byte);
    }
    assert_eq!(radio.link().get_register(0x22), 4);
}

#[test]
fn receive_returns_exactly_the_staged_bytes() {
    let mut sim = SimChip::new();
    let staged = [0xDE, 0xAD, 0xBE, 0xEF, 0x42];
    let base = 0x30u8;
    for (i, byte) in staged.iter().enumerate() {
        sim.set_fifo(base + i as u8, *byte);
    }
    sim.set_register(0x13, staged.len() as u8);
    sim.set_register(0x10, base);
    sim.push_irq_event(true);
    let mut radio = driver_over(sim);
    let data = radio.receive_packet(Channel::Ch1, DataRate::SF9_BW125, true, 100).unwrap();
    assert_eq!(data.as_slice(), &staged);
    // The FIFO pointer was put back to zero and the chip rests in
    // LoRa standby.
    assert_eq!(radio.link().get_register(0x0D), 0x00);
    assert_eq!(radio.link().get_register(0x01), 0x81);
}

#[test]
fn receive_timeout_is_a_fault_not_a_truncated_result() {
    let mut radio = driver_over(SimChip::new());
    match radio.receive_packet(Channel::Ch0, DataRate::SF7_BW125, false, 50) {
        Err(RFMError::ReceiveTimedOut) => {},
        other => panic!("expected a receive timeout, got {:?}", other),
    }
    assert_eq!(radio.link().get_register(0x01), 0x81);
}

#[test]
fn receive_on_tx_reuses_the_configured_radio_parameters() {
    let mut sim = SimChip::new();
    sim.set_register(0x13, 1);
    sim.set_register(0x10, 0x00);
    sim.set_fifo(0x00, 0x99);
    sim.push_irq_event(true);
    let mut radio = RFM95::new(sim, DataRate::SF12_BW125, Band::US901, Channel::Ch5);
    let data = radio.receive_packet_on_tx(false, 100).unwrap();
    assert_eq!(data.as_slice(), &[0x99]);
    // The driver's own channel and rate were programmed.
    assert_eq!(radio.link().get_register(0x06), 0xE2);
    assert_eq!(radio.link().get_register(0x07), 0x39);
    assert_eq!(radio.link().get_register(0x08), 0xC0);
    assert_eq!(radio.link().get_register(0x1E), 0xC0);
    assert_eq!(radio.link().get_register(0x1D), 0x78);
    assert_eq!(radio.link().get_register(0x26), 0x0C);
}

#[test]
fn reset_rejects_a_wrong_version() {
    let mut radio = driver_over(SimChip::new());
    match radio.reset() {
        Err(RFMError::InvalidVersion) => {},
        other => panic!("expected an invalid-version fault, got {:?}", other),
    }
}

#[test]
fn reset_programs_the_baseline_registers() {
    let mut sim = SimChip::new();
    sim.set_register(0x42, 0x12);
    let mut radio = driver_over(sim);
    radio.reset().unwrap();
    let link = radio.link();
    assert_eq!(link.get_register(0x01), 0x80);
    assert_eq!(link.get_register(0x09), 0xFF);
    assert_eq!(link.get_register(0x1F), 0x25);
    assert_eq!(link.get_register(0x20), 0x00);
    assert_eq!(link.get_register(0x21), 0x08);
    assert_eq!(link.get_register(0x39), 0x34);
    assert_eq!(link.get_register(0x0E), 0x80);
    assert_eq!(link.get_register(0x0F), 0x00);
}

#[test]
fn receive_follows_the_fifo_wrap_around() {
    let mut sim = SimChip::new();
    let staged = [0x10, 0x20, 0x30, 0x40];
    let base = 0xFEu8;
    for (i, byte) in staged.iter().enumerate() {
        sim.set_fifo(base.wrapping_add(i as u8), *byte);
    }
    sim.set_register(0x13, staged.len() as u8);
    sim.set_register(0x10, base);
    sim.push_irq_event(true);
    let mut radio = driver_over(sim);
    let data = radio.receive_packet(Channel::Ch2, DataRate::SF8_BW125, true, 100).unwrap();
    assert_eq!(data.as_slice(), &staged);
}

#[test]
fn send_on_the_hopping_channel_programs_a_numbered_carrier() {
    let mut sim = SimChip::new();
    sim.push_irq_event(true);
    let mut radio = RFM95::new(sim, DataRate::SF7_BW125, Band::EU863, Channel::Multi);
    radio.send_packet(b"HOP").unwrap();
    let carrier = (
        radio.link().get_register(0x06),
        radio.link().get_register(0x07),
        radio.link().get_register(0x08),
    );
    let numbered = [
        Channel::Ch0,
        Channel::Ch1,
        Channel::Ch2,
        Channel::Ch3,
        Channel::Ch4,
        Channel::Ch5,
        Channel::Ch6,
        Channel::Ch7,
    ];
    assert!(numbered.iter().any(|ch| ch.frequency(&Band::EU863) == Some(carrier)));
}
