use rfm9x::driver::RFM95;
use rfm9x::driver::RFMError;
use rfm9x::link::BusOp;
use rfm9x::sim::SimChip;
use rfm9x::tables::Band;
use rfm9x::tables::Channel;
use rfm9x::tables::DataRate;

fn driver_over(sim: SimChip) -> RFM95<SimChip> {
    RFM95::new(sim, DataRate::SF7_BW125, Band::EU863, Channel::Ch0)
}

#[test]
fn write_then_read_returns_the_written_value() {
    let mut radio = driver_over(SimChip::new());
    for (reg, value) in [(0x22u8, 0xABu8), (0x09, 0x00), (0x1D, 0xFF), (0x26, 0x5A), (0x42, 0x12)]
    {
        radio.write_register(reg, value).unwrap();
        assert_eq!(radio.read_register(reg).unwrap(), value);
    }
}

#[test]
fn transport_commands_carry_the_read_write_bit() {
    let mut radio = driver_over(SimChip::new());
    radio.write_register(0x22, 0x07).unwrap();
    radio.read_register(0x22).unwrap();
    let log = radio.link().op_log();
    assert_eq!(log.len(), 2);
    assert_eq!(log[0], BusOp::Write { cmd: 0xA2, data: 0x07 });
    assert_eq!(log[1], BusOp::Read { cmd: 0x22, response: 0x07 });
}

#[test]
fn fifo_reads_and_writes_move_the_pointer() {
    let mut radio = driver_over(SimChip::new());
    radio.write_register(0x0D, 0x10).unwrap();
    radio.write_register(0x00, 0x11).unwrap();
    radio.write_register(0x00, 0x22).unwrap();
    // The pointer moved on with each FIFO write.
    assert_eq!(radio.read_register(0x0D).unwrap(), 0x12);
    radio.write_register(0x0D, 0x10).unwrap();
    assert_eq!(radio.read_register(0x00).unwrap(), 0x11);
    assert_eq!(radio.read_register(0x00).unwrap(), 0x22);
}

#[test]
fn transport_faults_propagate() {
    let mut sim = SimChip::new();
    sim.set_fail_next(true);
    let mut radio = driver_over(sim);
    match radio.read_register(0x22) {
        Err(RFMError::Transport(_)) => {},
        other => panic!("expected a transport fault, got {:?}", other),
    }
    // The faulted transfer had no effect; the next one goes through.
    assert_eq!(radio.link().op_log().len(), 0);
    assert_eq!(radio.read_register(0x22).unwrap(), 0x00);
}

#[test]
fn get_version_reads_the_version_register() {
    let mut sim = SimChip::new();
    sim.set_register(0x42, 0x12);
    let mut radio = driver_over(sim);
    assert_eq!(radio.get_version().unwrap(), 0x12);
}
