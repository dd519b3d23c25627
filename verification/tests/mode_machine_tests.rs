use rfm9x::driver::RFM95;
use rfm9x::driver::RFMError;
use rfm9x::link::BusOp;
use rfm9x::mode::Mode;
use rfm9x::sim::SimChip;
use rfm9x::tables::Band;
use rfm9x::tables::Channel;
use rfm9x::tables::DataRate;

fn driver_over(sim: SimChip) -> RFM95<SimChip> {
    RFM95::new(sim, DataRate::SF7_BW125, Band::EU863, Channel::Ch0)
}

fn count_writes(log: &[BusOp]) -> usize {
    log.iter().filter(|op| matches!(op, BusOp::Write { .. })).count()
}

#[test]
fn set_mode_twice_issues_at_most_one_write() {
    let mut radio = driver_over(SimChip::new());
    radio.set_mode(Mode::standby_lora()).unwrap();
    let writes_after_first = count_writes(radio.link().op_log());
    assert_eq!(writes_after_first, 1);
    radio.set_mode(Mode::standby_lora()).unwrap();
    let writes_after_second = count_writes(radio.link().op_log());
    // The second request saw the mode already set and wrote nothing.
    assert_eq!(writes_after_second, writes_after_first);
}

#[test]
fn set_mode_reports_a_divergent_chip() {
    let mut sim = SimChip::new();
    sim.set_register(0x01, 0x05);
    sim.set_mode_glitch(Some(0x5A));
    let mut radio = driver_over(sim);
    match radio.set_mode(Mode::standby_lora()) {
        Err(RFMError::ModeChangeFailed(info)) => {
            assert_eq!(info.old_mode, 0x05);
            assert_eq!(info.new_mode, Mode::standby_lora());
            assert_eq!(info.set_mode, 0x5A);
        },
        other => panic!("expected a mode-change failure, got {:?}", other),
    }
}

#[test]
fn set_mode_is_a_no_op_when_the_mode_already_holds() {
    let mut sim = SimChip::new();
    sim.set_register(0x01, 0x81);
    // Even a staged glitch cannot bite: nothing is written.
    sim.set_mode_glitch(Some(0x77));
    let mut radio = driver_over(sim);
    radio.set_mode(Mode::standby_lora()).unwrap();
    assert_eq!(count_writes(radio.link().op_log()), 0);
}

#[test]
fn a_stuck_interrupt_line_is_surfaced() {
    let mut sim = SimChip::new();
    sim.set_pin_stuck(true);
    sim.set_irq_high(true);
    sim.push_irq_event(true);
    let mut radio = driver_over(sim);
    match radio.send_packet(b"PING") {
        Err(RFMError::StaleInterrupt) => {},
        other => panic!("expected a stale-interrupt fault, got {:?}", other),
    }
}
