use ruwm::battery::{round_voltage, sample, BatteryState, LOW_VOLTAGE, MAX_VOLTAGE};
use ruwm::emergency::{Emergency, EmergencyEvent};
use ruwm::valve::{
    emergency_close_delay_ms, next_state, pin_writes, Spin, ValveCommand, ValveEvent, ValvePin,
    ValveState, TURN_TICKS,
};
use ruwm::water_meter::WaterMeterState;

fn battery(voltage: Option<u16>, powered: Option<bool>) -> BatteryState {
    BatteryState { voltage, powered }
}

#[test]
fn battery_new_knows_nothing() {
    let b = BatteryState::new();
    assert!(b.voltage.is_none());
    assert!(b.powered.is_none());
}

#[test]
fn battery_percentage_formula() {
    assert_eq!(battery(Some(2900), None).percentage(), Some(50));
    assert_eq!(battery(Some(2750), None).percentage(), Some(12));
    assert_eq!(battery(Some(LOW_VOLTAGE), None).percentage(), Some(0));
    assert_eq!(battery(Some(MAX_VOLTAGE), None).percentage(), Some(100));
    assert_eq!(battery(Some(1000), None).percentage(), Some(0));
    assert_eq!(battery(Some(4000), None).percentage(), Some(100));
    assert_eq!(battery(None, Some(true)).percentage(), None);
}

#[test]
fn battery_low_and_unpowered() {
    assert!(battery(Some(2700), Some(false)).is_low_and_unpowered());
    assert!(battery(Some(2000), None).is_low_and_unpowered());
    assert!(!battery(Some(2700), Some(true)).is_low_and_unpowered());
    assert!(!battery(Some(2701), Some(false)).is_low_and_unpowered());
    assert!(!battery(None, Some(false)).is_low_and_unpowered());
}

#[test]
fn battery_sample_rounds_down() {
    assert_eq!(round_voltage(2749), 2700);
    assert_eq!(round_voltage(2750), 2750);
    assert_eq!(round_voltage(49), 0);
    let s = sample(Some(2760), Some(true));
    assert_eq!(s.voltage, Some(2750));
    assert_eq!(s.powered, Some(true));
    let s = sample(None, None);
    assert_eq!(s.voltage, None);
    assert_eq!(s.powered, Some(false));
}

#[test]
fn valve_open_percentage_and_simplify() {
    assert_eq!(ValveState::Open.open_percentage(), 100);
    assert_eq!(ValveState::Closed.open_percentage(), 0);
    assert_eq!(ValveState::Opening(30).open_percentage(), 30);
    assert_eq!(ValveState::Closing(30).open_percentage(), 70);
    assert!(ValveState::Opening(40).simplify() == ValveState::Opening(0));
    assert!(ValveState::Closing(40).simplify() == ValveState::Closing(0));
    assert!(ValveState::Open.simplify() == ValveState::Open);
}

#[test]
fn valve_command_starts_motor_once() {
    let (s, c) = next_state(None, ValveEvent::Command(ValveCommand::Open));
    assert!(s == Some(ValveState::Opening(0)));
    assert!(c == Some(ValveCommand::Open));
    let (s2, c2) = next_state(s, ValveEvent::Command(ValveCommand::Open));
    assert!(s2 == s);
    assert!(c2.is_none());
    let (s3, c3) = next_state(Some(ValveState::Open), ValveEvent::Command(ValveCommand::Close));
    assert!(s3 == Some(ValveState::Closing(0)));
    assert!(c3 == Some(ValveCommand::Close));
}

#[test]
fn valve_progress_and_end_of_turn() {
    let (s, c) = next_state(Some(ValveState::Opening(0)), ValveEvent::Progress(Some(50)));
    assert!(s == Some(ValveState::Opening(50)));
    assert!(c.is_none());
    let (s, _) = next_state(s, ValveEvent::Progress(None));
    assert!(s == Some(ValveState::Open));
    let (s, _) = next_state(Some(ValveState::Closing(10)), ValveEvent::Progress(None));
    assert!(s == Some(ValveState::Closed));
    let (s, _) = next_state(Some(ValveState::Open), ValveEvent::Progress(Some(10)));
    assert!(s.is_none());
}

#[test]
fn valve_spin_full_turn() {
    let mut spin = Spin::new();
    assert!(spin.command.is_none());
    spin.command(ValveCommand::Close);
    assert_eq!(spin.remaining_ticks, TURN_TICKS);
    assert_eq!(spin.tick(), Some(5));
    let mut last = None;
    for _ in 1..TURN_TICKS {
        last = spin.tick();
    }
    assert_eq!(last, None);
    assert!(spin.command == Some(ValveCommand::Close));
    assert_eq!(spin.tick(), None);
    assert!(spin.command.is_none());
}

#[test]
fn valve_pin_order() {
    let w = pin_writes(Some(ValveCommand::Open));
    assert!(w == vec![(ValvePin::Close, false), (ValvePin::Open, true), (ValvePin::Power, true)]);
    let w = pin_writes(None);
    assert!(w == vec![(ValvePin::Power, false), (ValvePin::Open, false), (ValvePin::Close, false)]);
    assert_eq!(emergency_close_delay_ms(), 20000);
}

#[test]
fn emergency_closes_on_leak_unless_closed() {
    let mut e = Emergency::new();
    let leak = WaterMeterState { edges_count: 3, armed: true, leaking: true };
    assert!(e.step(EmergencyEvent::WaterMeterState(leak)));
    assert!(!e.step(EmergencyEvent::ValveState(Some(ValveState::Closing(0)))));
    assert!(!e.step(EmergencyEvent::WaterMeterState(leak)));
    assert!(!e.step(EmergencyEvent::BatteryState(battery(Some(2000), Some(false)))));
    e.step(EmergencyEvent::ValveState(Some(ValveState::Open)));
    assert!(e.step(EmergencyEvent::BatteryState(battery(Some(2000), Some(false)))));
    assert!(!e.step(EmergencyEvent::BatteryState(battery(Some(2000), Some(true)))));
}
