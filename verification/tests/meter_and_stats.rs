use ruwm::state::{StateSnapshot, Storage};
use ruwm::ulp_meter::{Data, WaterMeterStats};
use ruwm::water_meter::{flash_step, on_command, on_wakeup_result, on_pulses, process_command, WaterMeterCommand, WaterMeterState, FLASH_WRITE_CYCLE};
use ruwm::water_meter_stats::{duration, FlowMeasurement, FlowSnapshot, WaterMeterStatsState};

#[test]
fn meter_counts_and_flags_leaks_when_armed() {
    let s = WaterMeterState::new();
    assert_eq!((s.edges_count, s.armed, s.leaking), (0, false, false));
    let s = on_pulses(s, 5);
    assert_eq!((s.edges_count, s.armed, s.leaking), (5, false, false));
    let s = on_command(s, WaterMeterCommand::Arm);
    assert!(s.armed);
    let s = on_pulses(s, 0);
    assert!(!s.leaking);
    let s = on_pulses(s, 2);
    assert_eq!((s.edges_count, s.armed, s.leaking), (7, true, true));
    let s = on_command(s, WaterMeterCommand::Disarm);
    assert_eq!((s.edges_count, s.armed, s.leaking), (7, false, true));
    let s = on_pulses(s, 1);
    assert!(!s.leaking);
}

#[test]
fn meter_command_through_wakeup() {
    let mut wakeup = ();
    let s = process_command(&mut wakeup, WaterMeterState::new(), WaterMeterCommand::Arm).unwrap();
    assert!(s.armed);
    let s = process_command(&mut wakeup, s, WaterMeterCommand::Disarm).unwrap();
    assert!(!s.armed);
}

#[test]
fn wakeup_result_decides_the_update() {
    let s = WaterMeterState::new();
    let ok: Result<(), u8> = Ok(());
    let updated = on_wakeup_result(s, WaterMeterCommand::Arm, ok).unwrap();
    assert!(updated.armed);
    let failed: Result<(), u8> = Err(7);
    assert_eq!(on_wakeup_result(s, WaterMeterCommand::Arm, failed).unwrap_err(), 7);
}

#[test]
fn flash_written_every_cycle() {
    let mut cycle = 0;
    let mut writes = 0;
    for _ in 0..(FLASH_WRITE_CYCLE * 3) {
        let (next, write) = flash_step(cycle);
        cycle = next;
        if write {
            writes += 1;
        }
    }
    assert_eq!(writes, 3);
    assert_eq!(cycle, 0);
    assert_eq!(flash_step(FLASH_WRITE_CYCLE - 1), (0, true));
    assert_eq!(flash_step(0), (1, false));
}

#[test]
fn snapshot_queries() {
    let s = FlowSnapshot::new(600, 10);
    assert_eq!(s.time_secs(), 600);
    assert_eq!(s.edges_count(), 10);
    assert_eq!(s.statistics(15), 5);
    assert!(s.flow_detected(12));
    assert!(!s.flow_detected(11));
    assert!(!s.is_measurement_due(300, 899));
    assert!(s.is_measurement_due(300, 900));
    let late = FlowSnapshot::new(700, 0);
    assert!(late.is_measurement_due(300, 900));
    assert!(FlowSnapshot::is_nonaligned_measurement_due(700, 1000, 300));
    assert!(!FlowSnapshot::is_nonaligned_measurement_due(700, 999, 300));
    assert_eq!(duration(0), 300);
    assert_eq!(duration(7), 2592000);
    let m = FlowMeasurement::new(s, late);
    assert!(*m.start() == s);
    assert!(*m.end() == late);
}

#[test]
fn stats_update_closes_due_periods() {
    let mut stats = WaterMeterStatsState::new();
    assert!(stats.update(0, 0) == false);
    assert!(stats.update(4, 100));
    assert!(stats.measurements[0].is_none());
    assert!(stats.update(9, 300));
    let m = stats.measurements[0].unwrap();
    assert!(*m.start() == FlowSnapshot::new(0, 0));
    assert!(*m.end() == FlowSnapshot::new(300, 9));
    assert!(stats.snapshots[0] == FlowSnapshot::new(300, 9));
    assert!(stats.measurements[1].is_none());
    assert!(stats.snapshots[1] == FlowSnapshot::new(0, 0));
    assert!(stats.update(9, 300) == false);
}

#[test]
fn ulp_stats() {
    let d = Data::default();
    assert_eq!((d.debounce_edges, d.wakeup_edges, d.edges_count), (5, 0, 0));
    let zero = FlowSnapshot::new(0, 0);
    let mut stats = WaterMeterStats {
        installation: zero,
        watch_start: None,
        most_recent: zero,
        snapshots: [zero; 10],
        measurements: [None; 10],
    };
    assert_eq!(stats.swap_request().wakeup_edges, 0);
    stats.watch_start = Some(zero);
    assert_eq!(stats.swap_request().wakeup_edges, 2);
    assert!(!stats.update(3, 10));
    assert_eq!(stats.most_recent.edges_count, 3);
    assert_eq!(stats.most_recent.time_secs, 10);
}

#[test]
fn snapshots_pass_on_changes_only() {
    let mut s = StateSnapshot::new(1u32);
    assert!(!s.update(1));
    assert!(s.update(2));
    assert_eq!(s.get(), 2);
    s.set(7);
    assert_eq!(s.get(), 7);
    assert!(s.update_with(|x| *x + 1));
    assert_eq!(s.get(), 8);
    assert!(!s.update_with(|x| *x));
}
