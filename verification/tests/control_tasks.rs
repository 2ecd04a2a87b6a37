use ruwm::battery::BatteryState;
use ruwm::button::{has_level, wait_step, waits_for_low, PressWait, PressedLevel, WaitEvent, WaitStage};
use ruwm::keepalive::{Keepalive, KeepaliveAction, RemainingTime, REMAINING_TIME_TRIGGER_MS, TIMEOUT_MS};
use ruwm::mqtt::MqttCommand;
use ruwm::mqtt_publish::{
    battery_publications, flag_bytes, notifies, receive_action, topic_fits, topic_name, topic_suffix,
    u16_le_bytes, u64_le_bytes, valve_publication, wm_publications, ConnectionEvent, MqttSender,
    QoS, SendEvent, Topic,
};
use ruwm::screen::{Changeset, DataSource, Page, ScreenEvent, ScreenState};
use ruwm::valve::{ValveCommand, ValveState};
use ruwm::water_meter::{WaterMeterCommand, WaterMeterState};
use ruwm::web::{allows, auth_events, authenticate, may_send, request_action, AuthEvent, Role, WebEvent, WebRequest};

#[test]
fn keepalive_reports_then_sleeps() {
    let mut k = Keepalive::new(1000);
    assert_eq!(k.quit_time, Some(1000 + TIMEOUT_MS));
    match k.step(false, 1500) {
        KeepaliveAction::Remaining(RemainingTime::Duration(d)) => assert_eq!(d, 19500),
        _ => panic!("the first wake-up reports the remaining time"),
    }
    assert!(k.step(false, 1500 + REMAINING_TIME_TRIGGER_MS - 1) == KeepaliveAction::Nothing);
    assert!(
        k.step(false, 1500 + REMAINING_TIME_TRIGGER_MS)
            == KeepaliveAction::Remaining(RemainingTime::Duration(18500))
    );
    assert!(k.step(false, 1000 + TIMEOUT_MS) == KeepaliveAction::Quit);
}

#[test]
fn keepalive_activity_postpones_sleep() {
    let mut k = Keepalive::new(0);
    k.step(false, 10);
    k.step(true, 15000);
    assert_eq!(k.quit_time, Some(15000 + TIMEOUT_MS));
    assert!(k.step(false, TIMEOUT_MS) != KeepaliveAction::Quit);
}

#[test]
fn button_levels() {
    assert!(waits_for_low(PressedLevel::Low, true));
    assert!(!waits_for_low(PressedLevel::Low, false));
    assert!(!waits_for_low(PressedLevel::High, true));
    assert!(has_level(PressedLevel::Low, true, false));
    assert!(has_level(PressedLevel::High, true, true));
    assert!(wait_step(WaitStage::AwaitLevel, true, WaitEvent::LevelSignalled(true)) == WaitStage::Debounce);
    assert!(wait_step(WaitStage::AwaitLevel, false, WaitEvent::LevelSignalled(true)) == WaitStage::AwaitLevel);
    assert!(wait_step(WaitStage::Debounce, true, WaitEvent::EdgeSeen) == WaitStage::AwaitLevel);
    assert!(wait_step(WaitStage::Debounce, true, WaitEvent::DebounceElapsed(true)) == WaitStage::Done);
}

#[test]
fn button_press_needs_release_then_press() {
    let mut w = PressWait::new(PressedLevel::Low, true);
    assert!(!w.waits_for_low());
    assert!(!w.step(WaitEvent::LevelSignalled(true)));
    assert!(!w.step(WaitEvent::DebounceElapsed(true)));
    assert!(w.pressed);
    assert!(w.waits_for_low());
    assert!(!w.step(WaitEvent::LevelSignalled(true)));
    assert!(w.step(WaitEvent::DebounceElapsed(true)));
    assert!(!w.pressed);
}

#[test]
fn web_roles() {
    assert!(allows(Role::Anonymous, Role::Anonymous));
    assert!(allows(Role::User, Role::Admin));
    assert!(!allows(Role::User, Role::Anonymous));
    assert!(WebRequest::Logout.role() == Role::Anonymous);
    assert!(WebRequest::ValveCommand(ValveCommand::Open).role() == Role::User);
    assert!(WebEvent::BatteryState(BatteryState::new()).role() == Role::User);
    assert!(AuthEvent::Authenticated(Role::User).role() == Role::User);
    assert!(AuthEvent::LoggedOut.role() == Role::Anonymous);
    assert!(authenticate("admin", "secret") == Some(Role::Admin));
}

#[test]
fn web_requests() {
    let open = WebRequest::ValveCommand(ValveCommand::Open);
    let a = request_action(&open, Role::Anonymous);
    assert!(a.valve.is_none() && a.water_meter.is_none() && a.auth.is_none());
    let a = request_action(&open, Role::User);
    assert!(a.valve == Some(ValveCommand::Open));
    let arm = WebRequest::WaterMeterCommand(WaterMeterCommand::Arm);
    assert!(request_action(&arm, Role::Admin).water_meter == Some(WaterMeterCommand::Arm));
    let login = WebRequest::Authenticate("u".to_string(), "p".to_string());
    assert!(request_action(&login, Role::Anonymous).auth == Some(AuthEvent::Authenticated(Role::Admin)));
    assert!(request_action(&WebRequest::Logout, Role::User).auth == Some(AuthEvent::LoggedOut));
    assert!(!may_send(&WebEvent::ValveState(None), Role::Anonymous));
    assert!(may_send(&WebEvent::AuthenticationFailed, Role::Anonymous));
}

#[test]
fn web_auth_events_filtered_by_role() {
    let wm = WaterMeterState::new();
    let b = BatteryState::new();
    let es = auth_events(AuthEvent::LoggedOut, Some(ValveState::Open), wm, b);
    assert_eq!(es.len(), 1);
    assert!(es[0] == WebEvent::RoleState(Role::Anonymous));
    let es = auth_events(AuthEvent::Authenticated(Role::User), None, wm, b);
    assert_eq!(es.len(), 4);
    assert!(es[0] == WebEvent::RoleState(Role::User));
    assert!(es[1] == WebEvent::ValveState(None));
    let es = auth_events(AuthEvent::AuthenticationFailed, None, wm, b);
    assert_eq!(es.len(), 1);
    assert!(es[0] == WebEvent::AuthenticationFailed);
}

#[test]
fn topics() {
    assert_eq!(topic_suffix(Topic::MeterEdges), "/meter/edges");
    assert_eq!(topic_name("dev", Topic::Valve), "dev/valve");
    assert_eq!(topic_name("dev", Topic::Commands), "dev/commands/#");
    assert!(topic_fits("dev", Topic::Valve, 9));
    assert!(!topic_fits("dev", Topic::Valve, 8));
}

#[test]
fn payloads() {
    assert_eq!(flag_bytes(true), b"true".to_vec());
    assert_eq!(flag_bytes(false), b"false".to_vec());
    assert_eq!(u64_le_bytes(0x0102), vec![2, 1, 0, 0, 0, 0, 0, 0]);
    assert_eq!(u16_le_bytes(2750), vec![0xbe, 0x0a]);
    let p = valve_publication(Some(ValveState::Closing(3)));
    assert!(p.topic == Topic::Valve && p.qos == QoS::AtLeastOnce);
    assert_eq!(p.payload, b"closing".to_vec());
    assert_eq!(valve_publication(None).payload, b"unknown".to_vec());
    assert!(notifies(QoS::AtLeastOnce));
    assert!(!notifies(QoS::AtMostOnce));
}

#[test]
fn meter_publications_report_changes() {
    let s = WaterMeterState { edges_count: 5, armed: true, leaking: false };
    let ps = wm_publications(None, s);
    assert_eq!(ps.len(), 3);
    assert!(ps[0].topic == Topic::MeterEdges);
    assert_eq!(ps[1].payload, b"true".to_vec());
    assert!(wm_publications(Some(s), s).is_empty());
    let leak = WaterMeterState { leaking: true, ..s };
    let ps = wm_publications(Some(s), leak);
    assert_eq!(ps.len(), 1);
    assert!(ps[0].topic == Topic::MeterLeak);
    assert_eq!(ps[0].payload, b"true".to_vec());
    let ps = wm_publications(Some(leak), s);
    assert_eq!(ps.len(), 1);
    assert!(ps[0].topic == Topic::MeterLeak);
    assert_eq!(ps[0].payload, b"false".to_vec());
}

#[test]
fn battery_publications_report_crossings() {
    let high = BatteryState { voltage: Some(2800), powered: Some(true) };
    let low = BatteryState { voltage: Some(2650), powered: Some(true) };
    let ps = battery_publications(Some(high), low);
    assert_eq!(ps.len(), 2);
    assert!(ps[0].topic == Topic::BatteryVoltage && ps[0].qos == QoS::AtMostOnce);
    assert!(ps[1].topic == Topic::BatteryLow);
    assert_eq!(ps[1].payload, b"true".to_vec());
    assert!(battery_publications(Some(low), low).is_empty());
}

#[test]
fn sender_publishes_only_when_connected() {
    let mut s = MqttSender::new();
    assert!(!s.listens_to_states());
    let wm = WaterMeterState { edges_count: 1, armed: false, leaking: false };
    let a = s.step(SendEvent::WaterMeter(wm));
    assert!(a.publications.is_empty() && !a.subscribe);
    assert!(s.published_wm_state.is_some());
    let a = s.step(SendEvent::Connection(true));
    assert!(a.subscribe);
    assert!(s.listens_to_states());
    let a = s.step(SendEvent::Valve(Some(ValveState::Open)));
    assert_eq!(a.publications.len(), 1);
    let a = s.step(SendEvent::WaterMeter(wm));
    assert!(a.publications.is_empty());
}

#[test]
fn receiver_routes_commands() {
    let a = receive_action(ConnectionEvent::Received(Some(MqttCommand::Valve(false))));
    assert!(a.valve == Some(ValveCommand::Close));
    let a = receive_action(ConnectionEvent::Received(Some(MqttCommand::FlowWatch(true))));
    assert!(a.water_meter == Some(WaterMeterCommand::Arm));
    assert!(receive_action(ConnectionEvent::Connected).connection == Some(true));
    assert!(receive_action(ConnectionEvent::Disconnected).connection == Some(false));
    let a = receive_action(ConnectionEvent::Received(Some(MqttCommand::KeepAlive(5))));
    assert!(a.valve.is_none() && a.water_meter.is_none() && a.connection.is_none());
}

#[test]
fn screen_marks_changes() {
    let mut s = ScreenState::new();
    assert!(s.active_page == Page::Summary);
    let drawn = s.take_for_draw();
    assert!(drawn.valve().is_some());
    assert!(s.valve().is_none() && s.wm().is_none() && s.battery().is_none());
    s.update(ScreenEvent::Valve(Some(ValveState::Open)));
    assert!(*s.valve().unwrap() == Some(ValveState::Open));
    assert!(s.wm().is_none());
    s.update(ScreenEvent::Button2);
    assert!(s.active_page == Page::Battery);
    assert!(s.changeset.contains(DataSource::Page));
    s.update(ScreenEvent::Button1);
    assert!(s.active_page == Page::Summary);
    s.update(ScreenEvent::RemainingTime(RemainingTime::Indefinite));
    assert!(*s.remaining_time().unwrap() == Some(RemainingTime::Indefinite));
    assert!(Page::new().next().prev() == Page::Summary);
    let mut c = Changeset::empty();
    assert!(!c.contains(DataSource::Battery));
    c.insert(DataSource::Battery);
    assert!(c.contains(DataSource::Battery));
    assert!(Changeset::all().contains(DataSource::WM));
}

use ruwm::wifi::{WifiConfigKind, WifiControl, WifiStep};

#[test]
fn wifi_steps_follow_the_configuration() {
    let mut c = WifiControl::new();
    assert!(!c.stay_connected);
    let steps = c.on_command(WifiConfigKind::Client { authenticated: true });
    assert!(steps == vec![WifiStep::StopIfStarted, WifiStep::SetConfiguration, WifiStep::StartAndWait, WifiStep::ConnectAndWait]);
    assert!(c.stay_connected);
    assert!(c.on_tick(false));
    assert!(!c.on_tick(true));
    let steps = c.on_command(WifiConfigKind::Disabled);
    assert!(steps == vec![WifiStep::StopIfStarted, WifiStep::SetConfiguration]);
    assert!(!c.on_tick(false));
    let steps = c.on_command(WifiConfigKind::Mixed { authenticated: false });
    assert!(steps == vec![WifiStep::StopIfStarted, WifiStep::SetConfiguration, WifiStep::StartAndWait]);
    let steps = c.on_command(WifiConfigKind::AccessPoint);
    assert_eq!(steps.len(), 3);
    assert!(!c.stay_connected);
}
