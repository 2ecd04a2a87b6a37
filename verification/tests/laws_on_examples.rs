use ruwm::battery::BatteryState;
use ruwm::geometry::{Point, Rectangle, Size};
use ruwm::mqtt::{MessageDetails, MessageParser, MqttCommand};
use ruwm::mqtt_publish::flag_bytes;
use ruwm::pages::{draw, drawable};
use ruwm::screen::{ScreenEvent, ScreenState};
use ruwm::shapes::{cropped_bbox, Shape};
use ruwm::text::{decimal_text, parse_flag, parse_number};
use ruwm::valve::ValveState;
use ruwm::water_meter::WaterMeterState;
use ruwm::widgets::{Battery, Valve};

fn rect(x: i32, y: i32, w: u32, h: u32) -> Rectangle {
    Rectangle { top_left: Point { x, y }, size: Size { width: w, height: h } }
}

#[test]
fn numbers_and_flags_round_trip() {
    for n in [0u32, 7, 10, 99, 1234, u32::MAX] {
        assert_eq!(parse_number(&decimal_text(n as u64)), Some(n));
    }
    assert_eq!(parse_flag(&flag_bytes(true)), Some(true));
    assert_eq!(parse_flag(&flag_bytes(false)), Some(false));
}

#[test]
fn chunks_parse_like_a_complete_message() {
    for (topic, data) in [
        ("dev/commands/valve", &b"true"[..]),
        ("dev/commands/keep_alive", &b"120"[..]),
        ("dev/commands/other", &b"true"[..]),
    ] {
        let mut whole = MessageParser::new();
        let expected = whole.process(MessageDetails::Complete, Some(topic), data);
        let mut chunked = MessageParser::new();
        let first = MessageDetails::InitialChunk { total_data_size: data.len() };
        assert!(chunked.process(first, Some(topic), data).is_none());
        let last = MessageDetails::SubsequentChunk { current_data_offset: 0, total_data_size: data.len() };
        assert!(chunked.process(last, None, data) == expected);
    }
    let mut p = MessageParser::new();
    assert!(
        p.process(MessageDetails::Complete, Some("dev/commands/keep_alive"), b"120")
            == Some(MqttCommand::KeepAlive(120))
    );
}

#[test]
fn charge_never_drops_with_voltage() {
    let mut last = 0;
    for v in (2500..3300).step_by(25) {
        let p = BatteryState { voltage: Some(v), powered: None }.percentage().unwrap();
        assert!(p >= last && p <= 100);
        last = p;
    }
    assert_eq!(last, 100);
}

#[test]
fn battery_fill_grows_with_charge() {
    let mut previous_line = None;
    for pct in [0u8, 10, 50, 99, 100] {
        let b = Battery { charged_percentage: Some(pct), ..Battery::new() };
        let ops = b.draw(&rect(0, 0, 100, 200));
        let line = match ops[1].shape {
            Shape::Fill(r, _) => r.top_left.y,
            _ => panic!("the charge fill comes first"),
        };
        if let Some(prev) = previous_line {
            assert!(line <= prev);
        }
        previous_line = Some(line);
    }
    assert_eq!(previous_line, Some(0));
}

#[test]
fn closed_valve_stop_line_is_full_height() {
    let closed = Valve { open_percentage: Some(0), ..Valve::new() };
    let ops = closed.draw(&rect(0, 0, 60, 60));
    assert!(matches!(ops[51].shape, Shape::Fill(r, _) if r.size.height == 40));
}

#[test]
fn intersections_lie_within_both() {
    let a = rect(-5, 3, 20, 10);
    let b = rect(0, 0, 12, 8);
    let c = cropped_bbox(&b, &a);
    assert!(c == rect(0, 0, 12, 5));
}

#[test]
fn supported_displays_draw() {
    let mut s = ScreenState::new();
    s.update(ScreenEvent::Valve(Some(ValveState::Closing(40))));
    s.update(ScreenEvent::WaterMeter(WaterMeterState { edges_count: 99_999_999, armed: true, leaking: false }));
    for (w, h) in [(100u32, 160u32), (128, 160), (132, 200), (240, 320), (320, 480)] {
        let bbox = rect(0, 0, w, h);
        assert!(drawable(&s, &bbox));
        assert!(!draw(&s, &bbox).is_empty());
    }
    assert!(!drawable(&s, &rect(0, 0, 130, 160)));
    assert!(!drawable(&s, &rect(1, 0, 128, 160)));
    s.update(ScreenEvent::WaterMeter(WaterMeterState { edges_count: 100_000_000, armed: true, leaking: false }));
    assert!(!drawable(&s, &rect(0, 0, 128, 160)));
    s.update(ScreenEvent::Button1);
    let ops = draw(&s, &rect(0, 0, 128, 160));
    assert!(!ops.is_empty());
}
