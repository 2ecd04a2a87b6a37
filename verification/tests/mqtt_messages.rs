use ruwm::mqtt::{CommandKind, MessageDetails, MessageParser, MqttCommand};
use ruwm::text::{decimal_text, parse_flag, parse_number, to_str};

#[test]
fn flags_parse_exactly() {
    assert_eq!(parse_flag(b"true"), Some(true));
    assert_eq!(parse_flag(b"false"), Some(false));
    assert_eq!(parse_flag(b"True"), None);
    assert_eq!(parse_flag(b"true "), None);
    assert_eq!(parse_flag(b""), None);
}

#[test]
fn numbers_parse_like_u32() {
    assert_eq!(parse_number(b"5"), Some(5));
    assert_eq!(parse_number(b"+5"), Some(5));
    assert_eq!(parse_number(b"007"), Some(7));
    assert_eq!(parse_number(b"4294967295"), Some(u32::MAX));
    assert_eq!(parse_number(b"4294967296"), None);
    assert_eq!(parse_number(b""), None);
    assert_eq!(parse_number(b"+"), None);
    assert_eq!(parse_number(b"-5"), None);
    assert_eq!(parse_number(b"12a"), None);
}

#[test]
fn to_str_writes_digits_at_the_end() {
    let mut buf = [b'x'; 5];
    assert_eq!(to_str(123, &mut buf), 2);
    assert_eq!(&buf, b"xx123");
    let mut buf = [b'x'; 3];
    assert_eq!(to_str(0, &mut buf), 2);
    assert_eq!(&buf, b"xx0");
    assert_eq!(decimal_text(0), b"0".to_vec());
    assert_eq!(decimal_text(120), b"120".to_vec());
    assert_eq!(decimal_text(u64::MAX), b"18446744073709551615".to_vec());
}

#[test]
fn topics_select_command_kinds() {
    assert!(MessageParser::parse_command("home/commands/valve") == Some(CommandKind::Valve));
    assert!(MessageParser::parse_command("home/commands/flow_watch") == Some(CommandKind::FlowWatch));
    assert!(MessageParser::parse_command("home/commands/keep_alive") == Some(CommandKind::KeepAlive));
    assert!(
        MessageParser::parse_command("home/commands/system_update") == Some(CommandKind::SystemUpdate)
    );
    assert!(MessageParser::parse_command("home/commands/other").is_none());
    assert!(MessageParser::parse_command("").is_none());
}

#[test]
fn payload_parsers() {
    assert!(MessageParser::parse_valve_command(b"true") == Some(MqttCommand::Valve(true)));
    assert!(MessageParser::parse_flow_watch_command(b"false") == Some(MqttCommand::FlowWatch(false)));
    assert!(MessageParser::parse_keep_alive_command(b"30") == Some(MqttCommand::KeepAlive(30)));
    assert!(MessageParser::parse_keep_alive_command(b"x").is_none());
    assert!(MessageParser::parse_system_update_command(b"") == Some(MqttCommand::SystemUpdate));
    assert!(MessageParser::parse_system_update_command(b"now").is_none());
    assert!(MessageParser::parse_empty(b"").is_some());
    assert!(MessageParser::parse_empty(b" ").is_none());
    assert!(MessageParser::parse(CommandKind::Valve, b"maybe").is_none());
}

#[test]
fn complete_messages() {
    let mut p = MessageParser::new();
    let c = p.process(MessageDetails::Complete, Some("dev/commands/valve"), b"false");
    assert!(c == Some(MqttCommand::Valve(false)));
    let c = p.process(MessageDetails::Complete, Some("dev/commands/keep_alive"), b"+12");
    assert!(c == Some(MqttCommand::KeepAlive(12)));
    let c = p.process(MessageDetails::Complete, Some("dev/status"), b"true");
    assert!(c.is_none());
}

#[test]
fn chunked_messages() {
    let mut p = MessageParser::new();
    let first = MessageDetails::InitialChunk { total_data_size: 4 };
    assert!(p.process(first, Some("dev/commands/flow_watch"), b"xx").is_none());
    let partial = MessageDetails::SubsequentChunk { current_data_offset: 0, total_data_size: 6 };
    assert!(p.process(partial, None, b"tr").is_none());
    let last = MessageDetails::SubsequentChunk { current_data_offset: 0, total_data_size: 4 };
    assert!(p.process(last, None, b"true") == Some(MqttCommand::FlowWatch(true)));
}

#[test]
fn oversized_messages_are_dropped() {
    let mut p = MessageParser::new();
    let first = MessageDetails::InitialChunk { total_data_size: 17 };
    assert!(p.process(first, Some("dev/commands/valve"), b"true").is_none());
    let next = MessageDetails::SubsequentChunk { current_data_offset: 0, total_data_size: 4 };
    assert!(p.process(next, None, b"true").is_none());
}
