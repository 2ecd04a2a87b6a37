use vstd::prelude::*;
use vstd::string::*;

use crate::text::{ends_with, has_suffix, parse_flag, parse_number, spec_parse_flag, spec_parse_number};

verus! {

/// The size of the buffer in which a command payload that arrives in chunks is collected.
pub const PAYLOAD_BUF_LEN: usize = 16;

/// A command received over MQTT.
#[derive(Copy, Clone, Debug, PartialEq, Eq, Structural)]
pub enum MqttCommand {
    /// Keep the device awake; the number is the time in seconds.
    KeepAlive(u64),
    /// Open (`true`) or close (`false`) the valve.
    Valve(bool),
    /// Arm (`true`) or disarm (`false`) the leak watch of the meter.
    FlowWatch(bool),
    SystemUpdate,
}

/// Which command a topic addresses, and so which parser its payload goes through.
#[derive(Copy, Clone, Debug, PartialEq, Eq, Structural)]
pub enum CommandKind {
    Valve,
    FlowWatch,
    KeepAlive,
    SystemUpdate,
}

/// How a received message stands to its payload: whole, or one chunk of it.
#[derive(Copy, Clone, Debug, PartialEq, Eq, Structural)]
pub enum MessageDetails {
    Complete,
    InitialChunk { total_data_size: usize },
    SubsequentChunk { current_data_offset: usize, total_data_size: usize },
}

/// The command kind that a topic selects, by its suffix.
pub open spec fn spec_parse_command(topic: Seq<u8>) -> Option<CommandKind> {
    if has_suffix(topic, "/commands/valve".spec_bytes()) {
        Some(CommandKind::Valve)
    } else if has_suffix(topic, "/commands/flow_watch".spec_bytes()) {
        Some(CommandKind::FlowWatch)
    } else if has_suffix(topic, "/commands/keep_alive".spec_bytes()) {
        Some(CommandKind::KeepAlive)
    } else if has_suffix(topic, "/commands/system_update".spec_bytes()) {
        Some(CommandKind::SystemUpdate)
    } else {
        None
    }
}

/// The command that a payload spells for a command kind.
pub open spec fn spec_parse_payload(kind: CommandKind, data: Seq<u8>) -> Option<MqttCommand> {
    match kind {
        CommandKind::Valve => match spec_parse_flag(data) {
            Some(f) => Some(MqttCommand::Valve(f)),
            None => None,
        },
        CommandKind::FlowWatch => match spec_parse_flag(data) {
            Some(f) => Some(MqttCommand::FlowWatch(f)),
            None => None,
        },
        CommandKind::KeepAlive => match spec_parse_number(data) {
            Some(n) => Some(MqttCommand::KeepAlive(n as u64)),
            None => None,
        },
        CommandKind::SystemUpdate => if data.len() == 0 {
            Some(MqttCommand::SystemUpdate)
        } else {
            None
        },
    }
}

/// The command that a complete message carries.
pub open spec fn spec_parse_message(topic: Seq<u8>, data: Seq<u8>) -> Option<MqttCommand> {
    match spec_parse_command(topic) {
        Some(kind) => spec_parse_payload(kind, data),
        None => None,
    }
}

/// The bytes of a topic that may be absent: none where it is.
pub open spec fn topic_bytes(topic: Option<&str>) -> Seq<u8> {
    match topic {
        Some(t) => t.spec_bytes(),
        None => Seq::empty(),
    }
}

/// One step of the message parser: from the command kind selected by the
/// message being collected and the payload buffer, a message (or chunk)
/// with its topic bytes and data gives the new kind, the new buffer and the
/// command completed, if any.
pub open spec fn spec_process(
    pending: Option<CommandKind>,
    buffer: Seq<u8>,
    details: MessageDetails,
    topic: Seq<u8>,
    data: Seq<u8>,
) -> (Option<CommandKind>, Seq<u8>, Option<MqttCommand>) {
    match details {
        MessageDetails::Complete => (pending, buffer, spec_parse_message(topic, data)),
        MessageDetails::InitialChunk { total_data_size } => if total_data_size > PAYLOAD_BUF_LEN {
            (None, buffer, None)
        } else {
            (spec_parse_command(topic), data + buffer.subrange(data.len() as int, 16), None)
        },
        MessageDetails::SubsequentChunk { current_data_offset, total_data_size } => match pending {
            None => (None, buffer, None),
            Some(kind) => {
                let b = data + buffer.subrange(data.len() as int, 16);
                (
                    pending,
                    b,
                    if total_data_size == current_data_offset + data.len() {
                        spec_parse_payload(kind, b.subrange(0, total_data_size as int))
                    } else {
                        None
                    },
                )
            },
        },
    }
}

/// Law: a payload that fits the buffer, sent as a first chunk and then as
/// a final chunk that repeats it whole from offset 0, gives the command
/// that the complete message gives.
pub proof fn law_chunks_like_complete(
    pending: Option<CommandKind>,
    buffer: Seq<u8>,
    topic: Seq<u8>,
    data: Seq<u8>,
)
    requires
        buffer.len() == 16,
        data.len() <= PAYLOAD_BUF_LEN,
    ensures
        ({
            let (p1, b1, c1) = spec_process(
                pending,
                buffer,
                MessageDetails::InitialChunk { total_data_size: data.len() as usize },
                topic,
                data,
            );
            let (p2, b2, c2) = spec_process(
                p1,
                b1,
                MessageDetails::SubsequentChunk {
                    current_data_offset: 0,
                    total_data_size: data.len() as usize,
                },
                Seq::empty(),
                data,
            );
            &&& c1 is None
            &&& c2 == spec_parse_message(topic, data)
        }),
{
    let b1 = data + buffer.subrange(data.len() as int, 16);
    let b2 = data + b1.subrange(data.len() as int, 16);
    assert(b2.subrange(0, data.len() as int) =~= data);
}

/// Turns MQTT messages, whole or in chunks, into commands.
pub struct MessageParser {
    command_parser: Option<CommandKind>,
    payload_buf: [u8; 16],
}

impl MessageParser {
    /// The command kind selected by the first chunk of the message being collected.
    pub closed spec fn pending(&self) -> Option<CommandKind> {
        self.command_parser
    }

    /// The payload bytes collected so far.
    pub closed spec fn buffer(&self) -> Seq<u8> {
        self.payload_buf@
    }

    /// A parser with no message in progress.
    pub fn new() -> (p: Self)
        ensures
            p.pending() is None,
            p.buffer() == Seq::new(16, |i: int| 0u8),
    {
        let p = MessageParser { command_parser: None, payload_buf: [0u8; 16] };
        assert(p.payload_buf@ =~= Seq::new(16, |i: int| 0u8));
        p
    }

    /// The command kind that a topic selects.
    pub fn parse_command(topic: &str) -> (k: Option<CommandKind>)
        ensures
            k == spec_parse_command(topic.spec_bytes()),
    {
        let t = topic.as_bytes();
        if ends_with(t, "/commands/valve".as_bytes()) {
            Some(CommandKind::Valve)
        } else if ends_with(t, "/commands/flow_watch".as_bytes()) {
            Some(CommandKind::FlowWatch)
        } else if ends_with(t, "/commands/keep_alive".as_bytes()) {
            Some(CommandKind::KeepAlive)
        } else if ends_with(t, "/commands/system_update".as_bytes()) {
            Some(CommandKind::SystemUpdate)
        } else {
            None
        }
    }

    /// A valve command: `"true"` opens, `"false"` closes.
    pub fn parse_valve_command(data: &[u8]) -> (c: Option<MqttCommand>)
        ensures
            c == spec_parse_payload(CommandKind::Valve, data@),
    {
        match parse_flag(data) {
            Some(f) => Some(MqttCommand::Valve(f)),
            None => None,
        }
    }

    /// A flow watch command: `"true"` arms, `"false"` disarms.
    pub fn parse_flow_watch_command(data: &[u8]) -> (c: Option<MqttCommand>)
        ensures
            c == spec_parse_payload(CommandKind::FlowWatch, data@),
    {
        match parse_flag(data) {
            Some(f) => Some(MqttCommand::FlowWatch(f)),
            None => None,
        }
    }

    /// A keep-alive command: the payload is a number of seconds.
    pub fn parse_keep_alive_command(data: &[u8]) -> (c: Option<MqttCommand>)
        ensures
            c == spec_parse_payload(CommandKind::KeepAlive, data@),
    {
        match parse_number(data) {
            Some(secs) => Some(MqttCommand::KeepAlive(secs as u64)),
            None => None,
        }
    }

    /// A system update command: the payload is empty.
    pub fn parse_system_update_command(data: &[u8]) -> (c: Option<MqttCommand>)
        ensures
            c == spec_parse_payload(CommandKind::SystemUpdate, data@),
    {
        match Self::parse_empty(data) {
            Some(_) => Some(MqttCommand::SystemUpdate),
            None => None,
        }
    }

    /// `Some` exactly on an empty payload.
    pub fn parse_empty(data: &[u8]) -> (r: Option<()>)
        ensures
            r is Some <==> data@.len() == 0,
    {
        if data.len() == 0 {
            Some(())
        } else {
            None
        }
    }

    /// A boolean flag payload.
    pub fn parse_flag(data: &[u8]) -> (r: Option<bool>)
        ensures
            r == spec_parse_flag(data@),
    {
        parse_flag(data)
    }

    /// An unsigned number payload.
    pub fn parse_number(data: &[u8]) -> (r: Option<u32>)
        ensures
            r == spec_parse_number(data@),
    {
        parse_number(data)
    }

    /// Whether a chunked message is being collected: its first chunk
    /// selected a parser.
    pub fn is_collecting(&self) -> (b: bool)
        ensures
            b == (self.pending() is Some),
    {
        self.command_parser.is_some()
    }

    /// Runs the parser of a command kind on a payload.
    pub fn parse(kind: CommandKind, data: &[u8]) -> (c: Option<MqttCommand>)
        ensures
            c == spec_parse_payload(kind, data@),
    {
        match kind {
            CommandKind::Valve => Self::parse_valve_command(data),
            CommandKind::FlowWatch => Self::parse_flow_watch_command(data),
            CommandKind::KeepAlive => Self::parse_keep_alive_command(data),
            CommandKind::SystemUpdate => Self::parse_system_update_command(data),
        }
    }

    /// Whether a message can be processed: the topic is present where it is
    /// read, a chunk fits the front of the buffer where it is copied, and a
    /// following chunk, while a message is collected, comes at offset 0.
    pub open spec fn accepts(&self, details: MessageDetails, topic: Option<&str>, data: Seq<u8>) -> bool {
        match details {
            MessageDetails::Complete => topic is Some,
            MessageDetails::InitialChunk { total_data_size } => total_data_size <= PAYLOAD_BUF_LEN
                ==> (topic is Some && data.len() <= PAYLOAD_BUF_LEN),
            MessageDetails::SubsequentChunk { current_data_offset, total_data_size } =>
                self.pending() is Some ==> (current_data_offset == 0 && data.len()
                <= PAYLOAD_BUF_LEN),
        }
    }

    /// Handles one message, or one chunk of one, and gives the command it
    /// completes, if any.
    ///
    /// A complete message is parsed at once by its topic. A first chunk
    /// selects the parser by its topic and is copied to the front of the
    /// buffer, unless the whole payload would not fit, in which case the
    /// message is dropped. A following chunk is copied to the front of the
    /// buffer as well, so only one at offset 0 is accepted (see `accepts`);
    /// once its offset and length reach the total size, the payload is parsed.
    pub fn process(&mut self, details: MessageDetails, topic: Option<&str>, data: &[u8]) -> (c:
        Option<MqttCommand>)
        requires
            old(self).accepts(details, topic, data@),
        ensures
            (final(self).pending(), final(self).buffer(), c) == spec_process(
                old(self).pending(),
                old(self).buffer(),
                details,
                topic_bytes(topic),
                data@,
            ),
    {
        match details {
            MessageDetails::Complete => {
                match topic {
                    Some(t) => match Self::parse_command(t) {
                        Some(kind) => Self::parse(kind, data),
                        None => None,
                    },
                    None => None,
                }
            },
            MessageDetails::InitialChunk { total_data_size } => {
                if total_data_size > PAYLOAD_BUF_LEN {
                    self.command_parser = None;
                } else {
                    match topic {
                        Some(t) => {
                            self.command_parser = Self::parse_command(t);
                        },
                        None => {},
                    }
                    self.copy_to_front(data);
                }
                None
            },
            MessageDetails::SubsequentChunk { current_data_offset, total_data_size } => {
                match self.command_parser {
                    Some(kind) => {
                        self.copy_to_front(data);
                        if total_data_size == current_data_offset + data.len() {
                            let payload = self.payload_prefix(total_data_size);
                            Self::parse(kind, payload.as_slice())
                        } else {
                            None
                        }
                    },
                    None => None,
                }
            },
        }
    }

    /// Copies `data` over the front of the buffer.
    fn copy_to_front(&mut self, data: &[u8])
        requires
            data@.len() <= 16,
        ensures
            final(self).command_parser == old(self).command_parser,
            final(self).payload_buf@ == data@ + old(self).payload_buf@.subrange(
                data@.len() as int,
                16,
            ),
    {
        let mut i: usize = 0;
        while i < data.len()
            invariant
                data@.len() <= 16,
                0 <= i <= data@.len(),
                self.command_parser == old(self).command_parser,
                forall|j: int| 0 <= j < i ==> self.payload_buf@[j] == data@[j],
                forall|j: int| i <= j < 16 ==> self.payload_buf@[j] == old(self).payload_buf@[j],
            decreases data@.len() - i,
        {
            self.payload_buf[i] = data[i];
            i = i + 1;
        }
        assert(self.payload_buf@ =~= data@ + old(self).payload_buf@.subrange(
            data@.len() as int,
            16,
        ));
    }

    /// The first `len` bytes of the buffer.
    fn payload_prefix(&self, len: usize) -> (v: Vec<u8>)
        requires
            len <= 16,
        ensures
            v@ == self.payload_buf@.subrange(0, len as int),
    {
        let mut v: Vec<u8> = Vec::new();
        let mut i: usize = 0;
        while i < len
            invariant
                len <= 16,
                0 <= i <= len,
                v@ == self.payload_buf@.subrange(0, i as int),
            decreases len - i,
        {
            v.push(self.payload_buf[i]);
            i = i + 1;
            assert(v@ =~= self.payload_buf@.subrange(0, i as int));
        }
        v
    }
}

} // verus!
