use vstd::prelude::*;
use vstd::string::{StringExecFns, StringSliceAdditionalSpecFns};

use crate::battery::{BatteryState, LOW_VOLTAGE, MAX_VOLTAGE};
use crate::mqtt::MqttCommand;
use crate::text::{false_text, spec_parse_flag, true_text};
use crate::valve::{ValveCommand, ValveState};
use crate::water_meter::{WaterMeterCommand, WaterMeterState};

verus! {

/// The MQTT delivery guarantee of a publication or subscription.
#[derive(Copy, Clone, Debug, PartialEq, Eq, Structural)]
pub enum QoS {
    AtMostOnce,
    AtLeastOnce,
    ExactlyOnce,
}

/// The topics the device subscribes and publishes to, below its topic prefix.
#[derive(Copy, Clone, Debug, PartialEq, Eq, Structural)]
pub enum Topic {
    Commands,
    Valve,
    MeterEdges,
    MeterArmed,
    MeterLeak,
    BatteryVoltage,
    BatteryLow,
    BatteryCharged,
    Powered,
}

/// The text that a topic appends to the prefix.
pub open spec fn spec_topic_suffix(topic: Topic) -> &'static str {
    match topic {
        Topic::Commands => "/commands/#",
        Topic::Valve => "/valve",
        Topic::MeterEdges => "/meter/edges",
        Topic::MeterArmed => "/meter/armed",
        Topic::MeterLeak => "/meter/leak",
        Topic::BatteryVoltage => "/battery/voltage",
        Topic::BatteryLow => "/battery/low",
        Topic::BatteryCharged => "/battery/charged",
        Topic::Powered => "/powered",
    }
}

/// The text that a topic appends to the prefix.
pub fn topic_suffix(topic: Topic) -> (s: &'static str)
    ensures
        s == spec_topic_suffix(topic),
{
    match topic {
        Topic::Commands => "/commands/#",
        Topic::Valve => "/valve",
        Topic::MeterEdges => "/meter/edges",
        Topic::MeterArmed => "/meter/armed",
        Topic::MeterLeak => "/meter/leak",
        Topic::BatteryVoltage => "/battery/voltage",
        Topic::BatteryLow => "/battery/low",
        Topic::BatteryCharged => "/battery/charged",
        Topic::Powered => "/powered",
    }
}

/// The full name of a topic below `prefix`.
pub fn topic_name(prefix: &str, topic: Topic) -> (name: String)
    ensures
        name@ == prefix@ + spec_topic_suffix(topic)@,
{
    String::from_str(prefix).concat(topic_suffix(topic))
}

/// Whether the full name of a topic fits in `capacity` bytes.
pub fn topic_fits(prefix: &str, topic: Topic, capacity: usize) -> (b: bool)
    ensures
        b == (prefix.spec_bytes().len() + spec_topic_suffix(topic).spec_bytes().len() <= capacity),
{
    let suffix = topic_suffix(topic);
    let a = prefix.as_bytes().len();
    let b = suffix.as_bytes().len();
    a <= capacity && b <= capacity - a
}

/// A message to publish: the topic, its guarantee and its payload.
pub struct Publication {
    pub topic: Topic,
    pub qos: QoS,
    pub payload: Vec<u8>,
}

impl View for Publication {
    type V = (Topic, QoS, Seq<u8>);

    open spec fn view(&self) -> (Topic, QoS, Seq<u8>) {
        (self.topic, self.qos, self.payload@)
    }
}

/// The views of a run of publications.
pub open spec fn views(ps: Seq<Publication>) -> Seq<(Topic, QoS, Seq<u8>)> {
    ps.map_values(|p: Publication| p@)
}

/// Copies bytes into a new vector.
pub fn bytes_to_vec(bytes: &[u8]) -> (v: Vec<u8>)
    ensures
        v@ == bytes@,
{
    let mut v: Vec<u8> = Vec::new();
    let mut i: usize = 0;
    while i < bytes.len()
        invariant
            0 <= i <= bytes@.len(),
            v@ == bytes@.subrange(0, i as int),
        decreases bytes@.len() - i,
    {
        v.push(bytes[i]);
        i = i + 1;
        assert(v@ =~= bytes@.subrange(0, i as int));
    }
    assert(bytes@.subrange(0, bytes@.len() as int) =~= bytes@);
    v
}

/// The payload of a flag: `"true"` or `"false"`.
pub open spec fn flag_payload(flag: bool) -> Seq<u8> {
    if flag {
        "true".spec_bytes()
    } else {
        "false".spec_bytes()
    }
}

/// The payload of a flag.
pub fn flag_bytes(flag: bool) -> (v: Vec<u8>)
    ensures
        v@ == flag_payload(flag),
{
    if flag {
        bytes_to_vec("true".as_bytes())
    } else {
        bytes_to_vec("false".as_bytes())
    }
}

/// The payload that reports a valve state.
pub open spec fn valve_payload(state: Option<ValveState>) -> Seq<u8> {
    match state {
        Some(ValveState::Open) => "open".spec_bytes(),
        Some(ValveState::Opening(_)) => "opening".spec_bytes(),
        Some(ValveState::Closed) => "closed".spec_bytes(),
        Some(ValveState::Closing(_)) => "closing".spec_bytes(),
        None => "unknown".spec_bytes(),
    }
}

/// The little-endian bytes of a 64-bit number.
pub open spec fn le_bytes_u64(n: u64) -> Seq<u8> {
    seq![
        (n & 0xff) as u8,
        ((n >> 8u64) & 0xff) as u8,
        ((n >> 16u64) & 0xff) as u8,
        ((n >> 24u64) & 0xff) as u8,
        ((n >> 32u64) & 0xff) as u8,
        ((n >> 40u64) & 0xff) as u8,
        ((n >> 48u64) & 0xff) as u8,
        ((n >> 56u64) & 0xff) as u8,
    ]
}

/// The little-endian bytes of a 16-bit number.
pub open spec fn le_bytes_u16(n: u16) -> Seq<u8> {
    seq![(n & 0xff) as u8, ((n >> 8u16) & 0xff) as u8]
}

/// The little-endian bytes of a 64-bit number.
pub fn u64_le_bytes(n: u64) -> (v: Vec<u8>)
    ensures
        v@ == le_bytes_u64(n),
{
    let v = vec![
        (n & 0xff) as u8,
        ((n >> 8u64) & 0xff) as u8,
        ((n >> 16u64) & 0xff) as u8,
        ((n >> 24u64) & 0xff) as u8,
        ((n >> 32u64) & 0xff) as u8,
        ((n >> 40u64) & 0xff) as u8,
        ((n >> 48u64) & 0xff) as u8,
        ((n >> 56u64) & 0xff) as u8,
    ];
    assert(v@ =~= le_bytes_u64(n));
    v
}

/// The little-endian bytes of a 16-bit number.
pub fn u16_le_bytes(n: u16) -> (v: Vec<u8>)
    ensures
        v@ == le_bytes_u16(n),
{
    let v = vec![(n & 0xff) as u8, ((n >> 8u16) & 0xff) as u8];
    assert(v@ =~= le_bytes_u16(n));
    v
}

/// The publication of a valve state.
pub open spec fn spec_valve_publication(state: Option<ValveState>) -> (Topic, QoS, Seq<u8>) {
    (Topic::Valve, QoS::AtLeastOnce, valve_payload(state))
}

/// The publication that reports a valve state.
pub fn valve_publication(state: Option<ValveState>) -> (p: Publication)
    ensures
        p@ == spec_valve_publication(state),
{
    let status: &str = match state {
        Some(ValveState::Open) => "open",
        Some(ValveState::Opening(_)) => "opening",
        Some(ValveState::Closed) => "closed",
        Some(ValveState::Closing(_)) => "closing",
        None => "unknown",
    };
    Publication { topic: Topic::Valve, qos: QoS::AtLeastOnce, payload: bytes_to_vec(status.as_bytes()) }
}

/// Whether a field must be published: it was never published, or it changed.
pub open spec fn differs<T>(published: Option<T>, f: spec_fn(T) -> bool) -> bool {
    match published {
        Some(p) => f(p),
        None => true,
    }
}

/// The publications that report a meter state, given the one last reported:
/// the count, the armed flag and the leak flag, each where it changed.
pub open spec fn spec_wm_publications(published: Option<WaterMeterState>, state: WaterMeterState) -> Seq<
    (Topic, QoS, Seq<u8>),
> {
    let edges = if differs(published, |p: WaterMeterState| p.edges_count != state.edges_count) {
        seq![(Topic::MeterEdges, QoS::AtLeastOnce, le_bytes_u64(state.edges_count))]
    } else {
        seq![]
    };
    let armed = if differs(published, |p: WaterMeterState| p.armed != state.armed) {
        seq![(Topic::MeterArmed, QoS::AtLeastOnce, flag_payload(state.armed))]
    } else {
        seq![]
    };
    let leak = if differs(published, |p: WaterMeterState| p.leaking != state.leaking) {
        seq![(Topic::MeterLeak, QoS::AtLeastOnce, flag_payload(state.leaking))]
    } else {
        seq![]
    };
    edges + armed + leak
}

/// The publications that report a meter state, given the one last reported:
/// each field that was never reported or changed.
pub fn wm_publications(published: Option<WaterMeterState>, state: WaterMeterState) -> (ps: Vec<
    Publication,
>)
    ensures
        views(ps@) == spec_wm_publications(published, state),
{
    let mut ps: Vec<Publication> = Vec::new();
    let edges_changed = match published {
        Some(p) => p.edges_count != state.edges_count,
        None => true,
    };
    if edges_changed {
        ps.push(
            Publication {
                topic: Topic::MeterEdges,
                qos: QoS::AtLeastOnce,
                payload: u64_le_bytes(state.edges_count),
            },
        );
    }
    let armed_changed = match published {
        Some(p) => p.armed != state.armed,
        None => true,
    };
    if armed_changed {
        ps.push(
            Publication {
                topic: Topic::MeterArmed,
                qos: QoS::AtLeastOnce,
                payload: flag_bytes(state.armed),
            },
        );
    }
    let leaking_changed = match published {
        Some(p) => p.leaking != state.leaking,
        None => true,
    };
    if leaking_changed {
        ps.push(
            Publication {
                topic: Topic::MeterLeak,
                qos: QoS::AtLeastOnce,
                payload: flag_bytes(state.leaking),
            },
        );
    }
    assert(views(ps@) =~= spec_wm_publications(published, state));
    ps
}

/// The publications that report a battery state, given the one last reported.
pub open spec fn spec_battery_publications(published: Option<BatteryState>, state: BatteryState) -> Seq<
    (Topic, QoS, Seq<u8>),
> {
    let voltage = if differs(published, |p: BatteryState| p.voltage != state.voltage) {
        match state.voltage {
            Some(v) => {
                let thresholds = match published {
                    Some(p) => match p.voltage {
                        Some(prev) => {
                            let low = if (prev > LOW_VOLTAGE) != (v > LOW_VOLTAGE) {
                                seq![(Topic::BatteryLow, QoS::AtLeastOnce, flag_payload(!(v > LOW_VOLTAGE)))]
                            } else {
                                seq![]
                            };
                            let charged = if (prev >= MAX_VOLTAGE) != (v >= MAX_VOLTAGE) {
                                seq![(Topic::BatteryCharged, QoS::AtMostOnce, flag_payload(v >= MAX_VOLTAGE))]
                            } else {
                                seq![]
                            };
                            low + charged
                        },
                        None => seq![],
                    },
                    None => seq![],
                };
                seq![(Topic::BatteryVoltage, QoS::AtMostOnce, le_bytes_u16(v))] + thresholds
            },
            None => seq![],
        }
    } else {
        seq![]
    };
    let powered = if differs(published, |p: BatteryState| p.powered != state.powered) {
        match state.powered {
            Some(on) => seq![(Topic::Powered, QoS::AtMostOnce, flag_payload(on))],
            None => seq![],
        }
    } else {
        seq![]
    };
    voltage + powered
}

/// The publications that report a battery state, given the one last
/// reported: a new voltage, and whether it crossed the low or the charged
/// threshold since the last known voltage, and a new power state.
pub fn battery_publications(published: Option<BatteryState>, state: BatteryState) -> (ps: Vec<
    Publication,
>)
    ensures
        views(ps@) == spec_battery_publications(published, state),
{
    let mut ps: Vec<Publication> = Vec::new();
    let voltage_changed = match published {
        Some(p) => p.voltage != state.voltage,
        None => true,
    };
    if voltage_changed {
        match state.voltage {
            Some(voltage) => {
                ps.push(
                    Publication {
                        topic: Topic::BatteryVoltage,
                        qos: QoS::AtMostOnce,
                        payload: u16_le_bytes(voltage),
                    },
                );
                let prev_voltage = match published {
                    Some(p) => p.voltage,
                    None => None,
                };
                match prev_voltage {
                    Some(prev) => {
                        if (prev > LOW_VOLTAGE) != (voltage > LOW_VOLTAGE) {
                            ps.push(
                                Publication {
                                    topic: Topic::BatteryLow,
                                    qos: QoS::AtLeastOnce,
                                    payload: flag_bytes(!(voltage > LOW_VOLTAGE)),
                                },
                            );
                        }
                        if (prev >= MAX_VOLTAGE) != (voltage >= MAX_VOLTAGE) {
                            ps.push(
                                Publication {
                                    topic: Topic::BatteryCharged,
                                    qos: QoS::AtMostOnce,
                                    payload: flag_bytes(voltage >= MAX_VOLTAGE),
                                },
                            );
                        }
                    },
                    None => {},
                }
            },
            None => {},
        }
    }
    let ghost after_voltage = ps@;
    let powered_changed = match published {
        Some(p) => p.powered != state.powered,
        None => true,
    };
    if powered_changed {
        match state.powered {
            Some(powered) => {
                ps.push(
                    Publication {
                        topic: Topic::Powered,
                        qos: QoS::AtMostOnce,
                        payload: flag_bytes(powered),
                    },
                );
            },
            None => {},
        }
    }
    assert(views(ps@) =~= spec_battery_publications(published, state));
    ps
}


/// Whether a publication with this guarantee is counted as activity once it went out.
pub open spec fn spec_notifies(qos: QoS) -> bool {
    qos != QoS::AtMostOnce
}

/// Whether a publication with this guarantee is counted as activity once it
/// went out: those that ask for at least one delivery.
pub fn notifies(qos: QoS) -> (b: bool)
    ensures
        b == spec_notifies(qos),
{
    match qos {
        QoS::AtMostOnce => false,
        _ => true,
    }
}

/// What the sending task reacts to: the connection going up or down, or a
/// new state of the valve, the meter or the battery.
#[derive(Copy, Clone, Debug, PartialEq, Eq, Structural)]
pub enum SendEvent {
    Connection(bool),
    Valve(Option<ValveState>),
    WaterMeter(WaterMeterState),
    Battery(BatteryState),
}

/// What the sending task does in answer to an event: whether to subscribe
/// to the command topics, and what to publish.
pub struct SendAction {
    pub subscribe: bool,
    pub publications: Vec<Publication>,
}

/// The memory of the sending task: whether the client is connected, and the
/// meter and battery states last reported.
#[derive(Copy, Clone, Debug)]
pub struct MqttSender {
    pub connected: bool,
    pub published_wm_state: Option<WaterMeterState>,
    pub published_battery_state: Option<BatteryState>,
}

/// The publications an event calls for, while connected.
pub open spec fn spec_event_publications(state: MqttSender, event: SendEvent) -> Seq<
    (Topic, QoS, Seq<u8>),
> {
    match event {
        SendEvent::Connection(_) => seq![],
        SendEvent::Valve(v) => seq![spec_valve_publication(v)],
        SendEvent::WaterMeter(wm) => spec_wm_publications(state.published_wm_state, wm),
        SendEvent::Battery(b) => spec_battery_publications(state.published_battery_state, b),
    }
}

/// The memory of the sending task after an event.
pub open spec fn spec_send_next(state: MqttSender, event: SendEvent) -> MqttSender {
    match event {
        SendEvent::Connection(up) => MqttSender { connected: up, ..state },
        SendEvent::Valve(_) => state,
        SendEvent::WaterMeter(wm) => MqttSender { published_wm_state: Some(wm), ..state },
        SendEvent::Battery(b) => MqttSender { published_battery_state: Some(b), ..state },
    }
}

impl MqttSender {
    /// Disconnected, with nothing reported yet.
    pub fn new() -> (s: Self)
        ensures
            !s.connected,
            s.published_wm_state is None,
            s.published_battery_state is None,
    {
        MqttSender { connected: false, published_wm_state: None, published_battery_state: None }
    }

    /// Whether the task listens for new states: only while connected; until
    /// then it waits for the connection alone.
    pub fn listens_to_states(&self) -> (b: bool)
        ensures
            b == self.connected,
    {
        self.connected
    }

    /// Handles one event. A connection subscribes to the commands; a new
    /// state is published, field by field where it changed, and remembered
    /// as reported. While disconnected nothing goes out, but states are
    /// still remembered as reported.
    pub fn step(&mut self, event: SendEvent) -> (a: SendAction)
        ensures
            *final(self) == spec_send_next(*old(self), event),
            a.subscribe == (event == SendEvent::Connection(true)),
            views(a.publications@) == if old(self).connected {
                spec_event_publications(*old(self), event)
            } else {
                seq![]
            },
    {
        let connected = self.connected;
        let mut publications: Vec<Publication> = Vec::new();
        let mut subscribe = false;
        match event {
            SendEvent::Connection(up) => {
                subscribe = up;
                self.connected = up;
            },
            SendEvent::Valve(v) => {
                if connected {
                    publications.push(valve_publication(v));
                }
            },
            SendEvent::WaterMeter(wm) => {
                if connected {
                    publications = wm_publications(self.published_wm_state, wm);
                }
                self.published_wm_state = Some(wm);
            },
            SendEvent::Battery(b) => {
                if connected {
                    publications = battery_publications(self.published_battery_state, b);
                }
                self.published_battery_state = Some(b);
            },
        }
        assert(views(publications@) =~= if old(self).connected {
            spec_event_publications(*old(self), event)
        } else {
            seq![]
        });
        SendAction { subscribe, publications }
    }
}

/// A notification of the MQTT connection, reduced to what the receiving task acts on.
#[derive(Copy, Clone, Debug, PartialEq, Eq, Structural)]
pub enum ConnectionEvent {
    Received(Option<MqttCommand>),
    Connected,
    Disconnected,
    Other,
}

/// What the receiving task does in answer to a connection event: a command
/// for the valve or the meter, and news of the connection state.
#[derive(Copy, Clone, Debug, PartialEq, Eq, Structural)]
pub struct ReceiveAction {
    pub valve: Option<ValveCommand>,
    pub water_meter: Option<WaterMeterCommand>,
    pub connection: Option<bool>,
}

/// What the receiving task does in answer to a connection event.
pub open spec fn spec_receive_action(event: ConnectionEvent) -> ReceiveAction {
    match event {
        ConnectionEvent::Received(Some(MqttCommand::Valve(open))) => ReceiveAction {
            valve: Some(if open { ValveCommand::Open } else { ValveCommand::Close }),
            water_meter: None,
            connection: None,
        },
        ConnectionEvent::Received(Some(MqttCommand::FlowWatch(enable))) => ReceiveAction {
            valve: None,
            water_meter: Some(if enable { WaterMeterCommand::Arm } else { WaterMeterCommand::Disarm }),
            connection: None,
        },
        ConnectionEvent::Connected => ReceiveAction { valve: None, water_meter: None, connection: Some(true) },
        ConnectionEvent::Disconnected => ReceiveAction { valve: None, water_meter: None, connection: Some(false) },
        _ => ReceiveAction { valve: None, water_meter: None, connection: None },
    }
}

/// What the receiving task does in answer to a connection event: valve and
/// flow watch commands go to the valve and the meter, and connection changes
/// go to the sending task. Other commands are ignored.
pub fn receive_action(event: ConnectionEvent) -> (a: ReceiveAction)
    ensures
        a == spec_receive_action(event),
{
    match event {
        ConnectionEvent::Received(Some(MqttCommand::Valve(open))) => ReceiveAction {
            valve: Some(if open { ValveCommand::Open } else { ValveCommand::Close }),
            water_meter: None,
            connection: None,
        },
        ConnectionEvent::Received(Some(MqttCommand::FlowWatch(enable))) => ReceiveAction {
            valve: None,
            water_meter: Some(if enable { WaterMeterCommand::Arm } else { WaterMeterCommand::Disarm }),
            connection: None,
        },
        ConnectionEvent::Connected => ReceiveAction { valve: None, water_meter: None, connection: Some(true) },
        ConnectionEvent::Disconnected => ReceiveAction { valve: None, water_meter: None, connection: Some(false) },
        _ => ReceiveAction { valve: None, water_meter: None, connection: None },
    }
}

/// Law: the meter's count, armed flag and leak flag are each published
/// exactly when they were never reported or changed, each with the new
/// state's value as its payload (the count as its 8 little-endian bytes).
pub proof fn law_meter_reports_new_values(published: Option<WaterMeterState>, state: WaterMeterState)
    ensures
        ({
            let ps = spec_wm_publications(published, state);
            &&& forall|k: int|
                0 <= k < ps.len() ==> {
                    let (t, q, payload) = #[trigger] ps[k];
                    &&& q == QoS::AtLeastOnce
                    &&& t == Topic::MeterEdges ==> payload == le_bytes_u64(state.edges_count)
                    &&& t == Topic::MeterArmed ==> payload == flag_payload(state.armed)
                    &&& t == Topic::MeterLeak ==> payload == flag_payload(state.leaking)
                    &&& t == Topic::MeterEdges || t == Topic::MeterArmed || t == Topic::MeterLeak
                }
            &&& (exists|k: int| 0 <= k < ps.len() && (#[trigger] ps[k]).0 == Topic::MeterEdges) <==> (
            published is None || published.unwrap().edges_count != state.edges_count)
            &&& (exists|k: int| 0 <= k < ps.len() && (#[trigger] ps[k]).0 == Topic::MeterArmed) <==> (
            published is None || published.unwrap().armed != state.armed)
            &&& (exists|k: int| 0 <= k < ps.len() && (#[trigger] ps[k]).0 == Topic::MeterLeak) <==> (
            published is None || published.unwrap().leaking != state.leaking)
        }),
{
    let ps = spec_wm_publications(published, state);
    let e = differs(published, |p: WaterMeterState| p.edges_count != state.edges_count);
    let a = differs(published, |p: WaterMeterState| p.armed != state.armed);
    let l = differs(published, |p: WaterMeterState| p.leaking != state.leaking);
    let es: Seq<(Topic, QoS, Seq<u8>)> = if e {
        seq![(Topic::MeterEdges, QoS::AtLeastOnce, le_bytes_u64(state.edges_count))]
    } else {
        seq![]
    };
    let as_: Seq<(Topic, QoS, Seq<u8>)> = if a {
        seq![(Topic::MeterArmed, QoS::AtLeastOnce, flag_payload(state.armed))]
    } else {
        seq![]
    };
    let ls: Seq<(Topic, QoS, Seq<u8>)> = if l {
        seq![(Topic::MeterLeak, QoS::AtLeastOnce, flag_payload(state.leaking))]
    } else {
        seq![]
    };
    assert(ps == es + as_ + ls);
    assert(e <==> (published is None || published.unwrap().edges_count != state.edges_count));
    assert(a <==> (published is None || published.unwrap().armed != state.armed));
    assert(l <==> (published is None || published.unwrap().leaking != state.leaking));
    assert forall|k: int| 0 <= k < ps.len() implies {
        let (t, q, payload) = #[trigger] ps[k];
        &&& q == QoS::AtLeastOnce
        &&& t == Topic::MeterEdges ==> payload == le_bytes_u64(state.edges_count)
        &&& t == Topic::MeterArmed ==> payload == flag_payload(state.armed)
        &&& t == Topic::MeterLeak ==> payload == flag_payload(state.leaking)
        &&& t == Topic::MeterEdges || t == Topic::MeterArmed || t == Topic::MeterLeak
    } by {
        if k < es.len() {
            assert(ps[k] == es[k]);
        } else if k < es.len() + as_.len() {
            assert(ps[k] == as_[k - es.len()]);
        } else {
            assert(ps[k] == ls[k - es.len() - as_.len()]);
        }
    }
    if e {
        assert(ps[0].0 == Topic::MeterEdges);
    }
    if a {
        assert(ps[es.len() as int] == as_[0]);
    }
    if l {
        assert(ps[(es.len() + as_.len()) as int] == ls[0]);
    }
    assert((exists|k: int| 0 <= k < ps.len() && (#[trigger] ps[k]).0 == Topic::MeterEdges) ==> e) by {
        if !e {
            assert forall|k: int| 0 <= k < ps.len() implies (#[trigger] ps[k]).0 != Topic::MeterEdges by {
                assert(ps[k] == (es + as_ + ls)[k]);
            }
        }
    }
    assert((exists|k: int| 0 <= k < ps.len() && (#[trigger] ps[k]).0 == Topic::MeterArmed) ==> a) by {
        if !a {
            assert forall|k: int| 0 <= k < ps.len() implies (#[trigger] ps[k]).0 != Topic::MeterArmed by {
                assert(ps[k] == (es + as_ + ls)[k]);
            }
        }
    }
    assert((exists|k: int| 0 <= k < ps.len() && (#[trigger] ps[k]).0 == Topic::MeterLeak) ==> l) by {
        if !l {
            assert forall|k: int| 0 <= k < ps.len() implies (#[trigger] ps[k]).0 != Topic::MeterLeak by {
                assert(ps[k] == (es + as_ + ls)[k]);
            }
        }
    }
}

/// Law: the 8 bytes of a count, read back little-endian, give the count.
pub proof fn law_le_bytes_read_back(n: u64)
    ensures
        ({
            let b = le_bytes_u64(n);
            b[0] + 256 * (b[1] + 256 * (b[2] + 256 * (b[3] + 256 * (b[4] + 256 * (b[5] + 256 * (b[6]
                + 256 * b[7])))))) == n
        }),
{
    assert((((n & 0xff) as u8) as u64 + 256 * ((((n >> 8u64) & 0xff) as u8) as u64 + 256 * (
    (((n >> 16u64) & 0xff) as u8) as u64 + 256 * ((((n >> 24u64) & 0xff) as u8) as u64 + 256 * (
    (((n >> 32u64) & 0xff) as u8) as u64 + 256 * ((((n >> 40u64) & 0xff) as u8) as u64 + 256 * (
    (((n >> 48u64) & 0xff) as u8) as u64 + 256 * ((((n >> 56u64) & 0xff) as u8) as u64)))))))) == n)
        by (bit_vector);
}

/// Law: a state that was reported as it is calls for no publication.
pub proof fn law_unchanged_state_is_quiet(wm: WaterMeterState, b: BatteryState)
    ensures
        spec_wm_publications(Some(wm), wm) == Seq::<(Topic, QoS, Seq<u8>)>::empty(),
        spec_battery_publications(Some(b), b) == Seq::<(Topic, QoS, Seq<u8>)>::empty(),
{
    assert(spec_wm_publications(Some(wm), wm) =~= Seq::<(Topic, QoS, Seq<u8>)>::empty());
    assert(spec_battery_publications(Some(b), b) =~= Seq::<(Topic, QoS, Seq<u8>)>::empty());
}

/// Law: the first report of a meter state publishes every field, and the
/// first report of a battery state publishes what is known of it, with no
/// threshold news.
pub proof fn law_first_report_is_complete(wm: WaterMeterState, b: BatteryState)
    ensures
        spec_wm_publications(None, wm) == seq![
            (Topic::MeterEdges, QoS::AtLeastOnce, le_bytes_u64(wm.edges_count)),
            (Topic::MeterArmed, QoS::AtLeastOnce, flag_payload(wm.armed)),
            (Topic::MeterLeak, QoS::AtLeastOnce, flag_payload(wm.leaking)),
        ],
        spec_battery_publications(None, b) == (match b.voltage {
            Some(v) => seq![(Topic::BatteryVoltage, QoS::AtMostOnce, le_bytes_u16(v))],
            None => seq![],
        }) + (match b.powered {
            Some(on) => seq![(Topic::Powered, QoS::AtMostOnce, flag_payload(on))],
            None => seq![],
        }),
{
    assert(spec_wm_publications(None, wm) =~= seq![
        (Topic::MeterEdges, QoS::AtLeastOnce, le_bytes_u64(wm.edges_count)),
        (Topic::MeterArmed, QoS::AtLeastOnce, flag_payload(wm.armed)),
        (Topic::MeterLeak, QoS::AtLeastOnce, flag_payload(wm.leaking)),
    ]);
    let vs = match b.voltage {
        Some(v) => seq![(Topic::BatteryVoltage, QoS::AtMostOnce, le_bytes_u16(v))],
        None => Seq::<(Topic, QoS, Seq<u8>)>::empty(),
    };
    if let Some(v) = b.voltage {
        assert(seq![(Topic::BatteryVoltage, QoS::AtMostOnce, le_bytes_u16(v))] + Seq::<(Topic, QoS, Seq<u8>)>::empty() =~= vs);
    }
}

/// Law: the low battery flag is published exactly when a new voltage
/// crosses `LOW_VOLTAGE` from the voltage last reported, and it says whether
/// the new voltage is at or below it.
pub proof fn law_low_battery_reported_on_crossing(prev: BatteryState, b: BatteryState)
    ensures
        (exists|i: int|
            0 <= i < spec_battery_publications(Some(prev), b).len()
                && (#[trigger] spec_battery_publications(Some(prev), b)[i]).0 == Topic::BatteryLow)
            <==> (prev.voltage != b.voltage && prev.voltage is Some && b.voltage is Some && ((
            prev.voltage.unwrap() > LOW_VOLTAGE) != (b.voltage.unwrap() > LOW_VOLTAGE))),
        (prev.voltage != b.voltage && prev.voltage is Some && b.voltage is Some && ((
        prev.voltage.unwrap() > LOW_VOLTAGE) != (b.voltage.unwrap() > LOW_VOLTAGE)))
            ==> spec_battery_publications(Some(prev), b)[1] == (
            Topic::BatteryLow,
            QoS::AtLeastOnce,
            flag_payload(b.voltage.unwrap() <= LOW_VOLTAGE),
        ),
{
    let ps = spec_battery_publications(Some(prev), b);
    if prev.voltage != b.voltage && prev.voltage is Some && b.voltage is Some {
        let v = b.voltage.unwrap();
        let pv = prev.voltage.unwrap();
        let low = if (pv > LOW_VOLTAGE) != (v > LOW_VOLTAGE) {
            seq![(Topic::BatteryLow, QoS::AtLeastOnce, flag_payload(!(v > LOW_VOLTAGE)))]
        } else {
            Seq::<(Topic, QoS, Seq<u8>)>::empty()
        };
        let charged = if (pv >= MAX_VOLTAGE) != (v >= MAX_VOLTAGE) {
            seq![(Topic::BatteryCharged, QoS::AtMostOnce, flag_payload(v >= MAX_VOLTAGE))]
        } else {
            Seq::<(Topic, QoS, Seq<u8>)>::empty()
        };
        let powered = if prev.powered != b.powered {
            match b.powered {
                Some(on) => seq![(Topic::Powered, QoS::AtMostOnce, flag_payload(on))],
                None => Seq::<(Topic, QoS, Seq<u8>)>::empty(),
            }
        } else {
            Seq::<(Topic, QoS, Seq<u8>)>::empty()
        };
        assert(ps =~= seq![(Topic::BatteryVoltage, QoS::AtMostOnce, le_bytes_u16(v))] + (low + charged) + powered);
        if (pv > LOW_VOLTAGE) != (v > LOW_VOLTAGE) {
            assert(ps[1].0 == Topic::BatteryLow);
        } else {
            assert forall|i: int| 0 <= i < ps.len() implies (#[trigger] ps[i]).0 != Topic::BatteryLow by {
                if i == 0 {
                } else if i < 1 + charged.len() {
                    assert(ps[i] == charged[i - 1]);
                } else {
                    assert(ps[i] == powered[i - 1 - charged.len()]);
                }
            }
        }
    } else {
        let powered = if prev.powered != b.powered {
            match b.powered {
                Some(on) => seq![(Topic::Powered, QoS::AtMostOnce, flag_payload(on))],
                None => Seq::<(Topic, QoS, Seq<u8>)>::empty(),
            }
        } else {
            Seq::<(Topic, QoS, Seq<u8>)>::empty()
        };
        if prev.voltage != b.voltage && b.voltage is Some {
            let v = b.voltage.unwrap();
            assert(ps =~= seq![(Topic::BatteryVoltage, QoS::AtMostOnce, le_bytes_u16(v))] + powered);
            assert forall|i: int| 0 <= i < ps.len() implies (#[trigger] ps[i]).0 != Topic::BatteryLow by {
                if i > 0 {
                    assert(ps[i] == powered[i - 1]);
                }
            }
        } else {
            assert(ps =~= powered);
        }
    }
}

/// Law: reporting a state remembers it, so the same state right after calls
/// for no publication.
pub proof fn law_report_is_remembered(state: MqttSender, event: SendEvent)
    requires
        !(event is Connection),
        !(event is Valve),
    ensures
        spec_event_publications(spec_send_next(state, event), event) == Seq::<(Topic, QoS, Seq<u8>)>::empty(),
{
    match event {
        SendEvent::WaterMeter(wm) => law_unchanged_state_is_quiet(wm, BatteryState { voltage: None, powered: None }),
        SendEvent::Battery(b) => law_unchanged_state_is_quiet(WaterMeterState { edges_count: 0, armed: false, leaking: false }, b),
        _ => {},
    }
}

/// Law: a published flag payload parses back to the flag.
pub proof fn law_flag_round_trip(flag: bool)
    ensures
        spec_parse_flag(flag_payload(flag)) == Some(flag),
{
    reveal_strlit("true");
    reveal_strlit("false");
    assert(vstd::string::is_ascii("true"));
    assert(vstd::string::is_ascii("false"));
    vstd::string::is_ascii_spec_bytes("true");
    vstd::string::is_ascii_spec_bytes("false");
    assert("true".spec_bytes() =~= true_text());
    assert("false".spec_bytes() =~= false_text());
    assert(true_text() != false_text());
}

} // verus!
