use vstd::prelude::*;

use crate::battery::{BatteryState, LOW_VOLTAGE};
use crate::valve::{is_closed_or_closing, ValveState};
use crate::water_meter::WaterMeterState;

verus! {

/// What the emergency task watches: the valve, the meter and the battery.
#[derive(Copy, Clone, Debug, PartialEq, Eq, Structural)]
pub enum EmergencyEvent {
    ValveState(Option<ValveState>),
    WaterMeterState(WaterMeterState),
    BatteryState(BatteryState),
}

/// Whether an event is an emergency: a leak, or a low battery with no
/// external power.
pub open spec fn spec_is_emergency(event: EmergencyEvent) -> bool {
    match event {
        EmergencyEvent::ValveState(_) => false,
        EmergencyEvent::WaterMeterState(wm) => wm.leaking,
        EmergencyEvent::BatteryState(b) => (b.voltage matches Some(v) && v <= LOW_VOLTAGE)
            && !(b.powered == Some(true)),
    }
}

/// The memory of the emergency task after an event, and whether to close the valve.
pub open spec fn spec_emergency_step(valve_state: Option<ValveState>, event: EmergencyEvent) -> (
    Option<ValveState>,
    bool,
) {
    let seen = match event {
        EmergencyEvent::ValveState(v) => v,
        _ => valve_state,
    };
    (seen, spec_is_emergency(event) && !is_closed_or_closing(seen))
}

/// The memory of the emergency task: the last valve state it saw.
#[derive(Copy, Clone, Debug, PartialEq, Eq, Structural)]
pub struct Emergency {
    pub valve_state: Option<ValveState>,
}

impl Emergency {
    /// An emergency task that has not seen the valve yet.
    pub fn new() -> (e: Self)
        ensures
            e.valve_state is None,
    {
        Emergency { valve_state: None }
    }

    /// Handles one event; gives whether the valve must be closed. It must
    /// be on an emergency, unless the valve was last seen closed or closing.
    pub fn step(&mut self, event: EmergencyEvent) -> (close: bool)
        ensures
            (final(self).valve_state, close) == spec_emergency_step(old(self).valve_state, event),
    {
        let emergency = match event {
            EmergencyEvent::ValveState(v) => {
                self.valve_state = v;
                false
            },
            EmergencyEvent::WaterMeterState(wm) => wm.leaking,
            EmergencyEvent::BatteryState(b) => b.is_low_and_unpowered(),
        };
        let closed_or_closing = match self.valve_state {
            Some(ValveState::Closed) => true,
            Some(ValveState::Closing(_)) => true,
            _ => false,
        };
        emergency && !closed_or_closing
    }
}

/// Law: once the valve is seen closed or closing, no meter or battery
/// event asks to close it, and the task keeps that memory until the valve
/// reports otherwise.
pub proof fn law_no_close_while_closed(valve: Option<ValveState>, event: EmergencyEvent)
    requires
        is_closed_or_closing(valve),
        !(event is ValveState),
    ensures
        spec_emergency_step(valve, event) == (valve, false),
{
}

/// Law: a leak, or a low battery without power, closes a valve that is not
/// seen closed or closing.
pub proof fn law_emergency_closes_valve(valve: Option<ValveState>, event: EmergencyEvent)
    requires
        !is_closed_or_closing(valve),
        spec_is_emergency(event),
    ensures
        spec_emergency_step(valve, event).1,
{
}

} // verus!
