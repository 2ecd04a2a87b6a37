use vstd::prelude::*;

verus! {

/// The number of state changes after which the meter state is written to flash.
pub const FLASH_WRITE_CYCLE: usize = 20;

/// What the meter knows: the pulses counted so far, whether the leak watch
/// is armed, and whether a leak was seen.
#[derive(Copy, Clone, Debug, PartialEq, Eq, Structural)]
pub struct WaterMeterState {
    pub edges_count: u64,
    pub armed: bool,
    pub leaking: bool,
}

/// What the meter is asked to do with its leak watch.
#[derive(Copy, Clone, Debug, PartialEq, Eq, Structural)]
pub enum WaterMeterCommand {
    Arm,
    Disarm,
}

impl WaterMeterState {
    /// A meter that counted nothing, unarmed and without a leak.
    pub fn new() -> (s: Self)
        ensures
            s.edges_count == 0,
            !s.armed,
            !s.leaking,
    {
        WaterMeterState { edges_count: 0, armed: false, leaking: false }
    }
}

impl Default for WaterMeterState {
    fn default() -> (s: Self)
        ensures
            s.edges_count == 0,
            !s.armed,
            !s.leaking,
    {
        WaterMeterState::new()
    }
}

/// The meter state after `pulses` new pulses.
pub open spec fn spec_on_pulses(state: WaterMeterState, pulses: u64) -> WaterMeterState {
    if pulses > 0 {
        WaterMeterState {
            edges_count: (state.edges_count + pulses) as u64,
            armed: state.armed,
            leaking: state.armed,
        }
    } else {
        state
    }
}

/// The meter state after a command.
pub open spec fn spec_on_command(state: WaterMeterState, command: WaterMeterCommand) -> WaterMeterState {
    WaterMeterState {
        edges_count: state.edges_count,
        armed: command == WaterMeterCommand::Arm,
        leaking: state.leaking,
    }
}

/// Counts new pulses. Any flow while the leak watch is armed is a leak;
/// while unarmed, flow clears the leak flag.
pub fn on_pulses(state: WaterMeterState, pulses: u64) -> (s: WaterMeterState)
    requires
        state.edges_count + pulses <= u64::MAX,
    ensures
        s == spec_on_pulses(state, pulses),
{
    if pulses > 0 {
        WaterMeterState {
            edges_count: state.edges_count + pulses,
            armed: state.armed,
            leaking: state.armed,
        }
    } else {
        state
    }
}

/// Arms or disarms the leak watch; the count and the leak flag stay.
pub fn on_command(state: WaterMeterState, command: WaterMeterCommand) -> (s: WaterMeterState)
    ensures
        s == spec_on_command(state, command),
{
    let armed = match command {
        WaterMeterCommand::Arm => true,
        WaterMeterCommand::Disarm => false,
    };
    WaterMeterState { edges_count: state.edges_count, armed, leaking: state.leaking }
}

/// The part of the pulse counter that wakes the device on flow.
pub trait PulseWakeup {
    type Error;

    /// Whether the wakeup is in the setting `enabled`. A wakeup that has no
    /// setting of its own is in every setting.
    spec fn is_set_to(&self, enabled: bool) -> bool;

    /// Enables or disables waking on flow; once it succeeded, the wakeup is
    /// in the asked setting.
    fn set_enabled(&mut self, enabled: bool) -> (r: Result<(), Self::Error>)
        ensures
            r is Ok ==> final(self).is_set_to(enabled),
    ;
}

/// A wakeup that is not wired to anything: every setting succeeds.
impl PulseWakeup for () {
    type Error = ();

    open spec fn is_set_to(&self, enabled: bool) -> bool {
        true
    }

    fn set_enabled(&mut self, enabled: bool) -> (r: Result<(), ()>)
        ensures
            r is Ok,
    {
        Ok(())
    }
}

/// Handles a command: the wakeup on flow is set to follow the leak watch
/// (enabled exactly on `Arm`), then the state is updated. Where setting the
/// wakeup fails, its error is given back and the state is not updated; an
/// `Ok` comes only once the wakeup is in the setting the command asks for.
pub fn process_command<W: PulseWakeup>(
    wakeup: &mut W,
    state: WaterMeterState,
    command: WaterMeterCommand,
) -> (r: Result<WaterMeterState, W::Error>)
    ensures
        r is Ok ==> final(wakeup).is_set_to(command == WaterMeterCommand::Arm),
        r matches Ok(s) ==> s == spec_on_command(state, command),
{
    let armed = match command {
        WaterMeterCommand::Arm => true,
        WaterMeterCommand::Disarm => false,
    };
    let result = wakeup.set_enabled(armed);
    on_wakeup_result(state, command, result)
}

/// What a command gives once the wakeup answered: the updated state where
/// it was set, the wakeup's error, and no update, where it was not.
pub fn on_wakeup_result<E>(
    state: WaterMeterState,
    command: WaterMeterCommand,
    wakeup_result: Result<(), E>,
) -> (r: Result<WaterMeterState, E>)
    ensures
        match wakeup_result {
            Ok(()) => r == Ok::<WaterMeterState, E>(spec_on_command(state, command)),
            Err(e) => r == Err::<WaterMeterState, E>(e),
        },
{
    match wakeup_result {
        Ok(()) => Ok(on_command(state, command)),
        Err(e) => Err(e),
    }
}

/// Counts a state change towards the next flash write: gives the new count
/// and whether to write now, which happens on every `FLASH_WRITE_CYCLE`-th change.
pub fn flash_step(cycle: usize) -> (r: (usize, bool))
    requires
        cycle < FLASH_WRITE_CYCLE,
    ensures
        r.1 == (cycle + 1 == FLASH_WRITE_CYCLE),
        r.0 == if r.1 {
            0
        } else {
            cycle + 1
        },
        r.0 < FLASH_WRITE_CYCLE,
{
    let next = cycle + 1;
    if next >= FLASH_WRITE_CYCLE {
        (0, true)
    } else {
        (next, false)
    }
}

/// The flash counter after `n` state changes from `cycle`.
pub open spec fn spec_flash_after(cycle: nat, n: nat) -> nat {
    (cycle + n) % (FLASH_WRITE_CYCLE as nat)
}

/// Law: counting a change moves the flash counter on by one, modulo the cycle,
/// and a write happens exactly when it wraps.
pub proof fn law_flash_step(cycle: usize)
    requires
        cycle < FLASH_WRITE_CYCLE,
    ensures
        ({
            let next = if cycle + 1 == FLASH_WRITE_CYCLE { 0 } else { cycle + 1 };
            next == spec_flash_after(cycle as nat, 1)
        }),
{
}

/// Law: counted pulses only ever add up, and the leak flag after flow is the
/// armed flag.
pub proof fn law_pulses_add(state: WaterMeterState, a: u64, b: u64)
    requires
        state.edges_count + a + b <= u64::MAX,
    ensures
        spec_on_pulses(spec_on_pulses(state, a), b).edges_count == state.edges_count + a + b,
        (a > 0 || b > 0) ==> spec_on_pulses(spec_on_pulses(state, a), b).leaking == state.armed,
        spec_on_pulses(spec_on_pulses(state, a), b).armed == state.armed,
{
}

/// Law: a command changes nothing but the armed flag, and a second equal
/// command changes nothing.
pub proof fn law_command_idempotent(state: WaterMeterState, command: WaterMeterCommand)
    ensures
        spec_on_command(spec_on_command(state, command), command) == spec_on_command(state, command),
        spec_on_command(state, command).edges_count == state.edges_count,
        spec_on_command(state, command).leaking == state.leaking,
{
}

/// Law: without new pulses nothing changes, the leak flag included; with
/// pulses the count grows by exactly their number, the leak watch stays as
/// it was, and the leak flag becomes whether the watch is armed.
pub proof fn law_pulses_only_on_flow(state: WaterMeterState, pulses: u64)
    requires
        state.edges_count + pulses <= u64::MAX,
    ensures
        pulses == 0 ==> spec_on_pulses(state, pulses) == state,
        pulses > 0 ==> spec_on_pulses(state, pulses).edges_count == state.edges_count + pulses,
        spec_on_pulses(state, pulses).armed == state.armed,
        pulses > 0 ==> (spec_on_pulses(state, pulses).leaking <==> state.armed),
{
}

} // verus!
