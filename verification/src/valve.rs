use vstd::prelude::*;

verus! {

/// The number of timer ticks that a full turn of the valve motor takes.
pub const TURN_TICKS: usize = 20;

/// The length of one tick, in seconds.
pub const TICK_DELAY_SECS: u64 = 1;

/// Where the valve is, or where it is going and how far it got (in percent).
#[derive(Copy, Clone, Debug, PartialEq, Eq, Structural)]
pub enum ValveState {
    Open,
    Closed,
    Opening(u8),
    Closing(u8),
}

/// What the valve is asked to do.
#[derive(Copy, Clone, Debug, PartialEq, Eq, Structural)]
pub enum ValveCommand {
    Open,
    Close,
}

/// A progress figure of a moving valve stays within 100 percent.
pub open spec fn progress_valid(state: ValveState) -> bool {
    match state {
        ValveState::Opening(p) => p <= 100,
        ValveState::Closing(p) => p <= 100,
        _ => true,
    }
}

/// `progress_valid` of a state that may be unknown.
pub open spec fn state_valid(state: Option<ValveState>) -> bool {
    match state {
        Some(s) => progress_valid(s),
        None => true,
    }
}

/// How far open the valve is, in percent.
pub open spec fn spec_open_percentage(state: ValveState) -> int {
    match state {
        ValveState::Open => 100,
        ValveState::Closed => 0,
        ValveState::Opening(p) => p as int,
        ValveState::Closing(p) => 100 - p,
    }
}

impl ValveState {
    /// How far open the valve is, in percent: an opening valve is as far
    /// open as it got, a closing valve as far as it has still to go.
    pub fn open_percentage(&self) -> (p: u8)
        requires
            progress_valid(*self),
        ensures
            p == spec_open_percentage(*self),
            p <= 100,
    {
        match self {
            ValveState::Open => 100,
            ValveState::Closed => 0,
            ValveState::Opening(percentage) => *percentage,
            ValveState::Closing(percentage) => 100 - *percentage,
        }
    }

    /// The state with its progress figure dropped: a moving valve is
    /// reported as just started.
    pub fn simplify(&self) -> (s: Self)
        ensures
            s == match *self {
                ValveState::Opening(_) => ValveState::Opening(0),
                ValveState::Closing(_) => ValveState::Closing(0),
                other => other,
            },
    {
        match self {
            ValveState::Opening(_) => ValveState::Opening(0),
            ValveState::Closing(_) => ValveState::Closing(0),
            _ => *self,
        }
    }
}

/// What the valve task reacts to: a command, or a report of the motor,
/// which gives the progress while it turns and nothing once it stopped.
#[derive(Copy, Clone, Debug, PartialEq, Eq, Structural)]
pub enum ValveEvent {
    Command(ValveCommand),
    Progress(Option<u8>),
}

/// Whether the valve is open or on its way there.
pub open spec fn is_open_or_opening(state: Option<ValveState>) -> bool {
    state matches Some(ValveState::Open) || state matches Some(ValveState::Opening(_))
}

/// Whether the valve is closed or on its way there.
pub open spec fn is_closed_or_closing(state: Option<ValveState>) -> bool {
    state matches Some(ValveState::Closed) || state matches Some(ValveState::Closing(_))
}

/// The valve state after an event, and the command to hand to the motor, if any.
pub open spec fn spec_next_state(state: Option<ValveState>, event: ValveEvent) -> (
    Option<ValveState>,
    Option<ValveCommand>,
) {
    match event {
        ValveEvent::Command(ValveCommand::Open) => if is_open_or_opening(state) {
            (state, None)
        } else {
            (Some(ValveState::Opening(0)), Some(ValveCommand::Open))
        },
        ValveEvent::Command(ValveCommand::Close) => if is_closed_or_closing(state) {
            (state, None)
        } else {
            (Some(ValveState::Closing(0)), Some(ValveCommand::Close))
        },
        ValveEvent::Progress(Some(progress)) => match state {
            Some(ValveState::Opening(_)) => (Some(ValveState::Opening(progress)), None),
            Some(ValveState::Closing(_)) => (Some(ValveState::Closing(progress)), None),
            _ => (None, None),
        },
        ValveEvent::Progress(None) => match state {
            Some(ValveState::Opening(_)) => (Some(ValveState::Open), None),
            Some(ValveState::Closing(_)) => (Some(ValveState::Closed), None),
            _ => (state, None),
        },
    }
}

/// One step of the valve task: the new state and the command for the motor.
///
/// A command that the valve already follows changes nothing; any other
/// command starts the motor. Progress reports move a turning valve on, and
/// the end of the turn settles it as open or closed.
pub fn next_state(state: Option<ValveState>, event: ValveEvent) -> (r: (
    Option<ValveState>,
    Option<ValveCommand>,
))
    ensures
        r == spec_next_state(state, event),
{
    match event {
        ValveEvent::Command(ValveCommand::Open) => {
            let already = match state {
                Some(ValveState::Open) => true,
                Some(ValveState::Opening(_)) => true,
                _ => false,
            };
            if !already {
                (Some(ValveState::Opening(0)), Some(ValveCommand::Open))
            } else {
                (state, None)
            }
        },
        ValveEvent::Command(ValveCommand::Close) => {
            let already = match state {
                Some(ValveState::Closed) => true,
                Some(ValveState::Closing(_)) => true,
                _ => false,
            };
            if !already {
                (Some(ValveState::Closing(0)), Some(ValveCommand::Close))
            } else {
                (state, None)
            }
        },
        ValveEvent::Progress(Some(progress)) => match state {
            Some(ValveState::Opening(_)) => (Some(ValveState::Opening(progress)), None),
            Some(ValveState::Closing(_)) => (Some(ValveState::Closing(progress)), None),
            _ => (None, None),
        },
        ValveEvent::Progress(None) => match state {
            Some(ValveState::Opening(_)) => (Some(ValveState::Open), None),
            Some(ValveState::Closing(_)) => (Some(ValveState::Closed), None),
            _ => (state, None),
        },
    }
}

/// The motor driver: the command it carries out and the ticks it has left.
#[derive(Copy, Clone, Debug, PartialEq, Eq, Structural)]
pub struct Spin {
    pub command: Option<ValveCommand>,
    pub remaining_ticks: usize,
}

/// The progress that the motor driver reports with `remaining` ticks left.
pub open spec fn spec_progress(remaining: nat) -> Option<u8> {
    if remaining > 0 {
        Some((100 - (remaining * 100) as int / (TURN_TICKS as int)) as u8)
    } else {
        None
    }
}

/// The driver after a tick of the timer.
pub open spec fn spec_tick(spin: Spin) -> Spin {
    if spin.remaining_ticks > 0 {
        Spin { command: spin.command, remaining_ticks: (spin.remaining_ticks - 1) as usize }
    } else {
        Spin { command: None, remaining_ticks: 0 }
    }
}

/// The driver after `n` ticks.
pub open spec fn spec_ticks(spin: Spin, n: nat) -> Spin
    decreases n,
{
    if n == 0 {
        spin
    } else {
        spec_ticks(spec_tick(spin), (n - 1) as nat)
    }
}

impl Spin {
    /// A driver at rest.
    pub fn new() -> (s: Self)
        ensures
            s.command is None,
            s.remaining_ticks == 0,
    {
        Spin { command: None, remaining_ticks: 0 }
    }

    /// Takes a command: the motor turns that way for a full turn.
    pub fn command(&mut self, command: ValveCommand)
        ensures
            final(self).command == Some(command),
            final(self).remaining_ticks == TURN_TICKS,
    {
        self.command = Some(command);
        self.remaining_ticks = TURN_TICKS;
    }

    /// One tick of the timer: one tick less to go, or, with none left, the
    /// motor stops. Gives the progress to report.
    pub fn tick(&mut self) -> (progress: Option<u8>)
        requires
            old(self).remaining_ticks <= TURN_TICKS,
        ensures
            *final(self) == spec_tick(*old(self)),
            progress == spec_progress(final(self).remaining_ticks as nat),
            final(self).remaining_ticks <= TURN_TICKS,
    {
        if self.remaining_ticks > 0 {
            self.remaining_ticks = self.remaining_ticks - 1;
        } else {
            self.command = None;
        }
        if self.remaining_ticks > 0 {
            Some((100 - self.remaining_ticks * 100 / TURN_TICKS) as u8)
        } else {
            None
        }
    }
}

/// A pin of the valve motor driver.
#[derive(Copy, Clone, Debug, PartialEq, Eq, Structural)]
pub enum ValvePin {
    Power,
    Open,
    Close,
}

/// The pin writes, in order, that make the motor carry out a command, or stop.
pub open spec fn spec_pin_writes(command: Option<ValveCommand>) -> Seq<(ValvePin, bool)> {
    match command {
        Some(ValveCommand::Open) => seq![
            (ValvePin::Close, false),
            (ValvePin::Open, true),
            (ValvePin::Power, true),
        ],
        Some(ValveCommand::Close) => seq![
            (ValvePin::Open, false),
            (ValvePin::Close, true),
            (ValvePin::Power, true),
        ],
        None => seq![(ValvePin::Power, false), (ValvePin::Open, false), (ValvePin::Close, false)],
    }
}

/// The pin writes, in order, that make the motor carry out a command, or
/// stop: the opposite direction is released before the wanted one is set,
/// and power comes last when starting and first when stopping.
pub fn pin_writes(command: Option<ValveCommand>) -> (w: Vec<(ValvePin, bool)>)
    ensures
        w@ == spec_pin_writes(command),
{
    match command {
        Some(ValveCommand::Open) => vec![
            (ValvePin::Close, false),
            (ValvePin::Open, true),
            (ValvePin::Power, true),
        ],
        Some(ValveCommand::Close) => vec![
            (ValvePin::Open, false),
            (ValvePin::Close, true),
            (ValvePin::Power, true),
        ],
        None => vec![(ValvePin::Power, false), (ValvePin::Open, false), (ValvePin::Close, false)],
    }
}

/// How long the emergency close keeps the motor turning, in milliseconds: a full turn.
pub fn emergency_close_delay_ms() -> (ms: u32)
    ensures
        ms == TICK_DELAY_SECS * 1000 * TURN_TICKS,
{
    (TICK_DELAY_SECS * 1000 * TURN_TICKS as u64) as u32
}


/// A progress report of the motor is a valid progress figure.
pub open spec fn event_valid(event: ValveEvent) -> bool {
    event matches ValveEvent::Progress(Some(p)) ==> p <= 100
}

/// Law: the valve task keeps every progress figure within 100 percent.
pub proof fn law_next_state_keeps_progress_valid(state: Option<ValveState>, event: ValveEvent)
    requires
        state_valid(state),
        event_valid(event),
    ensures
        state_valid(spec_next_state(state, event).0),
{
}

/// Law: a command that was just taken is ignored when it comes again.
pub proof fn law_command_idempotent(state: Option<ValveState>, command: ValveCommand)
    ensures
        ({
            let (s1, _) = spec_next_state(state, ValveEvent::Command(command));
            spec_next_state(s1, ValveEvent::Command(command)) == (s1, None::<ValveCommand>)
        }),
{
}

/// Law: the motor is started exactly when the valve is not already heading
/// the commanded way, and then in that direction.
pub proof fn law_command_starts_motor(state: Option<ValveState>, command: ValveCommand)
    ensures
        ({
            let (s1, m) = spec_next_state(state, ValveEvent::Command(command));
            let heading = match command {
                ValveCommand::Open => is_open_or_opening(state),
                ValveCommand::Close => is_closed_or_closing(state),
            };
            &&& (m is Some <==> !heading)
            &&& m is Some ==> m == Some(command)
            &&& heading ==> s1 == state
        }),
{
}

/// Law: when the motor stops, a turning valve settles where it was heading.
pub proof fn law_turn_completes(p: u8)
    ensures
        spec_next_state(Some(ValveState::Opening(p)), ValveEvent::Progress(None)).0 == Some(
            ValveState::Open,
        ),
        spec_next_state(Some(ValveState::Closing(p)), ValveEvent::Progress(None)).0 == Some(
            ValveState::Closed,
        ),
{
}

/// `k` ticks on a driver with at least `k` ticks left only count down.
pub proof fn lemma_ticks_count_down(spin: Spin, k: nat)
    requires
        k <= spin.remaining_ticks,
    ensures
        spec_ticks(spin, k) == (Spin {
            command: spin.command,
            remaining_ticks: (spin.remaining_ticks - k) as usize,
        }),
    decreases k,
{
    if k > 0 {
        lemma_ticks_count_down(spec_tick(spin), (k - 1) as nat);
    }
}

/// Law: after a command the motor turns for exactly `TURN_TICKS` ticks,
/// reporting 5, 10, ... 95 percent, then completion, and stops on the next tick.
pub proof fn law_full_turn(command: ValveCommand, k: nat)
    requires
        1 <= k <= TURN_TICKS,
    ensures
        ({
            let start = Spin { command: Some(command), remaining_ticks: TURN_TICKS };
            let after = spec_ticks(start, k);
            &&& after.command == Some(command)
            &&& after.remaining_ticks == TURN_TICKS - k
            &&& spec_progress(after.remaining_ticks as nat) == if k < TURN_TICKS {
                Some((5 * k) as u8)
            } else {
                None
            }
            &&& spec_tick(after).command == if k < TURN_TICKS {
                Some(command)
            } else {
                None
            }
        }),
{
    let start = Spin { command: Some(command), remaining_ticks: TURN_TICKS };
    lemma_ticks_count_down(start, k);
    let r = (TURN_TICKS - k) as nat;
    assert((r * 100) as int / 20 == 5 * r) by (nonlinear_arith)
        requires
            r <= 20,
    ;
}

/// The levels of the three motor driver pins.
#[derive(Copy, Clone, Debug, PartialEq, Eq, Structural)]
pub struct PinLevels {
    pub power: bool,
    pub open: bool,
    pub close: bool,
}

/// The levels after one pin write.
pub open spec fn apply_write(levels: PinLevels, write: (ValvePin, bool)) -> PinLevels {
    match write.0 {
        ValvePin::Power => PinLevels { power: write.1, ..levels },
        ValvePin::Open => PinLevels { open: write.1, ..levels },
        ValvePin::Close => PinLevels { close: write.1, ..levels },
    }
}

/// The levels after a run of pin writes, in order.
pub open spec fn apply_writes(levels: PinLevels, writes: Seq<(ValvePin, bool)>) -> PinLevels
    decreases writes.len(),
{
    if writes.len() == 0 {
        levels
    } else {
        apply_write(apply_writes(levels, writes.drop_last()), writes.last())
    }
}

/// Law: the motor is never driven both ways at once. From pins that do not
/// drive both ways, no prefix of the writes for a command drives both ways,
/// and after all of them the motor runs exactly as commanded, or stands still.
pub proof fn law_pin_writes_safe(levels: PinLevels, command: Option<ValveCommand>, k: int)
    requires
        !(levels.open && levels.close),
        0 <= k <= 3,
    ensures
        spec_pin_writes(command).len() == 3,
        ({
            let mid = apply_writes(levels, spec_pin_writes(command).subrange(0, k));
            !(mid.open && mid.close)
        }),
        ({
            let end = apply_writes(levels, spec_pin_writes(command));
            match command {
                Some(ValveCommand::Open) => end == PinLevels { power: true, open: true, close: false },
                Some(ValveCommand::Close) => end == PinLevels { power: true, open: false, close: true },
                None => end == PinLevels { power: false, open: false, close: false },
            }
        }),
{
    let w = spec_pin_writes(command);
    assert(w.subrange(0, 0).len() == 0);
    assert(w.subrange(0, 1).drop_last() =~= w.subrange(0, 0));
    assert(w.subrange(0, 2).drop_last() =~= w.subrange(0, 1));
    assert(w.subrange(0, 3).drop_last() =~= w.subrange(0, 2));
    assert(w.subrange(0, 3) =~= w);
    reveal_with_fuel(apply_writes, 4);
}

/// The valve state after the progress reports `ps`, in turn.
pub open spec fn after_reports(state: Option<ValveState>, ps: Seq<u8>) -> Option<ValveState>
    decreases ps.len(),
{
    if ps.len() == 0 {
        state
    } else {
        spec_next_state(after_reports(state, ps.drop_last()), ValveEvent::Progress(Some(ps.last()))).0
    }
}

/// Law: a progress report keeps the direction of a turning valve and takes
/// the reported figure, and starts no motor.
pub proof fn law_progress_keeps_direction(q: u8, p: u8)
    ensures
        spec_next_state(Some(ValveState::Closing(q)), ValveEvent::Progress(Some(p))) == (
            Some(ValveState::Closing(p)),
            None::<ValveCommand>,
        ),
        spec_next_state(Some(ValveState::Opening(q)), ValveEvent::Progress(Some(p))) == (
            Some(ValveState::Opening(p)),
            None::<ValveCommand>,
        ),
{
}

/// Law: through any run of progress reports a closing valve stays closing
/// and an opening one opening, each at the last figure reported.
pub proof fn law_reports_keep_direction(q: u8, ps: Seq<u8>)
    ensures
        after_reports(Some(ValveState::Closing(q)), ps) == Some(
            ValveState::Closing(if ps.len() == 0 { q } else { ps.last() }),
        ),
        after_reports(Some(ValveState::Opening(q)), ps) == Some(
            ValveState::Opening(if ps.len() == 0 { q } else { ps.last() }),
        ),
    decreases ps.len(),
{
    if ps.len() > 0 {
        law_reports_keep_direction(q, ps.drop_last());
    }
}

/// Law: a valve that is not closed or closing and is told to close settles
/// closed after any run of progress reports and the end of the turn; and
/// likewise for opening.
pub proof fn law_command_settles(state: Option<ValveState>, ps: Seq<u8>)
    ensures
        !is_closed_or_closing(state) ==> spec_next_state(
            after_reports(spec_next_state(state, ValveEvent::Command(ValveCommand::Close)).0, ps),
            ValveEvent::Progress(None),
        ).0 == Some(ValveState::Closed),
        !is_open_or_opening(state) ==> spec_next_state(
            after_reports(spec_next_state(state, ValveEvent::Command(ValveCommand::Open)).0, ps),
            ValveEvent::Progress(None),
        ).0 == Some(ValveState::Open),
{
    law_reports_keep_direction(0, ps);
}

} // verus!
