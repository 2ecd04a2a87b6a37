use vstd::prelude::*;

verus! {

/// The level of a button pin while the button is pressed.
#[derive(Copy, Clone, Debug, PartialEq, Eq, Structural)]
pub enum PressedLevel {
    Low,
    High,
}

/// Whether a wait looks for the pin to be low: only a wait for the press of
/// a button that pulls its pin low does; every other wait looks for high.
pub open spec fn spec_waits_for_low(pressed_level: PressedLevel, pressed: bool) -> bool {
    pressed_level == PressedLevel::Low && pressed
}

/// Whether a wait looks for the pin to be low.
pub fn waits_for_low(pressed_level: PressedLevel, pressed: bool) -> (b: bool)
    ensures
        b == spec_waits_for_low(pressed_level, pressed),
{
    match pressed_level {
        PressedLevel::Low => pressed,
        PressedLevel::High => false,
    }
}

/// Whether the pin, high or not, is at the level a wait looks for.
pub fn has_level(pressed_level: PressedLevel, pressed: bool, pin_high: bool) -> (b: bool)
    ensures
        b == if spec_waits_for_low(pressed_level, pressed) {
            !pin_high
        } else {
            pin_high
        },
{
    if waits_for_low(pressed_level, pressed) {
        !pin_high
    } else {
        pin_high
    }
}

/// Where a wait for a pin level stands.
#[derive(Copy, Clone, Debug, PartialEq, Eq, Structural)]
pub enum WaitStage {
    /// Waiting for the pin to reach the level.
    AwaitLevel,
    /// The level was reached; waiting to see it hold.
    Debounce,
    Done,
}

/// What a wait for a pin level learns: the pin signalled the level (and
/// whether it still reads so), an edge came while debouncing, or the
/// debounce time passed (and whether the pin still reads the level).
#[derive(Copy, Clone, Debug, PartialEq, Eq, Structural)]
pub enum WaitEvent {
    LevelSignalled(bool),
    EdgeSeen,
    DebounceElapsed(bool),
}

/// The stage of a wait for a level after an event.
pub open spec fn spec_wait_step(stage: WaitStage, debounce: bool, event: WaitEvent) -> WaitStage {
    match (stage, event) {
        (WaitStage::AwaitLevel, WaitEvent::LevelSignalled(true)) => if debounce {
            WaitStage::Debounce
        } else {
            WaitStage::AwaitLevel
        },
        (WaitStage::AwaitLevel, WaitEvent::LevelSignalled(false)) => WaitStage::AwaitLevel,
        (WaitStage::Debounce, WaitEvent::EdgeSeen) => WaitStage::AwaitLevel,
        (WaitStage::Debounce, WaitEvent::DebounceElapsed(true)) => WaitStage::Done,
        (WaitStage::Debounce, WaitEvent::DebounceElapsed(false)) => WaitStage::AwaitLevel,
        _ => stage,
    }
}

/// One step of a wait for a level: a level that is still read after being
/// signalled is debounced, where there is a debounce time; a debounce that
/// sees no edge and still reads the level ends the wait. Without a debounce
/// time the wait goes back to waiting for the level, again and again.
pub fn wait_step(stage: WaitStage, debounce: bool, event: WaitEvent) -> (s: WaitStage)
    ensures
        s == spec_wait_step(stage, debounce, event),
{
    match stage {
        WaitStage::AwaitLevel => match event {
            WaitEvent::LevelSignalled(true) => if debounce {
                WaitStage::Debounce
            } else {
                WaitStage::AwaitLevel
            },
            WaitEvent::LevelSignalled(false) => WaitStage::AwaitLevel,
            _ => stage,
        },
        WaitStage::Debounce => match event {
            WaitEvent::EdgeSeen => WaitStage::AwaitLevel,
            WaitEvent::DebounceElapsed(true) => WaitStage::Done,
            WaitEvent::DebounceElapsed(false) => WaitStage::AwaitLevel,
            _ => stage,
        },
        WaitStage::Done => WaitStage::Done,
    }
}

/// The stage after a run of events.
pub open spec fn spec_wait_run(stage: WaitStage, debounce: bool, events: Seq<WaitEvent>) -> WaitStage
    decreases events.len(),
{
    if events.len() == 0 {
        stage
    } else {
        spec_wait_step(spec_wait_run(stage, debounce, events.drop_last()), debounce, events.last())
    }
}

/// Law: without a debounce time a wait never ends, whatever the pin does.
pub proof fn law_no_debounce_never_done(events: Seq<WaitEvent>)
    ensures
        spec_wait_run(WaitStage::AwaitLevel, false, events) == WaitStage::AwaitLevel,
    decreases events.len(),
{
    if events.len() > 0 {
        law_no_debounce_never_done(events.drop_last());
    }
}

/// Law: a wait ends only on a debounce that saw the level held.
pub proof fn law_done_only_after_held_level(stage: WaitStage, debounce: bool, event: WaitEvent)
    requires
        stage != WaitStage::Done,
        spec_wait_step(stage, debounce, event) == WaitStage::Done,
    ensures
        stage == WaitStage::Debounce,
        event == WaitEvent::DebounceElapsed(true),
{
}

/// A wait for a press: first the pin is seen released, then pressed.
#[derive(Copy, Clone, Debug, PartialEq, Eq, Structural)]
pub struct PressWait {
    pub pressed_level: PressedLevel,
    pub debounce: bool,
    /// Whether the release was seen and the press is awaited.
    pub pressed: bool,
    pub stage: WaitStage,
}

impl PressWait {
    /// A wait that starts by waiting for the button to be released.
    pub fn new(pressed_level: PressedLevel, debounce: bool) -> (w: Self)
        ensures
            w == (PressWait { pressed_level, debounce, pressed: false, stage: WaitStage::AwaitLevel }),
    {
        PressWait { pressed_level, debounce, pressed: false, stage: WaitStage::AwaitLevel }
    }

    /// Whether the pin is next awaited low.
    pub fn waits_for_low(&self) -> (b: bool)
        ensures
            b == spec_waits_for_low(self.pressed_level, self.pressed),
    {
        waits_for_low(self.pressed_level, self.pressed)
    }

    /// Takes an event in; gives whether the press is complete.
    pub fn step(&mut self, event: WaitEvent) -> (pressed: bool)
        requires
            old(self).stage != WaitStage::Done,
        ensures
            ({
                let s = spec_wait_step(old(self).stage, old(self).debounce, event);
                &&& pressed == (s == WaitStage::Done && old(self).pressed)
                &&& final(self).pressed_level == old(self).pressed_level
                &&& final(self).debounce == old(self).debounce
                &&& if s == WaitStage::Done {
                    &&& final(self).stage == WaitStage::AwaitLevel
                    &&& final(self).pressed == !old(self).pressed
                } else {
                    &&& final(self).stage == s
                    &&& final(self).pressed == old(self).pressed
                }
            }),
            final(self).stage != WaitStage::Done,
    {
        let s = wait_step(self.stage, self.debounce, event);
        match s {
            WaitStage::Done => {
                let done = self.pressed;
                self.pressed = !self.pressed;
                self.stage = WaitStage::AwaitLevel;
                done
            },
            _ => {
                self.stage = s;
                false
            },
        }
    }
}

} // verus!
