use vstd::prelude::*;

verus! {

/// How long the device stays awake after the last activity, in milliseconds.
pub const TIMEOUT_MS: u64 = 20000;

/// How often the remaining time is reported, at most, in milliseconds.
pub const REMAINING_TIME_TRIGGER_MS: u64 = 1000;

/// How often the keep-alive task wakes up without activity, in milliseconds.
pub const TICK_MS: u64 = 2000;

/// The time left before the device goes to sleep.
#[derive(Copy, Clone, Debug, PartialEq, Eq, Structural)]
pub enum RemainingTime {
    Indefinite,
    /// Milliseconds.
    Duration(u64),
}

/// What the keep-alive task does after waking up.
#[derive(Copy, Clone, Debug, PartialEq, Eq, Structural)]
pub enum KeepaliveAction {
    /// The time is up: put the device to sleep.
    Quit,
    /// Report the time left.
    Remaining(RemainingTime),
    Nothing,
}

/// The memory of the keep-alive task: when the device is due to sleep, and
/// when the remaining time was last reported (times in milliseconds).
#[derive(Copy, Clone, Debug, PartialEq, Eq, Structural)]
pub struct Keepalive {
    pub quit_time: Option<u64>,
    pub quit_time_sent: Option<u64>,
}

/// The keep-alive memory and the action after waking up at `now`, with or
/// without activity.
pub open spec fn spec_keepalive_step(k: Keepalive, activity: bool, now: u64) -> (Keepalive, KeepaliveAction) {
    let quit_time = if activity {
        Some((now + TIMEOUT_MS) as u64)
    } else {
        k.quit_time
    };
    if quit_time matches Some(q) && now >= q {
        (Keepalive { quit_time, quit_time_sent: k.quit_time_sent }, KeepaliveAction::Quit)
    } else if (quit_time is Some) != (k.quit_time_sent is Some) || (k.quit_time_sent matches Some(
        s,
    ) && s + REMAINING_TIME_TRIGGER_MS <= now) {
        let remaining = match quit_time {
            Some(q) => RemainingTime::Duration((q - now) as u64),
            None => RemainingTime::Indefinite,
        };
        (Keepalive { quit_time, quit_time_sent: Some(now) }, KeepaliveAction::Remaining(remaining))
    } else {
        (Keepalive { quit_time, quit_time_sent: k.quit_time_sent }, KeepaliveAction::Nothing)
    }
}

impl Keepalive {
    /// The keep-alive memory when the task starts at `now`: the device is due
    /// to sleep `TIMEOUT_MS` later, and nothing was reported yet.
    pub fn new(now: u64) -> (k: Self)
        requires
            now + TIMEOUT_MS <= u64::MAX,
        ensures
            k.quit_time == Some((now + TIMEOUT_MS) as u64),
            k.quit_time_sent is None,
    {
        Keepalive { quit_time: Some(now + TIMEOUT_MS), quit_time_sent: None }
    }

    /// Handles a wake-up at `now`. Activity pushes the sleep time to
    /// `TIMEOUT_MS` from now. Once the sleep time is reached the device is
    /// put to sleep; otherwise the remaining time is reported when it was
    /// not reported yet, or at most every `REMAINING_TIME_TRIGGER_MS`.
    pub fn step(&mut self, activity: bool, now: u64) -> (a: KeepaliveAction)
        requires
            now + TIMEOUT_MS <= u64::MAX,
            old(self).quit_time_sent matches Some(s) ==> s + REMAINING_TIME_TRIGGER_MS <= u64::MAX,
        ensures
            (*final(self), a) == spec_keepalive_step(*old(self), activity, now),
    {
        if activity {
            self.quit_time = Some(now + TIMEOUT_MS);
        }
        let due = match self.quit_time {
            Some(q) => now >= q,
            None => false,
        };
        if due {
            return KeepaliveAction::Quit;
        }
        let report = self.quit_time.is_some() != self.quit_time_sent.is_some() || match self.quit_time_sent {
            Some(s) => s + REMAINING_TIME_TRIGGER_MS <= now,
            None => false,
        };
        if report {
            self.quit_time_sent = Some(now);
            let remaining = match self.quit_time {
                Some(q) => RemainingTime::Duration(q - now),
                None => RemainingTime::Indefinite,
            };
            KeepaliveAction::Remaining(remaining)
        } else {
            KeepaliveAction::Nothing
        }
    }
}

/// Law: activity keeps the device awake: a wake-up with activity never puts
/// it to sleep, and any time it reports is at most `TIMEOUT_MS`.
pub proof fn law_activity_keeps_awake(k: Keepalive, now: u64)
    requires
        now + TIMEOUT_MS <= u64::MAX,
    ensures
        spec_keepalive_step(k, true, now).1 != KeepaliveAction::Quit,
        spec_keepalive_step(k, true, now).1 matches KeepaliveAction::Remaining(RemainingTime::Duration(d))
            ==> d == TIMEOUT_MS,
        spec_keepalive_step(k, true, now).0.quit_time == Some((now + TIMEOUT_MS) as u64),
{
}

/// Law: without activity, the device is put to sleep exactly once the sleep
/// time is reached, and the sleep time does not move.
pub proof fn law_sleeps_when_due(k: Keepalive, now: u64)
    requires
        k.quit_time is Some,
    ensures
        (spec_keepalive_step(k, false, now).1 == KeepaliveAction::Quit) <==> now >= k.quit_time.unwrap(),
        spec_keepalive_step(k, false, now).0.quit_time == k.quit_time,
{
}

/// Law: the remaining time is not reported again within
/// `REMAINING_TIME_TRIGGER_MS` of the last report, unless the sleep time
/// appeared or disappeared.
pub proof fn law_reports_throttled(k: Keepalive, now: u64)
    requires
        k.quit_time is Some,
        k.quit_time_sent matches Some(s) && now < s + REMAINING_TIME_TRIGGER_MS,
    ensures
        !(spec_keepalive_step(k, false, now).1 is Remaining),
{
}

} // verus!
