use vstd::prelude::*;

verus! {

/// The number of measurement periods that statistics are kept for.
pub const FLOW_STATS_INSTANCES: usize = 8;

/// The length in seconds of measurement period `index`: 5 and 30 minutes,
/// 1, 6, 12 and 24 hours, 7 and 30 days.
pub open spec fn spec_duration(index: int) -> u64 {
    if index == 0 {
        300
    } else if index == 1 {
        1800
    } else if index == 2 {
        3600
    } else if index == 3 {
        21600
    } else if index == 4 {
        43200
    } else if index == 5 {
        86400
    } else if index == 6 {
        604800
    } else {
        2592000
    }
}

/// The length in seconds of measurement period `index`.
pub fn duration(index: usize) -> (d: u64)
    requires
        index < FLOW_STATS_INSTANCES,
    ensures
        d == spec_duration(index as int),
        d > 0,
{
    if index == 0 {
        300
    } else if index == 1 {
        1800
    } else if index == 2 {
        3600
    } else if index == 3 {
        21600
    } else if index == 4 {
        43200
    } else if index == 5 {
        86400
    } else if index == 6 {
        604800
    } else {
        2592000
    }
}

/// The meter count at a moment.
#[derive(Copy, Clone, Debug, PartialEq, Eq, Structural)]
pub struct FlowSnapshot {
    pub time_secs: u64,
    pub edges_count: u64,
}

/// The start of the measurement period of length `duration` that `time` falls in.
pub open spec fn aligned_start(time: u64, duration: u64) -> int {
    (time / duration) * duration
}

/// Whether a measurement that started at `start` is due at `current`: a
/// full period has passed since the start of the period the start fell in.
pub open spec fn spec_measurement_due(start: u64, current: u64, duration: u64) -> bool {
    current - aligned_start(start, duration) >= duration
}

impl FlowSnapshot {
    /// The snapshot of a count at a time.
    pub fn new(current_time_secs: u64, current_edges_count: u64) -> (s: Self)
        ensures
            s.time_secs == current_time_secs,
            s.edges_count == current_edges_count,
    {
        FlowSnapshot { time_secs: current_time_secs, edges_count: current_edges_count }
    }

    /// The time of the snapshot, in seconds.
    pub fn time_secs(&self) -> (t: u64)
        ensures
            t == self.time_secs,
    {
        self.time_secs
    }

    /// The count of the snapshot.
    pub fn edges_count(&self) -> (c: u64)
        ensures
            c == self.edges_count,
    {
        self.edges_count
    }

    /// Whether a measurement of the given length that started at this
    /// snapshot is due at `current_time_secs`.
    pub fn is_measurement_due(&self, measurement_duration_secs: u64, current_time_secs: u64) -> (b:
        bool)
        requires
            measurement_duration_secs > 0,
            aligned_start(self.time_secs, measurement_duration_secs) <= current_time_secs,
        ensures
            b == spec_measurement_due(
                self.time_secs,
                current_time_secs,
                measurement_duration_secs,
            ),
    {
        Self::is_aligned_measurement_due(
            self.time_secs,
            current_time_secs,
            measurement_duration_secs,
        )
    }

    /// Whether more than one pulse came since this snapshot.
    pub fn flow_detected(&self, current_edges_count: u64) -> (b: bool)
        requires
            self.edges_count <= current_edges_count,
        ensures
            b == (current_edges_count - self.edges_count > 1),
    {
        self.statistics(current_edges_count) > 1
    }

    /// The pulses counted since this snapshot.
    pub fn statistics(&self, current_edges_count: u64) -> (n: u64)
        requires
            self.edges_count <= current_edges_count,
        ensures
            n == current_edges_count - self.edges_count,
    {
        current_edges_count - self.edges_count
    }

    /// Whether a full period has passed since `start_time_secs`.
    pub fn is_nonaligned_measurement_due(
        start_time_secs: u64,
        current_time_secs: u64,
        measurement_duration_secs: u64,
    ) -> (b: bool)
        requires
            start_time_secs <= current_time_secs,
        ensures
            b == (current_time_secs - start_time_secs >= measurement_duration_secs),
    {
        current_time_secs - start_time_secs >= measurement_duration_secs
    }

    /// Whether a full period has passed since the start of the period that
    /// `start_time_secs` falls in.
    pub fn is_aligned_measurement_due(
        start_time_secs: u64,
        current_time_secs: u64,
        measurement_duration_secs: u64,
    ) -> (b: bool)
        requires
            measurement_duration_secs > 0,
            aligned_start(start_time_secs, measurement_duration_secs) <= current_time_secs,
        ensures
            b == spec_measurement_due(
                start_time_secs,
                current_time_secs,
                measurement_duration_secs,
            ),
    {
        proof {
            lemma_aligned_start(start_time_secs, measurement_duration_secs);
        }
        let start_time_secs = start_time_secs / measurement_duration_secs
            * measurement_duration_secs;
        Self::is_nonaligned_measurement_due(
            start_time_secs,
            current_time_secs,
            measurement_duration_secs,
        )
    }
}

/// The start of a period lies at or before the time, less than a period before it.
pub proof fn lemma_aligned_start(time: u64, duration: u64)
    requires
        duration > 0,
    ensures
        0 <= aligned_start(time, duration) <= time,
        time - aligned_start(time, duration) < duration,
{
    vstd::arithmetic::div_mod::lemma_fundamental_div_mod(time as int, duration as int);
    assert(0 <= (time / duration) * duration) by (nonlinear_arith)
        requires
            duration > 0,
    ;
}

/// The counts at the start and at the end of a measurement period.
#[derive(Copy, Clone, Debug, PartialEq, Eq, Structural)]
pub struct FlowMeasurement {
    start: FlowSnapshot,
    end: FlowSnapshot,
}

impl FlowMeasurement {
    /// The snapshot at the start.
    pub closed spec fn start_snapshot(&self) -> FlowSnapshot {
        self.start
    }

    /// The snapshot at the end.
    pub closed spec fn end_snapshot(&self) -> FlowSnapshot {
        self.end
    }

    /// The measurement between two snapshots.
    pub fn new(start: FlowSnapshot, end: FlowSnapshot) -> (m: Self)
        ensures
            m.start_snapshot() == start,
            m.end_snapshot() == end,
    {
        FlowMeasurement { start, end }
    }

    /// The snapshot at the start.
    pub fn start(&self) -> (s: &FlowSnapshot)
        ensures
            *s == self.start_snapshot(),
    {
        &self.start
    }

    /// The snapshot at the end.
    pub fn end(&self) -> (s: &FlowSnapshot)
        ensures
            *s == self.end_snapshot(),
    {
        &self.end
    }
}

/// The flow statistics: the count at installation, the latest count, and for
/// each measurement period the snapshot it started at and the last full measurement.
#[derive(Copy, Clone, Debug)]
pub struct WaterMeterStatsState {
    pub installation: FlowSnapshot,
    pub most_recent: FlowSnapshot,
    pub snapshots: [FlowSnapshot; 8],
    pub measurements: [Option<FlowMeasurement>; 8],
}

/// Whether measurement period `i` is due at `now`.
pub open spec fn period_due(state: WaterMeterStatsState, i: int, now: u64) -> bool {
    spec_measurement_due(state.snapshots@[i].time_secs, now, spec_duration(i))
}

/// Whether `now` is not before the start of any period a snapshot falls in,
/// so that the statistics can be updated at `now`.
pub open spec fn can_update_at(state: WaterMeterStatsState, now: u64) -> bool {
    forall|i: int|
        0 <= i < 8 ==> aligned_start(#[trigger] state.snapshots@[i].time_secs, spec_duration(i))
            <= now
}

/// Whether every recorded measurement spans a positive time.
pub open spec fn measurements_forward(state: WaterMeterStatsState) -> bool {
    forall|i: int|
        0 <= i < 8 ==> (#[trigger] state.measurements@[i] matches Some(m)
            ==> m.start_snapshot().time_secs < m.end_snapshot().time_secs)
}

/// The snapshot that period `i` starts from after an update at `now`.
pub open spec fn updated_snapshot(old: WaterMeterStatsState, i: int, recent: FlowSnapshot) -> FlowSnapshot {
    if period_due(old, i, recent.time_secs) {
        recent
    } else {
        old.snapshots@[i]
    }
}

/// Whether `m` is the measurement that period `i` holds after an update at
/// the time of `recent`: the completed period where it was due, else the one it held.
pub open spec fn updated_measurement(
    old: WaterMeterStatsState,
    i: int,
    recent: FlowSnapshot,
    m: Option<FlowMeasurement>,
) -> bool {
    if period_due(old, i, recent.time_secs) {
        &&& m matches Some(m)
        &&& m.start_snapshot() == old.snapshots@[i]
        &&& m.end_snapshot() == recent
    } else {
        m == old.measurements@[i]
    }
}

/// The statistics after an update with the count `edges_count` at `now`.
pub open spec fn spec_updated(
    old: WaterMeterStatsState,
    new: WaterMeterStatsState,
    edges_count: u64,
    now: u64,
) -> bool {
    let recent = FlowSnapshot { time_secs: now, edges_count };
    &&& new.installation == old.installation
    &&& new.most_recent == recent
    &&& forall|i: int|
        0 <= i < 8 ==> #[trigger] new.snapshots@[i] == updated_snapshot(old, i, recent)
    &&& forall|i: int|
        0 <= i < 8 ==> updated_measurement(old, i, recent, #[trigger] new.measurements@[i])
}

/// Whether an update changed anything: the latest snapshot, or some period.
pub open spec fn spec_update_changed(old: WaterMeterStatsState, edges_count: u64, now: u64) -> bool {
    old.most_recent != (FlowSnapshot { time_secs: now, edges_count })
        || exists|i: int| 0 <= i < 8 && #[trigger] period_due(old, i, now)
}

impl WaterMeterStatsState {
    /// Statistics with every snapshot at time 0 and count 0 and no measurement.
    pub fn new() -> (s: Self)
        ensures
            s.installation == (FlowSnapshot { time_secs: 0, edges_count: 0 }),
            s.most_recent == (FlowSnapshot { time_secs: 0, edges_count: 0 }),
            forall|i: int|
                0 <= i < 8 ==> #[trigger] s.snapshots@[i] == (FlowSnapshot {
                    time_secs: 0,
                    edges_count: 0,
                }),
            forall|i: int| 0 <= i < 8 ==> #[trigger] s.measurements@[i] is None,
    {
        let zero = FlowSnapshot { time_secs: 0, edges_count: 0 };
        WaterMeterStatsState {
            installation: zero,
            most_recent: zero,
            snapshots: [zero; 8],
            measurements: [None; 8],
        }
    }

    /// Whether the statistics can be updated at `now`: it is not before the
    /// start of the period that any snapshot falls in.
    pub fn can_update(&self, now_secs: u64) -> (b: bool)
        ensures
            b == can_update_at(*self, now_secs),
    {
        let mut index: usize = 0;
        while index < FLOW_STATS_INSTANCES
            invariant
                0 <= index <= 8,
                forall|i: int|
                    0 <= i < index ==> aligned_start(
                        #[trigger] self.snapshots@[i].time_secs,
                        spec_duration(i),
                    ) <= now_secs,
            decreases 8 - index,
        {
            let d = duration(index);
            let t = self.snapshots[index].time_secs;
            let start = t / d * d;
            assert(start == aligned_start(t, d)) by (nonlinear_arith)
                requires
                    start == t / d * d,
            ;
            if start > now_secs {
                return false;
            }
            index = index + 1;
        }
        true
    }

    /// Records the count `edges_count` at `now`: it becomes the latest
    /// snapshot, and every period that is due gets its measurement from the
    /// snapshot it started at to now, and starts again now. Gives whether
    /// anything changed.
    pub fn update(&mut self, edges_count: u64, now_secs: u64) -> (updated: bool)
        requires
            can_update_at(*old(self), now_secs),
        ensures
            spec_updated(*old(self), *final(self), edges_count, now_secs),
            updated == spec_update_changed(*old(self), edges_count, now_secs),
    {
        let most_recent = FlowSnapshot::new(now_secs, edges_count);
        let mut updated = !(self.most_recent.time_secs == most_recent.time_secs
            && self.most_recent.edges_count == most_recent.edges_count);
        if updated {
            self.most_recent = most_recent;
        }
        let ghost old_state = *old(self);
        let mut index: usize = 0;
        while index < FLOW_STATS_INSTANCES
            invariant
                0 <= index <= 8,
                can_update_at(old_state, now_secs),
                self.installation == old_state.installation,
                self.most_recent == most_recent,
                most_recent == (FlowSnapshot { time_secs: now_secs, edges_count }),
                updated == (old_state.most_recent != most_recent || exists|i: int|
                    0 <= i < index && #[trigger] period_due(old_state, i, now_secs)),
                forall|i: int|
                    0 <= i < index ==> #[trigger] self.snapshots@[i] == updated_snapshot(
                        old_state,
                        i,
                        most_recent,
                    ),
                forall|i: int|
                    0 <= i < index ==> updated_measurement(
                        old_state,
                        i,
                        most_recent,
                        #[trigger] self.measurements@[i],
                    ),
                forall|i: int|
                    index <= i < 8 ==> #[trigger] self.snapshots@[i] == old_state.snapshots@[i],
                forall|i: int|
                    index <= i < 8 ==> #[trigger] self.measurements@[i]
                        == old_state.measurements@[i],
            decreases 8 - index,
        {
            let d = duration(index);
            let snapshot = self.snapshots[index];
            assert(aligned_start(old_state.snapshots@[index as int].time_secs, spec_duration(index as int)) <= now_secs);
            let ghost snaps = self.snapshots@;
            let ghost meas = self.measurements@;
            if snapshot.is_measurement_due(d, now_secs) {
                let prev = snapshot;
                self.snapshots[index] = self.most_recent;
                let m = FlowMeasurement::new(prev, self.most_recent);
                self.measurements[index] = Some(m);
                assert(self.snapshots@ =~= snaps.update(index as int, most_recent));
                assert(self.measurements@ =~= meas.update(index as int, Some(m)));
                updated = true;
                assert(period_due(old_state, index as int, now_secs));
            }
            index = index + 1;
        }
        updated
    }
}

impl Default for WaterMeterStatsState {
    fn default() -> (s: Self)
        ensures
            s.installation == (FlowSnapshot { time_secs: 0, edges_count: 0 }),
            s.most_recent == (FlowSnapshot { time_secs: 0, edges_count: 0 }),
            forall|i: int|
                0 <= i < 8 ==> #[trigger] s.snapshots@[i] == (FlowSnapshot {
                    time_secs: 0,
                    edges_count: 0,
                }),
            forall|i: int| 0 <= i < 8 ==> #[trigger] s.measurements@[i] is None,
    {
        WaterMeterStatsState::new()
    }
}


/// Law: after an update at `now`, the statistics can be updated at any later
/// time, and an update with the same count at the same time changes nothing.
pub proof fn law_update_settles(
    old: WaterMeterStatsState,
    new: WaterMeterStatsState,
    edges_count: u64,
    now: u64,
    later: u64,
)
    requires
        can_update_at(old, now),
        spec_updated(old, new, edges_count, now),
        now <= later,
    ensures
        can_update_at(new, later),
        !spec_update_changed(new, edges_count, now),
{
    let recent = FlowSnapshot { time_secs: now, edges_count };
    assert forall|i: int| 0 <= i < 8 implies aligned_start(
        #[trigger] new.snapshots@[i].time_secs,
        spec_duration(i),
    ) <= later && !period_due(new, i, now) by {
        assert(new.snapshots@[i] == updated_snapshot(old, i, recent));
        lemma_aligned_start(new.snapshots@[i].time_secs, spec_duration(i));
        if !period_due(old, i, now) {
            assert(aligned_start(old.snapshots@[i].time_secs, spec_duration(i)) <= now);
        }
    }
    assert(!exists|i: int| 0 <= i < 8 && #[trigger] period_due(new, i, now)) by {
        assert forall|i: int| 0 <= i < 8 implies !#[trigger] period_due(new, i, now) by {
            assert(!period_due(new, i, now) && aligned_start(new.snapshots@[i].time_secs, spec_duration(i)) <= later);
        }
    }
}

/// Law: updating twice with the same count at the same time is the same as updating once.
pub proof fn law_update_idempotent(
    old: WaterMeterStatsState,
    new: WaterMeterStatsState,
    again: WaterMeterStatsState,
    edges_count: u64,
    now: u64,
)
    requires
        can_update_at(old, now),
        spec_updated(old, new, edges_count, now),
        spec_updated(new, again, edges_count, now),
    ensures
        again.installation == new.installation,
        again.most_recent == new.most_recent,
        again.snapshots@ == new.snapshots@,
        again.measurements@ == new.measurements@,
{
    law_update_settles(old, new, edges_count, now, now);
    let recent = FlowSnapshot { time_secs: now, edges_count };
    assert forall|i: int| 0 <= i < 8 implies #[trigger] again.snapshots@[i] == new.snapshots@[i]
        && again.measurements@[i] == new.measurements@[i] by {
        assert(!period_due(new, i, now));
        assert(again.snapshots@[i] == updated_snapshot(new, i, recent));
        assert(updated_measurement(new, i, recent, again.measurements@[i]));
    }
    assert(again.snapshots@ =~= new.snapshots@);
    assert(again.measurements@ =~= new.measurements@);
}

/// Law: updates keep every recorded measurement spanning a positive time.
pub proof fn law_update_keeps_measurements_forward(
    old: WaterMeterStatsState,
    new: WaterMeterStatsState,
    edges_count: u64,
    now: u64,
)
    requires
        measurements_forward(old),
        can_update_at(old, now),
        spec_updated(old, new, edges_count, now),
    ensures
        measurements_forward(new),
{
    let recent = FlowSnapshot { time_secs: now, edges_count };
    assert forall|i: int| 0 <= i < 8 implies (#[trigger] new.measurements@[i] matches Some(m)
        ==> m.start_snapshot().time_secs < m.end_snapshot().time_secs) by {
        assert(updated_measurement(old, i, recent, new.measurements@[i]));
        lemma_aligned_start(old.snapshots@[i].time_secs, spec_duration(i));
        if !period_due(old, i, now) {
            assert(old.measurements@[i] == new.measurements@[i]);
        }
    }
}

/// Law: fresh statistics hold no measurement and can be updated at any time.
pub proof fn law_new_state_valid(s: WaterMeterStatsState, now: u64)
    requires
        forall|i: int|
            0 <= i < 8 ==> #[trigger] s.snapshots@[i] == (FlowSnapshot {
                time_secs: 0,
                edges_count: 0,
            }),
        forall|i: int| 0 <= i < 8 ==> #[trigger] s.measurements@[i] is None,
    ensures
        can_update_at(s, now),
        measurements_forward(s),
{
    assert forall|i: int| 0 <= i < 8 implies aligned_start(
        #[trigger] s.snapshots@[i].time_secs,
        spec_duration(i),
    ) <= now by {
        lemma_aligned_start(s.snapshots@[i].time_secs, spec_duration(i));
    }
}

/// Law: the measurement periods last 5 and 30 minutes, 1, 6, 12 and 24
/// hours, 7 and 30 days.
pub proof fn law_period_lengths(i: int)
    requires
        0 <= i < 8,
    ensures
        spec_duration(i) == seq![300u64, 1800, 3600, 21600, 43200, 86400, 604800, 2592000][i],
{
}

/// Law: from statistics whose periods all started at time 0 with no
/// measurement, an update at `now` records a measurement for exactly the
/// periods whose length has passed: 5 and 30 minutes, 1, 6, 12 and 24 hours,
/// 7 and 30 days; the other periods keep their start and stay without one.
pub proof fn law_first_measurements(
    old: WaterMeterStatsState,
    new: WaterMeterStatsState,
    edges_count: u64,
    now: u64,
    i: int,
)
    requires
        forall|j: int| 0 <= j < 8 ==> (#[trigger] old.snapshots@[j]).time_secs == 0,
        forall|j: int| 0 <= j < 8 ==> (#[trigger] old.measurements@[j]) is None,
        spec_updated(old, new, edges_count, now),
        0 <= i < 8,
    ensures
        (new.measurements@[i] is Some) <==> now >= seq![300u64, 1800, 3600, 21600, 43200, 86400, 604800, 2592000][i],
        now < seq![300u64, 1800, 3600, 21600, 43200, 86400, 604800, 2592000][i] ==> new.snapshots@[i]
            == old.snapshots@[i],
        now >= seq![300u64, 1800, 3600, 21600, 43200, 86400, 604800, 2592000][i] ==> new.snapshots@[i]
            == (FlowSnapshot { time_secs: now, edges_count }),
{
    law_period_lengths(i);
    let d = spec_duration(i);
    assert(d > 0);
    assert(aligned_start(0, d) == 0) by (nonlinear_arith)
        requires
            d > 0,
    ;
    assert(old.snapshots@[i].time_secs == 0);
    assert(new.measurements@[i] == new.measurements@[i]);
    assert(new.snapshots@[i] == new.snapshots@[i]);
}

} // verus!
