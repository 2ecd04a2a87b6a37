use vstd::prelude::*;

use crate::water_meter_stats::{aligned_start, lemma_aligned_start, spec_measurement_due, FlowMeasurement, FlowSnapshot};

verus! {

/// The number of measurement periods of the statistics kept next to the ULP pulse counter.
pub const ULP_FLOW_STATS_INSTANCES: usize = 10;

/// The length in seconds of period `index`: 1, 2, 5 and 30 minutes, 1, 6,
/// 12 and 24 hours, 7 and 30 days.
pub open spec fn spec_ulp_duration(index: int) -> u64 {
    if index == 0 {
        60
    } else if index == 1 {
        120
    } else if index == 2 {
        300
    } else if index == 3 {
        1800
    } else if index == 4 {
        3600
    } else if index == 5 {
        21600
    } else if index == 6 {
        43200
    } else if index == 7 {
        86400
    } else if index == 8 {
        604800
    } else {
        2592000
    }
}

/// The length in seconds of period `index`.
pub fn ulp_duration(index: usize) -> (d: u64)
    requires
        index < ULP_FLOW_STATS_INSTANCES,
    ensures
        d == spec_ulp_duration(index as int),
        d > 0,
{
    if index == 0 {
        60
    } else if index == 1 {
        120
    } else if index == 2 {
        300
    } else if index == 3 {
        1800
    } else if index == 4 {
        3600
    } else if index == 5 {
        21600
    } else if index == 6 {
        43200
    } else if index == 7 {
        86400
    } else if index == 8 {
        604800
    } else {
        2592000
    }
}

/// The words exchanged with the ULP pulse counter program: how many edges
/// debounce a pulse, how many pulses wake the main core, and the pulses counted.
#[derive(Copy, Clone, Debug, PartialEq, Eq, Structural)]
pub struct Data {
    pub debounce_edges: u16,
    pub wakeup_edges: u16,
    pub edges_count: u16,
}

impl Default for Data {
    fn default() -> (d: Self)
        ensures
            d.debounce_edges == 5,
            d.wakeup_edges == 0,
            d.edges_count == 0,
    {
        Data { debounce_edges: 5, wakeup_edges: 0, edges_count: 0 }
    }
}

/// Flow statistics fed by the ULP pulse counter.
#[derive(Copy, Clone, Debug)]
pub struct WaterMeterStats {
    pub installation: FlowSnapshot,
    pub watch_start: Option<FlowSnapshot>,
    pub most_recent: FlowSnapshot,
    pub snapshots: [FlowSnapshot; 10],
    pub measurements: [Option<FlowMeasurement>; 10],
}

/// Whether period `i` is due at `now`.
pub open spec fn ulp_period_due(stats: WaterMeterStats, i: int, now: u64) -> bool {
    spec_measurement_due(stats.snapshots@[i].time_secs, now, spec_ulp_duration(i))
}

/// Whether the statistics can be updated at `now`: it is not before the
/// start of the period any snapshot falls in.
pub open spec fn ulp_can_update_at(stats: WaterMeterStats, now: u64) -> bool {
    forall|i: int|
        0 <= i < 10 ==> aligned_start(#[trigger] stats.snapshots@[i].time_secs, spec_ulp_duration(i))
            <= now
}

/// The snapshot that period `i` starts from after an update with `recent`.
pub open spec fn ulp_updated_snapshot(old: WaterMeterStats, i: int, recent: FlowSnapshot) -> FlowSnapshot {
    if ulp_period_due(old, i, recent.time_secs) {
        recent
    } else {
        old.snapshots@[i]
    }
}

/// Whether `m` is what period `i` holds after an update with `recent`.
pub open spec fn ulp_updated_measurement(
    old: WaterMeterStats,
    i: int,
    recent: FlowSnapshot,
    m: Option<FlowMeasurement>,
) -> bool {
    if ulp_period_due(old, i, recent.time_secs) {
        &&& m matches Some(m)
        &&& m.start_snapshot() == old.snapshots@[i]
        &&& m.end_snapshot() == recent
    } else {
        m == old.measurements@[i]
    }
}

impl WaterMeterStats {
    /// The words to hand to the pulse counter when taking its count: the
    /// main core is woken after 2 pulses while a flow watch runs, else never.
    pub fn swap_request(&self) -> (d: Data)
        ensures
            d.debounce_edges == 5,
            d.edges_count == 0,
            d.wakeup_edges == if self.watch_start is Some {
                2u16
            } else {
                0u16
            },
    {
        let wakeup_edges: u16 = match self.watch_start {
            Some(_) => 2,
            None => 0,
        };
        Data { debounce_edges: 5, wakeup_edges, edges_count: 0 }
    }

    /// Adds the `pulses` that the counter gave back to the latest count, at
    /// `now`, and closes every period that is due. Gives whether any period
    /// was closed.
    pub fn update(&mut self, pulses: u16, now: u64) -> (updated: bool)
        requires
            ulp_can_update_at(*old(self), now),
            old(self).most_recent.edges_count + pulses <= u32::MAX,
        ensures
            ({
                let recent = FlowSnapshot {
                    time_secs: now,
                    edges_count: (old(self).most_recent.edges_count + pulses) as u64,
                };
                &&& final(self).installation == old(self).installation
                &&& final(self).watch_start == old(self).watch_start
                &&& final(self).most_recent == recent
                &&& forall|i: int|
                    0 <= i < 10 ==> #[trigger] final(self).snapshots@[i] == ulp_updated_snapshot(
                        *old(self),
                        i,
                        recent,
                    )
                &&& forall|i: int|
                    0 <= i < 10 ==> ulp_updated_measurement(
                        *old(self),
                        i,
                        recent,
                        #[trigger] final(self).measurements@[i],
                    )
                &&& updated == exists|i: int| 0 <= i < 10 && #[trigger] ulp_period_due(*old(self), i, now)
            }),
    {
        let ghost old_state = *old(self);
        let most_recent = FlowSnapshot::new(now, self.most_recent.edges_count + pulses as u64);
        self.most_recent = most_recent;
        let mut updated = false;
        let mut index: usize = 0;
        while index < ULP_FLOW_STATS_INSTANCES
            invariant
                0 <= index <= 10,
                ulp_can_update_at(old_state, now),
                self.installation == old_state.installation,
                self.watch_start == old_state.watch_start,
                self.most_recent == most_recent,
                most_recent.time_secs == now,
                updated == exists|i: int| 0 <= i < index && #[trigger] ulp_period_due(old_state, i, now),
                forall|i: int|
                    0 <= i < index ==> #[trigger] self.snapshots@[i] == ulp_updated_snapshot(
                        old_state,
                        i,
                        most_recent,
                    ),
                forall|i: int|
                    0 <= i < index ==> ulp_updated_measurement(
                        old_state,
                        i,
                        most_recent,
                        #[trigger] self.measurements@[i],
                    ),
                forall|i: int|
                    index <= i < 10 ==> #[trigger] self.snapshots@[i] == old_state.snapshots@[i],
                forall|i: int|
                    index <= i < 10 ==> #[trigger] self.measurements@[i]
                        == old_state.measurements@[i],
            decreases 10 - index,
        {
            let d = ulp_duration(index);
            let snapshot = self.snapshots[index];
            assert(aligned_start(old_state.snapshots@[index as int].time_secs, spec_ulp_duration(index as int)) <= now);
            let ghost snaps = self.snapshots@;
            let ghost meas = self.measurements@;
            if snapshot.is_measurement_due(d, now) {
                let prev = snapshot;
                self.snapshots[index] = self.most_recent;
                let m = FlowMeasurement::new(prev, self.most_recent);
                self.measurements[index] = Some(m);
                assert(self.snapshots@ =~= snaps.update(index as int, most_recent));
                assert(self.measurements@ =~= meas.update(index as int, Some(m)));
                updated = true;
                assert(ulp_period_due(old_state, index as int, now));
            }
            index = index + 1;
        }
        updated
    }
}

/// Law: after an update at `now` the statistics can be updated at any later
/// time, and no period is due any more at `now`.
pub proof fn law_ulp_update_settles(
    old: WaterMeterStats,
    new: WaterMeterStats,
    now: u64,
    later: u64,
)
    requires
        ulp_can_update_at(old, now),
        new.most_recent.time_secs == now,
        forall|i: int|
            0 <= i < 10 ==> #[trigger] new.snapshots@[i] == ulp_updated_snapshot(
                old,
                i,
                new.most_recent,
            ),
        now <= later,
    ensures
        ulp_can_update_at(new, later),
        forall|i: int| 0 <= i < 10 ==> !#[trigger] ulp_period_due(new, i, now),
{
    assert forall|i: int| 0 <= i < 10 implies aligned_start(
        #[trigger] new.snapshots@[i].time_secs,
        spec_ulp_duration(i),
    ) <= later && !ulp_period_due(new, i, now) by {
        lemma_aligned_start(new.snapshots@[i].time_secs, spec_ulp_duration(i));
        if !ulp_period_due(old, i, now) {
            assert(aligned_start(old.snapshots@[i].time_secs, spec_ulp_duration(i)) <= now);
        }
    }
}

} // verus!
