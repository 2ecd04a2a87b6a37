use vstd::prelude::*;

use crate::battery::BatteryState;
use crate::keepalive::RemainingTime;
use crate::valve::ValveState;
use crate::water_meter::WaterMeterState;

verus! {

/// The pages the screen shows.
#[derive(Copy, Clone, Debug, PartialEq, Eq, Structural)]
pub enum Page {
    Summary,
    Battery,
}

impl Page {
    /// The page shown first.
    pub fn new() -> (p: Self)
        ensures
            p == Page::Summary,
    {
        Page::Summary
    }

    /// The page before this one (the pages go round).
    pub fn prev(&self) -> (p: Self)
        ensures
            p == self.spec_prev(),
            p != *self,
    {
        match self {
            Page::Summary => Page::Battery,
            Page::Battery => Page::Summary,
        }
    }

    /// The page after this one (the pages go round).
    pub fn next(&self) -> (p: Self)
        ensures
            p == self.spec_next(),
            p != *self,
    {
        match self {
            Page::Summary => Page::Battery,
            Page::Battery => Page::Summary,
        }
    }
}

impl Default for Page {
    fn default() -> (p: Self)
        ensures
            p == Page::Summary,
    {
        Page::new()
    }
}

/// The data the screen shows, each of which can change between two draws.
#[derive(Copy, Clone, Debug, PartialEq, Eq, Structural)]
pub enum DataSource {
    Page,
    Valve,
    WM,
    WMStats,
    Battery,
    RemainingTime,
}

/// A set of data sources: those that changed since the last draw.
#[derive(Copy, Clone, Debug, PartialEq, Eq, Structural)]
pub struct Changeset {
    page: bool,
    valve: bool,
    wm: bool,
    wm_stats: bool,
    battery: bool,
    remaining_time: bool,
}

impl Changeset {
    /// Whether the set holds a source.
    pub closed spec fn has(&self, source: DataSource) -> bool {
        match source {
            DataSource::Page => self.page,
            DataSource::Valve => self.valve,
            DataSource::WM => self.wm,
            DataSource::WMStats => self.wm_stats,
            DataSource::Battery => self.battery,
            DataSource::RemainingTime => self.remaining_time,
        }
    }

    /// The empty set.
    pub fn empty() -> (c: Self)
        ensures
            forall|s: DataSource| !#[trigger] c.has(s),
    {
        Changeset {
            page: false,
            valve: false,
            wm: false,
            wm_stats: false,
            battery: false,
            remaining_time: false,
        }
    }

    /// The set of every source.
    pub fn all() -> (c: Self)
        ensures
            forall|s: DataSource| #[trigger] c.has(s),
    {
        Changeset {
            page: true,
            valve: true,
            wm: true,
            wm_stats: true,
            battery: true,
            remaining_time: true,
        }
    }

    /// Whether the set holds a source.
    pub fn contains(&self, source: DataSource) -> (b: bool)
        ensures
            b == self.has(source),
    {
        match source {
            DataSource::Page => self.page,
            DataSource::Valve => self.valve,
            DataSource::WM => self.wm,
            DataSource::WMStats => self.wm_stats,
            DataSource::Battery => self.battery,
            DataSource::RemainingTime => self.remaining_time,
        }
    }

    /// Adds a source.
    pub fn insert(&mut self, source: DataSource)
        ensures
            forall|s: DataSource| #[trigger] final(self).has(s) == (old(self).has(s) || s == source),
    {
        match source {
            DataSource::Page => self.page = true,
            DataSource::Valve => self.valve = true,
            DataSource::WM => self.wm = true,
            DataSource::WMStats => self.wm_stats = true,
            DataSource::Battery => self.battery = true,
            DataSource::RemainingTime => self.remaining_time = true,
        }
    }
}

/// What the screen shows, and what of it changed since the last draw.
#[derive(Copy, Clone, Debug, PartialEq, Eq, Structural)]
pub struct ScreenState {
    pub changeset: Changeset,
    pub active_page: Page,
    pub valve: Option<ValveState>,
    pub wm: WaterMeterState,
    pub battery: BatteryState,
    pub remaining_time: Option<RemainingTime>,
}

/// What the screen task reacts to: a button press, or new data.
#[derive(Copy, Clone, Debug, PartialEq, Eq, Structural)]
pub enum ScreenEvent {
    Button1,
    Button2,
    Button3,
    Valve(Option<ValveState>),
    WaterMeter(WaterMeterState),
    Battery(BatteryState),
    RemainingTime(RemainingTime),
}

/// The data source that an event changes, if any.
pub open spec fn event_source(event: ScreenEvent) -> Option<DataSource> {
    match event {
        ScreenEvent::Button1 => Some(DataSource::Page),
        ScreenEvent::Button2 => Some(DataSource::Page),
        ScreenEvent::Button3 => None,
        ScreenEvent::Valve(_) => Some(DataSource::Valve),
        ScreenEvent::WaterMeter(_) => Some(DataSource::WM),
        ScreenEvent::Battery(_) => Some(DataSource::Battery),
        ScreenEvent::RemainingTime(_) => Some(DataSource::RemainingTime),
    }
}

impl ScreenState {
    /// The first state: the summary page, nothing known, and everything to draw.
    pub fn new() -> (s: Self)
        ensures
            forall|d: DataSource| #[trigger] s.changeset.has(d),
            s.active_page == Page::Summary,
            s.valve is None,
            s.wm == (WaterMeterState { edges_count: 0, armed: false, leaking: false }),
            s.battery == (BatteryState { voltage: None, powered: None }),
            s.remaining_time is None,
    {
        ScreenState {
            changeset: Changeset::all(),
            active_page: Page::new(),
            valve: None,
            wm: WaterMeterState::new(),
            battery: BatteryState::new(),
            remaining_time: None,
        }
    }

    /// The valve state, where it changed since the last draw.
    pub fn valve(&self) -> (v: Option<&Option<ValveState>>)
        ensures
            v == if self.changeset.has(DataSource::Valve) {
                Some(&self.valve)
            } else {
                None
            },
    {
        if self.changeset.contains(DataSource::Valve) {
            Some(&self.valve)
        } else {
            None
        }
    }

    /// The meter state, where it changed since the last draw.
    pub fn wm(&self) -> (v: Option<&WaterMeterState>)
        ensures
            v == if self.changeset.has(DataSource::WM) {
                Some(&self.wm)
            } else {
                None
            },
    {
        if self.changeset.contains(DataSource::WM) {
            Some(&self.wm)
        } else {
            None
        }
    }

    /// The battery state, where it changed since the last draw.
    pub fn battery(&self) -> (v: Option<&BatteryState>)
        ensures
            v == if self.changeset.has(DataSource::Battery) {
                Some(&self.battery)
            } else {
                None
            },
    {
        if self.changeset.contains(DataSource::Battery) {
            Some(&self.battery)
        } else {
            None
        }
    }

    /// The remaining time, where it changed since the last draw.
    pub fn remaining_time(&self) -> (v: Option<&Option<RemainingTime>>)
        ensures
            v == if self.changeset.has(DataSource::RemainingTime) {
                Some(&self.remaining_time)
            } else {
                None
            },
    {
        if self.changeset.contains(DataSource::RemainingTime) {
            Some(&self.remaining_time)
        } else {
            None
        }
    }

    /// Takes an event in: the first two buttons page back and forth, new
    /// data replaces the old; what changed is marked for the next draw.
    pub fn update(&mut self, event: ScreenEvent)
        ensures
            forall|d: DataSource| #[trigger] final(self).changeset.has(d) == (old(self).changeset.has(d)
                || event_source(event) == Some(d)),
            final(self).active_page == match event {
                ScreenEvent::Button1 => old(self).active_page.spec_prev(),
                ScreenEvent::Button2 => old(self).active_page.spec_next(),
                _ => old(self).active_page,
            },
            final(self).valve == match event {
                ScreenEvent::Valve(v) => v,
                _ => old(self).valve,
            },
            final(self).wm == match event {
                ScreenEvent::WaterMeter(w) => w,
                _ => old(self).wm,
            },
            final(self).battery == match event {
                ScreenEvent::Battery(b) => b,
                _ => old(self).battery,
            },
            final(self).remaining_time == match event {
                ScreenEvent::RemainingTime(r) => Some(r),
                _ => old(self).remaining_time,
            },
    {
        match event {
            ScreenEvent::Button1 => {
                self.active_page = self.active_page.prev();
                self.changeset.insert(DataSource::Page);
            },
            ScreenEvent::Button2 => {
                self.active_page = self.active_page.next();
                self.changeset.insert(DataSource::Page);
            },
            ScreenEvent::Button3 => {},
            ScreenEvent::Valve(v) => {
                self.valve = v;
                self.changeset.insert(DataSource::Valve);
            },
            ScreenEvent::WaterMeter(w) => {
                self.wm = w;
                self.changeset.insert(DataSource::WM);
            },
            ScreenEvent::Battery(b) => {
                self.battery = b;
                self.changeset.insert(DataSource::Battery);
            },
            ScreenEvent::RemainingTime(r) => {
                self.remaining_time = Some(r);
                self.changeset.insert(DataSource::RemainingTime);
            },
        }
    }

    /// Takes the state to draw: gives it as it is, and marks nothing as
    /// changed any more.
    pub fn take_for_draw(&mut self) -> (drawn: Self)
        ensures
            drawn == *old(self),
            *final(self) == (ScreenState { changeset: final(self).changeset, ..*old(self) }),
            forall|d: DataSource| !#[trigger] final(self).changeset.has(d),
    {
        let drawn = *self;
        self.changeset = Changeset::empty();
        drawn
    }
}

impl Page {
    /// The page before this one.
    pub open spec fn spec_prev(&self) -> Page {
        match self {
            Page::Summary => Page::Battery,
            Page::Battery => Page::Summary,
        }
    }

    /// The page after this one.
    pub open spec fn spec_next(&self) -> Page {
        match self {
            Page::Summary => Page::Battery,
            Page::Battery => Page::Summary,
        }
    }
}

/// Law: paging forth and back returns to the same page.
pub proof fn law_paging_round_trip(p: Page)
    ensures
        p.spec_next().spec_prev() == p,
        p.spec_prev().spec_next() == p,
{
}

} // verus!
