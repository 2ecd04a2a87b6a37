use vstd::prelude::*;
use vstd::std_specs::cmp::PartialEqSpec;

verus! {

/// A place that keeps a value: it can be read and overwritten.
pub trait Storage<D> {
    fn get(&self) -> D;

    fn set(&mut self, data: D);
}

/// The priority a task is spawned with.
#[derive(Copy, Clone, Debug, PartialEq, Eq, Structural)]
pub enum TaskPriority {
    High,
    Medium,
    Low,
}

/// The latest state of something, kept so that only changes are passed on.
pub struct StateSnapshot<S> {
    state: S,
}

impl<S: Copy + PartialEq> StateSnapshot<S> {
    /// The state kept.
    pub closed spec fn current(&self) -> S {
        self.state
    }

    /// A snapshot that keeps `initial`.
    pub fn new(initial: S) -> (s: Self)
        ensures
            s.current() == initial,
    {
        StateSnapshot { state: initial }
    }

    /// Takes in the state that `updater` makes of the one kept; gives whether
    /// it differs from the one kept, in which case it is kept instead.
    pub fn update_with<F: Fn(&S) -> S>(&mut self, updater: F) -> (updated: bool)
        requires
            updater.requires((&old(self).current(),)),
        ensures
            exists|new: S|
                {
                    &&& #[trigger] updater.ensures((&old(self).current(),), new)
                    &&& (S::obeys_eq_spec() ==> updated == !old(self).current().eq_spec(&new))
                    &&& final(self).current() == if updated {
                        new
                    } else {
                        old(self).current()
                    }
                },
    {
        let state = updater(&self.state);
        self.update(state)
    }

    /// Takes a new state in; gives whether it differs from the one kept,
    /// in which case it is kept instead (and is to be passed on).
    pub fn update(&mut self, state: S) -> (updated: bool)
        ensures
            S::obeys_eq_spec() ==> updated == !old(self).current().eq_spec(&state),
            final(self).current() == if updated {
                state
            } else {
                old(self).current()
            },
    {
        if !(self.state == state) {
            self.state = state;
            true
        } else {
            false
        }
    }
}

impl<S: Copy + PartialEq> Storage<S> for StateSnapshot<S> {
    fn get(&self) -> (d: S)
        ensures
            d == self.current(),
    {
        self.state
    }

    fn set(&mut self, data: S)
        ensures
            final(self).current() == data,
    {
        self.state = data;
    }
}

} // verus!
