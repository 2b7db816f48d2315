//! The point in phase space that a system moves, with the initial condition
//! that every run starts from.
//!
//! The library moves and copies coordinates and never computes with them, so
//! the scalar type is a parameter.

use crate::seqs::copied;
use crate::seqs::filled;
use vstd::prelude::*;

verus! {

/// What a [`State`] holds, as mathematical values.
pub struct StateView<T> {
    /// Current point.
    pub x: Seq<T>,
    /// Initial point.
    pub init_x: Seq<T>,
    /// Ends of the interval that initial values are drawn from.
    pub x_range: (T, T),
    /// Simulated time that has passed in the current run.
    pub time: T,
    /// Simulated time at the start of a run.
    pub epoch: T,
    /// Fixed time step, for systems that have one.
    pub dt: Option<T>,
    /// Largest time step that an editor offers; present with `dt`.
    pub dt_range: Option<T>,
}

/// A state as a stored record spells it out, field by field.
pub struct StateRecord<T> {
    /// Dimension of the phase space.
    pub n: usize,
    /// Current point.
    pub x: Vec<T>,
    /// Initial point.
    pub init_x: Vec<T>,
    /// Ends of the interval that initial values are drawn from.
    pub x_range: (T, T),
    /// Simulated time that has passed.
    pub time: T,
    /// Fixed time step, for systems that have one.
    pub dt: Option<T>,
    /// Largest time step that an editor offers.
    pub dt_range: Option<T>,
}

/// Whether a record can be a state: both points have the dimension that the
/// record gives, and a time step comes with its bound.
pub open spec fn record_fits<T>(rec: StateRecord<T>) -> bool {
    &&& rec.x@.len() == rec.n
    &&& rec.init_x@.len() == rec.n
    &&& rec.dt is Some <==> rec.dt_range is Some
}

/// The state that a record spells out, with a clock that starts at `epoch`.
pub open spec fn state_of<T>(rec: StateRecord<T>, epoch: T) -> StateView<T> {
    StateView {
        x: rec.x@,
        init_x: rec.init_x@,
        x_range: rec.x_range,
        time: rec.time,
        epoch,
        dt: rec.dt,
        dt_range: rec.dt_range,
    }
}

/// Whether `rec` spells out the state `state` of dimension `n`.
pub open spec fn spells<T>(rec: StateRecord<T>, state: StateView<T>, n: nat) -> bool {
    &&& rec.n == n
    &&& rec.x@ == state.x
    &&& rec.init_x@ == state.init_x
    &&& rec.x_range == state.x_range
    &&& rec.time == state.time
    &&& rec.dt == state.dt
    &&& rec.dt_range == state.dt_range
}

/// Writing a state down and reading it back recovers it: a record that
/// spells out a state is accepted, and the state read from it is the one
/// that was written, the initial point and the time step included.
pub proof fn lemma_state_round_trip<T>(state: StateView<T>, n: nat, rec: StateRecord<T>)
    requires
        state.x.len() == n,
        state.init_x.len() == n,
        state.dt is Some <==> state.dt_range is Some,
        spells(rec, state, n),
    ensures
        record_fits(rec),
        state_of(rec, state.epoch) == state,
{
}

/// Current point, initial point and clock of one system.
pub struct State<T> {
    n: usize,
    x: Vec<T>,
    init_x: Vec<T>,
    x_range: (T, T),
    /// Simulated time that has passed in the current run.
    pub time: T,
    epoch: T,
    dt: Option<T>,
    dt_range: Option<T>,
}

impl<T> View for State<T> {
    type V = StateView<T>;

    closed spec fn view(&self) -> StateView<T> {
        StateView {
            x: self.x@,
            init_x: self.init_x@,
            x_range: self.x_range,
            time: self.time,
            epoch: self.epoch,
            dt: self.dt,
            dt_range: self.dt_range,
        }
    }
}

impl<T: Copy> State<T> {
    /// Dimension of the phase space, fixed at construction.
    pub closed spec fn dim(&self) -> nat {
        self.n as nat
    }

    /// Current and initial point both have the dimension of the state, and a
    /// time step comes with its bound.
    pub closed spec fn wf(&self) -> bool {
        &&& self.x@.len() == self.n
        &&& self.init_x@.len() == self.n
        &&& self.dt is Some <==> self.dt_range is Some
    }

    /// What well-formedness means in terms of the view.
    pub proof fn lemma_wf(&self)
        requires
            self.wf(),
        ensures
            self@.x.len() == self.dim(),
            self@.init_x.len() == self.dim(),
            self@.dt is Some <==> self@.dt_range is Some,
            self.dim() <= usize::MAX,
    {
    }

    /// A state of dimension `n` whose current and initial point have `start`
    /// in every component, with initial values to be drawn from `range`, a
    /// clock that starts at `epoch`, and, for a system with a fixed time
    /// step, that step and its largest editable value as `dt`.
    pub fn new(n: usize, start: T, range: (T, T), epoch: T, dt: Option<(T, T)>) -> (state: Self)
        ensures
            state.wf(),
            state.dim() == n,
            state@.x == Seq::new(n as nat, |i: int| start),
            state@.init_x == state@.x,
            state@.x_range == range,
            state@.time == epoch,
            state@.epoch == epoch,
            state@.dt == match dt {
                Some(step) => Some(step.0),
                None => None,
            },
            state@.dt_range == match dt {
                Some(step) => Some(step.1),
                None => None,
            },
    {
        let x = filled(n, start);
        let init_x = filled(n, start);
        let (step, bound) = match dt {
            Some(step) => (Some(step.0), Some(step.1)),
            None => (None, None),
        };
        State { n, x, init_x, x_range: range, time: epoch, epoch, dt: step, dt_range: bound }
    }

    /// Dimension of the phase space.
    pub fn dimension(&self) -> (n: usize)
        ensures
            n == self.dim(),
    {
        self.n
    }

    /// Puts the system back at its initial condition: the current point
    /// becomes a copy of the initial point and the clock goes back to the
    /// start of a run.
    pub fn set_init(&mut self)
        requires
            old(self).wf(),
        ensures
            final(self).wf(),
            final(self).dim() == old(self).dim(),
            final(self)@ == (StateView {
                x: old(self)@.init_x,
                time: old(self)@.epoch,
                ..old(self)@
            }),
    {
        self.time = self.epoch;
        self.x = copied(self.init_x.as_slice());
    }

    /// The initial point.
    pub fn get_init_val(&self) -> (init: &[T])
        ensures
            init@ == self@.init_x,
    {
        self.init_x.as_slice()
    }

    /// Component `i` of the initial point, to be edited in place.
    pub fn get_init_val_mut(&mut self, i: usize) -> (slot: &mut T)
        requires
            old(self).wf(),
            i < old(self).dim(),
        ensures
            *slot == old(self)@.init_x[i as int],
            final(self).wf(),
            final(self).dim() == old(self).dim(),
            final(self)@ == (StateView {
                init_x: old(self)@.init_x.update(i as int, *final(slot)),
                ..old(self)@
            }),
    {
        &mut self.init_x[i]
    }

    /// Replaces the initial point.
    pub fn set_init_val(&mut self, init: Vec<T>)
        requires
            old(self).wf(),
            init@.len() == old(self).dim(),
        ensures
            final(self).wf(),
            final(self).dim() == old(self).dim(),
            final(self)@ == (StateView { init_x: init@, ..old(self)@ }),
    {
        self.init_x = init;
    }

    /// Ends of the interval that initial values are drawn from.
    pub fn get_x_range(&self) -> (range: (T, T))
        ensures
            range == self@.x_range,
    {
        self.x_range
    }

    /// Fixed time step, for a system that has one.
    pub fn get_dt(&self) -> (dt: Option<T>)
        ensures
            dt == self@.dt,
    {
        self.dt
    }

    /// The time step, to be edited in place.
    pub fn get_dt_mut(&mut self) -> (slot: Option<&mut T>)
        requires
            old(self).wf(),
        ensures
            slot is Some <==> old(self)@.dt is Some,
            slot matches Some(step) ==> Some(*step) == old(self)@.dt && final(self)@ == (StateView {
                dt: Some(*final(step)),
                ..old(self)@
            }),
            slot is None ==> final(self)@ == old(self)@,
            final(self).wf(),
            final(self).dim() == old(self).dim(),
    {
        self.dt.as_mut()
    }

    /// Largest time step that an editor offers.
    pub fn get_dt_range(&self) -> (bound: Option<T>)
        ensures
            bound == self@.dt_range,
    {
        self.dt_range
    }

    /// Replaces each component of the initial point by a fresh draw from the
    /// interval of initial values: `draw` is asked once for each component,
    /// with the two ends of the interval. The current point stays as it is
    /// until the next reset.
    pub fn set_random_init<F: Fn(T, T) -> T>(&mut self, draw: &F)
        requires
            old(self).wf(),
            call_requires(*draw, old(self)@.x_range),
        ensures
            final(self).wf(),
            final(self).dim() == old(self).dim(),
            final(self)@ == (StateView { init_x: final(self)@.init_x, ..old(self)@ }),
            forall|i: int|
                0 <= i < final(self)@.init_x.len() ==> call_ensures(
                    *draw,
                    old(self)@.x_range,
                    #[trigger] final(self)@.init_x[i],
                ),
    {
        let (lo, hi) = self.x_range;
        let mut drawn: Vec<T> = Vec::new();
        let mut i: usize = 0;
        while i < self.n
            invariant
                i <= self.n,
                drawn@.len() == i,
                *self == *old(self),
                (lo, hi) == self.x_range,
                call_requires(*draw, (lo, hi)),
                forall|j: int| 0 <= j < i ==> call_ensures(*draw, (lo, hi), #[trigger] drawn@[j]),
            decreases self.n - i,
        {
            let value = draw(lo, hi);
            drawn.push(value);
            i = i + 1;
        }
        self.set_init_val(drawn);
    }

    /// The state that a stored record spells out, with a clock that starts
    /// at `epoch`; `None` when the record cannot be a state.
    pub fn from_record(rec: StateRecord<T>, epoch: T) -> (state: Option<Self>)
        ensures
            state is Some <==> record_fits(rec),
            state matches Some(s) ==> s.wf() && s.dim() == rec.n && s@ == state_of(rec, epoch),
    {
        if rec.x.len() != rec.n || rec.init_x.len() != rec.n {
            return None;
        }
        if rec.dt.is_some() != rec.dt_range.is_some() {
            return None;
        }
        Some(
            State {
                n: rec.n,
                x: rec.x,
                init_x: rec.init_x,
                x_range: rec.x_range,
                time: rec.time,
                epoch,
                dt: rec.dt,
                dt_range: rec.dt_range,
            },
        )
    }

    /// The record that spells the state out.
    pub fn to_record(&self) -> (rec: StateRecord<T>)
        requires
            self.wf(),
        ensures
            spells(rec, self@, self.dim()),
    {
        StateRecord {
            n: self.n,
            x: copied(self.x.as_slice()),
            init_x: copied(self.init_x.as_slice()),
            x_range: self.x_range,
            time: self.time,
            dt: self.dt,
            dt_range: self.dt_range,
        }
    }

    /// The current point.
    pub fn get_xs(&self) -> (x: &[T])
        ensures
            x@ == self@.x,
    {
        self.x.as_slice()
    }

    /// Component `i` of the current point, to be changed in place.
    pub fn get_xs_mut(&mut self, i: usize) -> (slot: &mut T)
        requires
            old(self).wf(),
            i < old(self).dim(),
        ensures
            *slot == old(self)@.x[i as int],
            final(self).wf(),
            final(self).dim() == old(self).dim(),
            final(self)@ == (StateView {
                x: old(self)@.x.update(i as int, *final(slot)),
                ..old(self)@
            }),
    {
        &mut self.x[i]
    }

    /// Replaces the current point.
    pub fn set_xs(&mut self, new_xs: Vec<T>)
        requires
            old(self).wf(),
            new_xs@.len() == old(self).dim(),
        ensures
            final(self).wf(),
            final(self).dim() == old(self).dim(),
            final(self)@ == (StateView { x: new_xs@, ..old(self)@ }),
    {
        self.x = new_xs;
    }

    /// First two components of the current point.
    pub fn get_xy(&self) -> (p: (T, T))
        requires
            self.wf(),
            self.dim() >= 2,
        ensures
            p == (self@.x[0], self@.x[1]),
    {
        (self.x[0], self.x[1])
    }

    /// Sets the first two components of the current point.
    pub fn set_xy(&mut self, x: T, y: T)
        requires
            old(self).wf(),
            old(self).dim() >= 2,
        ensures
            final(self).wf(),
            final(self).dim() == old(self).dim(),
            final(self)@ == (StateView { x: old(self)@.x.update(0, x).update(1, y), ..old(self)@ }),
    {
        self.x.set(0, x);
        self.x.set(1, y);
    }

    /// First three components of the current point.
    pub fn get_xyz(&self) -> (p: (T, T, T))
        requires
            self.wf(),
            self.dim() >= 3,
        ensures
            p == (self@.x[0], self@.x[1], self@.x[2]),
    {
        (self.x[0], self.x[1], self.x[2])
    }

    /// Sets the first three components of the current point.
    pub fn set_xyz(&mut self, x: T, y: T, z: T)
        requires
            old(self).wf(),
            old(self).dim() >= 3,
        ensures
            final(self).wf(),
            final(self).dim() == old(self).dim(),
            final(self)@ == (StateView {
                x: old(self)@.x.update(0, x).update(1, y).update(2, z),
                ..old(self)@
            }),
    {
        self.x.set(0, x);
        self.x.set(1, y);
        self.x.set(2, z);
    }
}

} // verus!
