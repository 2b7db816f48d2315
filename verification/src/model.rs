//! One system of the family as data: its kind, its coefficients with their
//! ranges and editing speeds, and its state.
//!
//! The three vectors run parallel, one entry for each coefficient of the
//! kind, and the state has the kind's dimension; a flow has a time step and
//! a map has none. An update rule may therefore index coefficients and
//! coordinates by the numbers that its formula names.

use crate::catalog::Variant;
use crate::state::State;
use crate::state::StateView;
use vstd::prelude::*;

verus! {

/// What a [`Model`] holds, as mathematical values.
pub struct ModelView<T> {
    /// Kind of the system.
    pub kind: Variant,
    /// Free coefficients of the update rule.
    pub coefs: Seq<T>,
    /// Ends of the interval that each coefficient is edited and drawn in.
    pub range: Seq<(T, T)>,
    /// Step by which an editor changes each coefficient.
    pub speeds: Seq<T>,
    /// Current point, initial point and clock.
    pub state: StateView<T>,
}

/// Whether the parts have the shape that `kind` asks for.
pub open spec fn fits_kind<T>(
    kind: Variant,
    coefs: Seq<T>,
    range: Seq<(T, T)>,
    speeds: Seq<T>,
    state: StateView<T>,
) -> bool {
    &&& coefs.len() == kind.spec_coef_count()
    &&& range.len() == kind.spec_coef_count()
    &&& speeds.len() == kind.spec_coef_count()
    &&& state.x.len() == kind.spec_dimension()
    &&& state.init_x.len() == kind.spec_dimension()
    &&& state.dt is Some <==> kind.spec_is_flow()
    &&& state.dt_range is Some <==> kind.spec_is_flow()
}

/// Values that a source has drawn, each from its own interval, lie within
/// their intervals if the source keeps every draw within the interval that
/// it was asked for. `within` is the caller's notion of lying within.
pub proof fn lemma_draws_stay_within<T, F: Fn(T, T) -> T>(
    draw: F,
    within: spec_fn(T, (T, T)) -> bool,
    ranges: Seq<(T, T)>,
    values: Seq<T>,
)
    requires
        forall|r: (T, T), v: T| #[trigger] call_ensures(draw, r, v) ==> within(v, r),
        values.len() == ranges.len(),
        forall|i: int|
            0 <= i < values.len() ==> call_ensures(draw, ranges[i], #[trigger] values[i]),
    ensures
        forall|i: int| 0 <= i < values.len() ==> within(#[trigger] values[i], ranges[i]),
{
}

/// A system of the family as data.
pub struct Model<T> {
    kind: Variant,
    coefs: Vec<T>,
    range: Vec<(T, T)>,
    speeds: Vec<T>,
    state: State<T>,
}

impl<T> View for Model<T> {
    type V = ModelView<T>;

    closed spec fn view(&self) -> ModelView<T> {
        ModelView {
            kind: self.kind,
            coefs: self.coefs@,
            range: self.range@,
            speeds: self.speeds@,
            state: self.state@,
        }
    }
}

impl<T: Copy> Model<T> {
    /// The state of the model, as the value that its methods speak of.
    pub closed spec fn spec_state(&self) -> State<T> {
        self.state
    }

    /// The parts have the shape of the kind, and the state is well-formed in
    /// the kind's dimension.
    pub closed spec fn wf(&self) -> bool {
        &&& self.state.wf()
        &&& self.state.dim() == self.kind.spec_dimension()
        &&& fits_kind(self.kind, self.coefs@, self.range@, self.speeds@, self.state@)
    }

    /// What well-formedness means in terms of the view.
    pub proof fn lemma_wf(&self)
        requires
            self.wf(),
        ensures
            fits_kind(self@.kind, self@.coefs, self@.range, self@.speeds, self@.state),
            self.spec_state().wf(),
            self.spec_state().dim() == self@.kind.spec_dimension(),
            self.spec_state()@ == self@.state,
    {
    }

    /// The system of kind `kind` with the given parts; `None` when the parts
    /// do not have the shape of the kind.
    pub fn new(kind: Variant, coefs: Vec<T>, range: Vec<(T, T)>, speeds: Vec<T>, state: State<T>) -> (model:
        Option<Self>)
        requires
            state.wf(),
        ensures
            model is Some <==> fits_kind(kind, coefs@, range@, speeds@, state@),
            model matches Some(m) ==> m.wf() && m@ == (ModelView {
                kind,
                coefs: coefs@,
                range: range@,
                speeds: speeds@,
                state: state@,
            }),
    {
        proof {
            state.lemma_wf();
        }
        let count = kind.coef_count();
        if coefs.len() != count || range.len() != count || speeds.len() != count {
            return None;
        }
        if state.dimension() != kind.dimension() {
            return None;
        }
        if state.get_dt().is_some() != kind.is_flow() {
            return None;
        }
        Some(Model { kind, coefs, range, speeds, state })
    }

    /// Kind of the system.
    pub fn kind(&self) -> (kind: Variant)
        ensures
            kind == self@.kind,
    {
        self.kind
    }

    /// Display name.
    pub fn name(&self) -> (name: &'static str)
        ensures
            name@ == self@.kind.spec_name(),
    {
        self.kind.name()
    }

    /// The update rule in words, for display only.
    pub fn map_str(&self) -> (text: &'static str)
        ensures
            text@ == self@.kind.spec_map_str(),
    {
        self.kind.map_str()
    }

    /// Step by which an editor changes each coefficient.
    pub fn speeds(&self) -> (speeds: &[T])
        ensures
            speeds@ == self@.speeds,
    {
        self.speeds.as_slice()
    }

    /// The coefficients.
    pub fn coefs(&self) -> (coefs: &[T])
        ensures
            coefs@ == self@.coefs,
    {
        self.coefs.as_slice()
    }

    /// Coefficient `i`, to be edited in place.
    pub fn coefs_mut(&mut self, i: usize) -> (slot: &mut T)
        requires
            old(self).wf(),
            i < old(self)@.coefs.len(),
        ensures
            *slot == old(self)@.coefs[i as int],
            final(self).wf(),
            final(self)@ == (ModelView {
                coefs: old(self)@.coefs.update(i as int, *final(slot)),
                ..old(self)@
            }),
    {
        &mut self.coefs[i]
    }

    /// Replaces the coefficients.
    pub fn set_coefs(&mut self, coefs: Vec<T>)
        requires
            old(self).wf(),
            coefs@.len() == old(self)@.coefs.len(),
        ensures
            final(self).wf(),
            final(self)@ == (ModelView { coefs: coefs@, ..old(self)@ }),
    {
        self.coefs = coefs;
    }

    /// Ends of the interval of each coefficient.
    pub fn coef_ranges(&self) -> (range: &[(T, T)])
        ensures
            range@ == self@.range,
    {
        self.range.as_slice()
    }

    /// The state.
    pub fn state(&self) -> (state: &State<T>)
        ensures
            *state == self.spec_state(),
    {
        &self.state
    }

    /// The state, to be moved or edited in place. The model stays
    /// well-formed as long as the state keeps its dimension and does not
    /// gain or lose a time step.
    pub fn state_mut(&mut self) -> (state: &mut State<T>)
        requires
            old(self).wf(),
        ensures
            *state == old(self).spec_state(),
            final(self).spec_state() == *final(state),
            final(self)@ == (ModelView { state: final(state)@, ..old(self)@ }),
            final(state).wf() && final(state).dim() == state.dim() && (final(state)@.dt is Some
                <==> state@.dt is Some) ==> final(self).wf(),
    {
        proof {
            self.state.lemma_wf();
        }
        assert forall|s: State<T>| #[trigger] s.wf() implies s@.x.len() == s.dim()
            && s@.init_x.len() == s.dim() && (s@.dt is Some <==> s@.dt_range is Some) by {
            s.lemma_wf();
        }
        &mut self.state
    }

    /// Replaces every coefficient by a fresh draw from its own interval:
    /// `draw` is asked once for each coefficient, in order, with the two
    /// ends of that coefficient's interval.
    pub fn change_random_coefs<F: Fn(T, T) -> T>(&mut self, draw: &F)
        requires
            old(self).wf(),
            forall|i: int|
                0 <= i < old(self)@.range.len() ==> call_requires(
                    *draw,
                    #[trigger] old(self)@.range[i],
                ),
        ensures
            final(self).wf(),
            final(self)@ == (ModelView { coefs: final(self)@.coefs, ..old(self)@ }),
            final(self)@.coefs.len() == old(self)@.coefs.len(),
            forall|i: int|
                0 <= i < final(self)@.coefs.len() ==> call_ensures(
                    *draw,
                    old(self)@.range[i],
                    #[trigger] final(self)@.coefs[i],
                ),
    {
        let count = self.range.len();
        let mut drawn: Vec<T> = Vec::new();
        let mut i: usize = 0;
        while i < count
            invariant
                i <= count,
                count == self.range@.len(),
                drawn@.len() == i,
                *self == *old(self),
                forall|j: int|
                    0 <= j < self.range@.len() ==> call_requires(*draw, #[trigger] self.range@[j]),
                forall|j: int|
                    0 <= j < i ==> call_ensures(*draw, self.range@[j], #[trigger] drawn@[j]),
            decreases count - i,
        {
            let (lo, hi) = self.range[i];
            let value = draw(lo, hi);
            drawn.push(value);
            i = i + 1;
        }
        self.set_coefs(drawn);
    }
}

} // verus!
