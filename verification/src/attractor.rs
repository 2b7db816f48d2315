//! What the engine asks of a dynamical system.
//!
//! The engine decides how many steps are taken, which of them count, where
//! a point lands on the grid and how the picture is put together. The
//! arithmetic on coordinates is the implementor's: each operation below
//! comes with a relation of the implementor's own that says what the
//! operation may return, and the engine's contracts are stated over these
//! relations. An implementor who says nothing of an operation leaves every
//! outcome open.

use vstd::prelude::*;

verus! {

/// A dynamical system whose trajectory can be rendered.
pub trait Attractor: Sized {
    /// Extent of the points that a search has seen so far, in the plane that
    /// the system is projected to.
    type Bounds;

    /// A centre and one scale for both axes, chosen so that an extent fits a
    /// picture without distortion.
    type Viewport;

    /// Whether one step may take the system `self` to `next`.
    open spec fn steps_to(self, next: Self) -> bool {
        true
    }

    /// Whether `fresh` is the system `self` put back at its initial
    /// condition.
    open spec fn resets_to(self, fresh: Self) -> bool {
        true
    }

    /// Whether `none` is the extent before any point has been seen.
    open spec fn starts_search(self, none: Self::Bounds) -> bool {
        true
    }

    /// Whether `wider` is the extent `seen` widened by the projection of the
    /// current point.
    open spec fn widens(self, seen: Self::Bounds, wider: Self::Bounds) -> bool {
        true
    }

    /// Whether `view` is the viewport that shows the extent `seen` on a
    /// picture of `width` by `height` pixels, `None` standing for an extent
    /// without width or without height.
    open spec fn fits(self, seen: Self::Bounds, width: nat, height: nat, view: Option<Self::Viewport>) -> bool {
        true
    }

    /// Whether `at` is the distance of the projection of the current point
    /// from the centre of `view`, in whole pixels.
    open spec fn locates(self, view: Self::Viewport, at: (i64, i64)) -> bool {
        true
    }

    /// Advances the state by exactly one step: one iteration of a map, or
    /// one time step of a flow.
    fn apply_map_func(&mut self)
        ensures
            old(self).steps_to(*final(self)),
    ;

    /// Puts the state back at its initial condition.
    fn set_init(&mut self)
        ensures
            old(self).resets_to(*final(self)),
    ;

    /// The extent before any point has been seen.
    fn unseen(&self) -> (none: Self::Bounds)
        ensures
            self.starts_search(none),
    ;

    /// The extent `seen`, widened so that it holds the projection of the
    /// current point as well.
    fn widen(&self, seen: Self::Bounds) -> (wider: Self::Bounds)
        ensures
            self.widens(seen, wider),
    ;

    /// The viewport that shows all of `seen` on a picture of `width` by
    /// `height` pixels; `None` when the extent has no width or no height, so
    /// that no scale exists.
    fn fit(&self, seen: &Self::Bounds, width: usize, height: usize) -> (view: Option<
        Self::Viewport,
    >)
        requires
            width > 0,
            height > 0,
        ensures
            self.fits(*seen, width as nat, height as nat, view),
    ;

    /// Distance of the projection of the current point from the centre of
    /// `view`, in whole pixels: first to the right, then downwards.
    fn locate(&self, view: &Self::Viewport) -> (at: (i64, i64))
        ensures
            self.locates(*view, at),
    ;
}

} // verus!
