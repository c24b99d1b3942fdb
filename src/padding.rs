//! A view that wraps one child view.
use vstd::prelude::*;

verus! {

/// Pads the view it wraps.
pub struct Padding<V> {
    child: V,
}

impl<V> Padding<V> {
    /// The wrapped view.
    pub closed spec fn child_view(&self) -> V {
        self.child
    }

    /// Wraps `child`.
    pub fn new(child: V) -> (r: Self)
        ensures
            r.child_view() == child,
    {
        Self { child: child }
    }

    /// The wrapped view.
    pub fn child(&self) -> (r: &V)
        ensures
            *r == self.child_view(),
    {
        &self.child
    }
}

} // verus!
