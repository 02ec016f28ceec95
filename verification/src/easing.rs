//! Easing curves: maps from the progress of an animation to the progress
//! that is shown.
//!
//! The library is indifferent to the number type that carries progress; it
//! supplies the one curve that needs no arithmetic.

use vstd::prelude::*;

verus! {

/// A curve over scalars of type `S`.
pub trait Easing<S> {
    /// The eased value at `t`.
    fn ease(&self, t: S) -> S;
}

/// The curve that leaves progress as it is.
#[derive(Debug, Clone, Copy, PartialEq, Eq)]
pub struct Linear;

/// What [`Linear`] makes of `t`.
pub open spec fn linear<S>(t: S) -> S {
    t
}

impl<S> Easing<S> for Linear {
    fn ease(&self, t: S) -> (eased: S)
        ensures
            eased == linear(t),
    {
        t
    }
}

/// The linear curve starts at zero, ends at one and never falls.
pub proof fn lemma_linear_monotonic(a: int, b: int)
    requires
        a <= b,
    ensures
        linear(0int) == 0,
        linear(1int) == 1,
        linear(a) <= linear(b),
{
}

} // verus!
