//! Particle statistics, and the markers that tell replicas apart.

use vstd::prelude::*;

verus! {

/// A value for one of the two kinds of particle statistics.
#[derive(Clone, Copy, Debug)]
#[non_exhaustive]
pub enum Stat<D, B> {
    Distinguishable(D),
    Bosonic(B),
}

/// Marks what treats particles as distinguishable.
pub trait Distinguishable {

}

/// Marks what treats particles as bosons.
pub trait Bosonic {

}

/// Marks what treats particles as indistinguishable.
pub trait Indistinguishable {

}

impl<T: ?Sized + Bosonic> Indistinguishable for T {

}

/// A marker trait for types that can implement `Leading[...]` traits by
/// reusing their `Inner[...]` implementation.
pub trait InnerIsLeading {

}

/// A marker trait for types that can implement `Trailing[...]` traits by
/// reusing their `Inner[...]` implementation.
pub trait InnerIsTrailing {

}

/// A marker trait for types whose `Leading[...]` implementation serves as
/// their `Inner[...]` one.
pub trait LeadingIsInner {

}

/// A marker trait for types whose `Trailing[...]` implementation serves as
/// their `Inner[...]` one.
pub trait TrailingIsInner {

}

} // verus!
