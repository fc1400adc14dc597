//! Exchange potentials that can be expanded to second order.

use vstd::prelude::*;

use crate::sim::exchange::InnerExchangePotential;
use crate::sim::exchange::LeadingExchangePotential;
use crate::sim::exchange::TrailingExchangePotential;
use crate::sim::normal_modes::InnerNormalModesTransform;
use crate::sim::normal_modes::LeadingNormalModesTransform;
use crate::sim::normal_modes::TrailingNormalModesTransform;

verus! {

/// A trait for leading exchange potentials that may be expanded to second
/// order.
pub trait LeadingQuadraticExpansionExchangePotential<T, V>: LeadingExchangePotential<T, V> {
    /// The transformation that yields the normal modes such that the second
    /// order term is the sum over all modes squared times their respective
    /// eigenvalues.
    type QuadraticPotential<'a>: LeadingNormalModesTransform<T, V> where Self: 'a;

    /// The term left after the expansion to second order. Contains
    /// interactions of third order and higher.
    type ResiduePotential<'a>: LeadingExchangePotential<T, V> where Self: 'a;

    /// Treats `self` as a sum of harmonic oscillators - the normal modes -
    /// and a residual term of third order and beyond.
    fn as_quadratic_expansion(&mut self) -> (Self::QuadraticPotential<'_>, Self::ResiduePotential<'_>);
}

/// A trait for inner exchange potentials that may be expanded to second
/// order.
pub trait InnerQuadraticExpansionExchangePotential<T, V>: InnerExchangePotential<T, V> {
    /// The transformation that yields the normal modes such that the second
    /// order term is the sum over all modes squared times their respective
    /// eigenvalues.
    type QuadraticPotential<'a>: InnerNormalModesTransform<T, V> where Self: 'a;

    /// The term left after the expansion to second order. Contains
    /// interactions of third order and higher.
    type ResiduePotential<'a>: InnerExchangePotential<T, V> where Self: 'a;

    /// Treats `self` as a sum of harmonic oscillators - the normal modes -
    /// and a residual term of third order and beyond.
    fn as_quadratic_expansion(&mut self) -> (Self::QuadraticPotential<'_>, Self::ResiduePotential<'_>);
}

/// A trait for trailing exchange potentials that may be expanded to second
/// order.
pub trait TrailingQuadraticExpansionExchangePotential<T, V>: TrailingExchangePotential<T, V> {
    /// The transformation that yields the normal modes such that the second
    /// order term is the sum over all modes squared times their respective
    /// eigenvalues.
    type QuadraticPotential<'a>: TrailingNormalModesTransform<T, V> where Self: 'a;

    /// The term left after the expansion to second order. Contains
    /// interactions of third order and higher.
    type ResiduePotential<'a>: TrailingExchangePotential<T, V> where Self: 'a;

    /// Treats `self` as a sum of harmonic oscillators - the normal modes -
    /// and a residual term of third order and beyond.
    fn as_quadratic_expansion(&mut self) -> (Self::QuadraticPotential<'_>, Self::ResiduePotential<'_>);
}

} // verus!
