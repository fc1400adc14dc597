//! Propagators: what moves the positions, momenta and forces of a group one
//! step forward.

use vstd::prelude::*;

use crate::sim::group::AtomGroupInfo;
use crate::sim::physical::PhysicalPotential;
use crate::sim::quadratic::InnerQuadraticExpansionExchangePotential;
use crate::sim::quadratic::LeadingQuadraticExpansionExchangePotential;
use crate::sim::quadratic::TrailingQuadraticExpansionExchangePotential;
use crate::sim::stat::Bosonic;
use crate::sim::stat::Distinguishable;
use crate::sim::stat::Stat;
use crate::sim::sync_ops::SyncAddRecv;
use crate::sim::sync_ops::SyncAddSend;
use crate::sim::thermostat::Thermostat;
use crate::slice::ElementRwLock;
use crate::slice::UniqueArcSliceRwLock;

verus! {

/// A trait for a propagator of a group in the first replica.
pub trait LeadingPropagator<T, V, D, B, A> where
    D: LeadingQuadraticExpansionExchangePotential<T, V> + Distinguishable,
    B: LeadingQuadraticExpansionExchangePotential<T, V> + Bosonic,
    A: SyncAddRecv<T>,
 {
    /// Propagates the positions, momenta, and forces by a single step.
    fn propagate<P: PhysicalPotential<T, V> + ?Sized, H: Thermostat<T, V> + ?Sized>(
        &mut self,
        step: usize,
        step_size: T,
        replica: usize,
        groups: &[AtomGroupInfo<T>],
        group_idx: usize,
        phys_potential: &mut P,
        groups_exch_potentials: &mut [Stat<D, B>],
        thermostat: &mut H,
        positions: &mut ElementRwLock<UniqueArcSliceRwLock<V>>,
        momenta: &mut ElementRwLock<UniqueArcSliceRwLock<V>>,
        forces: &mut ElementRwLock<UniqueArcSliceRwLock<V>>,
    ) -> Result<(T, T), A::Error>;
}

/// A trait for a propagator of a group in an inner replica.
pub trait InnerPropagator<T, V, D, B, A> where
    D: InnerQuadraticExpansionExchangePotential<T, V> + Distinguishable,
    B: InnerQuadraticExpansionExchangePotential<T, V> + Bosonic,
    A: SyncAddSend<T>,
 {
    /// Propagates the positions, momenta, and forces by a single step.
    fn propagate<P: PhysicalPotential<T, V> + ?Sized, H: Thermostat<T, V> + ?Sized>(
        &mut self,
        step: usize,
        step_size: T,
        replica: usize,
        groups: &[AtomGroupInfo<T>],
        group_idx: usize,
        phys_potential: &mut P,
        groups_exch_potentials: &mut [Stat<D, B>],
        thermostat: &mut H,
        positions: &mut ElementRwLock<UniqueArcSliceRwLock<V>>,
        momenta: &mut ElementRwLock<UniqueArcSliceRwLock<V>>,
        forces: &mut ElementRwLock<UniqueArcSliceRwLock<V>>,
    ) -> Result<(T, T), A::Error>;
}

/// A trait for a propagator of a group in the last replica.
pub trait TrailingPropagator<T, V, D, B, A> where
    D: TrailingQuadraticExpansionExchangePotential<T, V> + Distinguishable,
    B: TrailingQuadraticExpansionExchangePotential<T, V> + Bosonic,
    A: SyncAddSend<T>,
 {
    /// Propagates the positions, momenta, and forces by a single step.
    fn propagate<P: PhysicalPotential<T, V> + ?Sized, H: Thermostat<T, V> + ?Sized>(
        &mut self,
        step: usize,
        step_size: T,
        replica: usize,
        groups: &[AtomGroupInfo<T>],
        group_idx: usize,
        phys_potential: &mut P,
        groups_exch_potentials: &mut [Stat<D, B>],
        thermostat: &mut H,
        positions: &mut ElementRwLock<UniqueArcSliceRwLock<V>>,
        momenta: &mut ElementRwLock<UniqueArcSliceRwLock<V>>,
        forces: &mut ElementRwLock<UniqueArcSliceRwLock<V>>,
    ) -> Result<(T, T), A::Error>;
}

} // verus!
