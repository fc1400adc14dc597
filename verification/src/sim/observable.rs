//! Observables: the quantities that a simulation measures.

use vstd::prelude::*;

use crate::sim::exchange::InnerExchangePotential;
use crate::sim::exchange::LeadingExchangePotential;
use crate::sim::exchange::TrailingExchangePotential;
use crate::sim::group::AtomGroupInfo;
use crate::sim::stat::Bosonic;
use crate::sim::stat::Distinguishable;
use crate::sim::stat::InnerIsLeading;
use crate::sim::stat::InnerIsTrailing;
use crate::sim::stat::Stat;
use crate::sim::sync_ops::SyncAddRecv;
use crate::sim::sync_ops::SyncAddSend;
use crate::sim::sync_ops::SyncMulRecv;
use crate::sim::sync_ops::SyncMulSend;
use crate::sim::vector::Vector;
use crate::slice::ElementRwLock;
use crate::slice::UniqueArcSliceRwLock;

verus! {

/// The value of an observable: a number or a vector.
#[verifier::reject_recursive_types(T)]
#[verifier::reject_recursive_types(V)]
pub enum ScalarOrVector<const N: usize, T, V> where V: Vector<N, Element = T> {
    Scalar(T),
    Vector(V),
}

/// A trait for quantum estimators that yield the contribution of the first
/// replica to the observable value.
pub trait LeadingQuantumObservable<T, V, D, B> where
    D: LeadingExchangePotential<T, V> + Distinguishable,
    B: LeadingExchangePotential<T, V> + Bosonic,
 {
    type Output;

    /// Whether a calculation may turn the estimator into `after` and yield
    /// `contribution`.
    open spec fn contributes(
        &self,
        after: &Self,
        exchange_potential: &Stat<D, B>,
        groups: Seq<AtomGroupInfo<T>>,
        group_idx: usize,
        positions: &ElementRwLock<UniqueArcSliceRwLock<V>>,
        forces: &ElementRwLock<UniqueArcSliceRwLock<V>>,
        contribution: Self::Output,
    ) -> bool {
        true
    }

    /// Calculates the contribution of this group in the first replica to the
    /// value of the observable, such that the sum of all contributions of all
    /// groups in all replicas is the final value.
    fn calculate(
        &mut self,
        exchange_potential: &Stat<D, B>,
        groups: &[AtomGroupInfo<T>],
        group_idx: usize,
        positions: &ElementRwLock<UniqueArcSliceRwLock<V>>,
        forces: &ElementRwLock<UniqueArcSliceRwLock<V>>,
    ) -> (contribution: Self::Output)
        ensures
            old(self).contributes(
                final(self),
                exchange_potential,
                groups@,
                group_idx,
                positions,
                forces,
                contribution,
            ),
    ;
}

/// A trait for quantum estimators that yield the contribution of an inner
/// replica to the observable value.
pub trait InnerQuantumObservable<T, V, D, B> where
    D: InnerExchangePotential<T, V> + Distinguishable,
    B: InnerExchangePotential<T, V> + Bosonic,
 {
    type Output;

    /// Whether a calculation may turn the estimator into `after` and yield
    /// `contribution`.
    open spec fn contributes(
        &self,
        after: &Self,
        exchange_potential: &Stat<D, B>,
        replica: usize,
        groups: Seq<AtomGroupInfo<T>>,
        group_idx: usize,
        positions: &ElementRwLock<UniqueArcSliceRwLock<V>>,
        forces: &ElementRwLock<UniqueArcSliceRwLock<V>>,
        contribution: Option<Self::Output>,
    ) -> bool {
        true
    }

    /// Calculates the contribution of this group in this replica to the
    /// value of the observable, such that the sum of all contributions of all
    /// groups in all replicas is the final value.
    ///
    /// Returns `None` if this replica does not contribute to the observable
    /// value. This might happen with indistinguishable particles. The first
    /// replica always contributes.
    fn calculate(
        &mut self,
        exchange_potential: &Stat<D, B>,
        replica: usize,
        groups: &[AtomGroupInfo<T>],
        group_idx: usize,
        positions: &ElementRwLock<UniqueArcSliceRwLock<V>>,
        forces: &ElementRwLock<UniqueArcSliceRwLock<V>>,
    ) -> (contribution: Option<Self::Output>)
        ensures
            old(self).contributes(
                final(self),
                exchange_potential,
                replica,
                groups@,
                group_idx,
                positions,
                forces,
                contribution,
            ),
            replica == 0 ==> contribution is Some,
    ;
}

/// A trait for quantum estimators that yield the contribution of the last
/// replica to the observable value.
pub trait TrailingQuantumObservable<T, V, D, B> where
    D: TrailingExchangePotential<T, V> + Distinguishable,
    B: TrailingExchangePotential<T, V> + Bosonic,
 {
    type Output;

    /// Whether a calculation may turn the estimator into `after` and yield
    /// `contribution`.
    open spec fn contributes(
        &self,
        after: &Self,
        exchange_potential: &Stat<D, B>,
        last_replica: usize,
        groups: Seq<AtomGroupInfo<T>>,
        group_idx: usize,
        positions: &ElementRwLock<UniqueArcSliceRwLock<V>>,
        forces: &ElementRwLock<UniqueArcSliceRwLock<V>>,
        contribution: Option<Self::Output>,
    ) -> bool {
        true
    }

    /// Calculates the contribution of this group in the last replica to the
    /// value of the observable, such that the sum of all contributions of all
    /// groups in all replicas is the final value.
    ///
    /// Returns `None` if the last replica does not contribute to the
    /// observable value. This might happen with indistinguishable particles.
    fn calculate(
        &mut self,
        exchange_potential: &Stat<D, B>,
        last_replica: usize,
        groups: &[AtomGroupInfo<T>],
        group_idx: usize,
        positions: &ElementRwLock<UniqueArcSliceRwLock<V>>,
        forces: &ElementRwLock<UniqueArcSliceRwLock<V>>,
    ) -> (contribution: Option<Self::Output>)
        ensures
            old(self).contributes(
                final(self),
                exchange_potential,
                last_replica,
                groups@,
                group_idx,
                positions,
                forces,
                contribution,
            ),
    ;
}

/// An estimator marked [`InnerIsLeading`] serves the first replica as the
/// inner replica 0, which always contributes.
impl<T, V, D, B, U> LeadingQuantumObservable<T, V, D, B> for U where
    D: LeadingExchangePotential<T, V> + InnerExchangePotential<T, V> + Distinguishable,
    B: LeadingExchangePotential<T, V> + InnerExchangePotential<T, V> + Bosonic,
    U: InnerQuantumObservable<T, V, D, B> + InnerIsLeading,
 {
    type Output = <Self as InnerQuantumObservable<T, V, D, B>>::Output;

    open spec fn contributes(
        &self,
        after: &Self,
        exchange_potential: &Stat<D, B>,
        groups: Seq<AtomGroupInfo<T>>,
        group_idx: usize,
        positions: &ElementRwLock<UniqueArcSliceRwLock<V>>,
        forces: &ElementRwLock<UniqueArcSliceRwLock<V>>,
        contribution: Self::Output,
    ) -> bool {
        InnerQuantumObservable::contributes(
            self,
            after,
            exchange_potential,
            0,
            groups,
            group_idx,
            positions,
            forces,
            Some(contribution),
        )
    }

    fn calculate(
        &mut self,
        exchange_potential: &Stat<D, B>,
        groups: &[AtomGroupInfo<T>],
        group_idx: usize,
        positions: &ElementRwLock<UniqueArcSliceRwLock<V>>,
        forces: &ElementRwLock<UniqueArcSliceRwLock<V>>,
    ) -> (contribution: Self::Output) {
        InnerQuantumObservable::calculate(
            self,
            exchange_potential,
            0,
            groups,
            group_idx,
            positions,
            forces,
        ).unwrap()
    }
}

/// An estimator marked [`InnerIsTrailing`] serves the last replica as the
/// inner replica of its index.
impl<T, V, D, B, U> TrailingQuantumObservable<T, V, D, B> for U where
    D: TrailingExchangePotential<T, V> + InnerExchangePotential<T, V> + Distinguishable,
    B: TrailingExchangePotential<T, V> + InnerExchangePotential<T, V> + Bosonic,
    U: InnerQuantumObservable<T, V, D, B> + InnerIsTrailing,
 {
    type Output = <Self as InnerQuantumObservable<T, V, D, B>>::Output;

    open spec fn contributes(
        &self,
        after: &Self,
        exchange_potential: &Stat<D, B>,
        last_replica: usize,
        groups: Seq<AtomGroupInfo<T>>,
        group_idx: usize,
        positions: &ElementRwLock<UniqueArcSliceRwLock<V>>,
        forces: &ElementRwLock<UniqueArcSliceRwLock<V>>,
        contribution: Option<Self::Output>,
    ) -> bool {
        InnerQuantumObservable::contributes(
            self,
            after,
            exchange_potential,
            last_replica,
            groups,
            group_idx,
            positions,
            forces,
            contribution,
        )
    }

    fn calculate(
        &mut self,
        exchange_potential: &Stat<D, B>,
        last_replica: usize,
        groups: &[AtomGroupInfo<T>],
        group_idx: usize,
        positions: &ElementRwLock<UniqueArcSliceRwLock<V>>,
        forces: &ElementRwLock<UniqueArcSliceRwLock<V>>,
    ) -> (contribution: Option<Self::Output>) {
        InnerQuantumObservable::calculate(
            self,
            exchange_potential,
            last_replica,
            groups,
            group_idx,
            positions,
            forces,
        )
    }
}

/// A trait for quantities which may be used to debug the simulation,
/// returned from the first replica.
pub trait LeadingDebugObservable<T, V, D, B, A, M, E> where
    D: LeadingExchangePotential<T, V> + Distinguishable,
    B: LeadingExchangePotential<T, V> + Bosonic,
    A: SyncAddRecv<Self::Output> + ?Sized,
    M: SyncMulRecv<Self::Output> + ?Sized,
    E: From<A::Error> + From<M::Error>,
 {
    type Output;

    /// Calculates the quantity.
    ///
    /// Returns an error if a synchronization failure occurs.
    fn calculate(
        &mut self,
        adder: &mut A,
        multiplier: &mut M,
        exchange_potential: &Stat<D, B>,
        groups: &[AtomGroupInfo<T>],
        group_idx: usize,
        positions: &ElementRwLock<UniqueArcSliceRwLock<V>>,
        momenta: &ElementRwLock<UniqueArcSliceRwLock<V>>,
        forces: &ElementRwLock<UniqueArcSliceRwLock<V>>,
    ) -> Result<Self::Output, E>;
}

/// A trait for objects that assist a [`LeadingDebugObservable`] in
/// calculating the observable value from an inner replica.
pub trait InnerDebugObservable<T, V, D, B, A, M, E> where
    D: InnerExchangePotential<T, V> + Distinguishable,
    B: InnerExchangePotential<T, V> + Bosonic,
    A: SyncAddSend<Self::Output> + ?Sized,
    M: SyncMulSend<Self::Output> + ?Sized,
    E: From<A::Error> + From<M::Error>,
 {
    type Output;

    /// Whether a calculation may turn the observable into `after`, the adder
    /// into `adder_after` and the multiplier into `multiplier_after`, and end
    /// with `outcome`.
    open spec fn reports(
        &self,
        after: &Self,
        adder: &A,
        adder_after: &A,
        multiplier: &M,
        multiplier_after: &M,
        exchange_potential: &Stat<D, B>,
        replica: usize,
        groups: Seq<AtomGroupInfo<T>>,
        group_idx: usize,
        positions: &ElementRwLock<UniqueArcSliceRwLock<V>>,
        momenta: &ElementRwLock<UniqueArcSliceRwLock<V>>,
        forces: &ElementRwLock<UniqueArcSliceRwLock<V>>,
        outcome: Result<(), E>,
    ) -> bool {
        true
    }

    /// Calculates the quantity.
    ///
    /// Returns an error if a synchronization failure occurs.
    fn calculate(
        &mut self,
        adder: &mut A,
        multiplier: &mut M,
        exchange_potential: &Stat<D, B>,
        replica: usize,
        groups: &[AtomGroupInfo<T>],
        group_idx: usize,
        positions: &ElementRwLock<UniqueArcSliceRwLock<V>>,
        momenta: &ElementRwLock<UniqueArcSliceRwLock<V>>,
        forces: &ElementRwLock<UniqueArcSliceRwLock<V>>,
    ) -> (outcome: Result<(), E>)
        ensures
            old(self).reports(
                final(self),
                old(adder),
                final(adder),
                old(multiplier),
                final(multiplier),
                exchange_potential,
                replica,
                groups@,
                group_idx,
                positions,
                momenta,
                forces,
                outcome,
            ),
    ;
}

/// A trait for objects that assist a [`LeadingDebugObservable`] in
/// calculating the observable value from the last replica.
pub trait TrailingDebugObservable<T, V, D, B, A, M, E> where
    D: TrailingExchangePotential<T, V> + Distinguishable,
    B: TrailingExchangePotential<T, V> + Bosonic,
    A: SyncAddSend<Self::Output> + ?Sized,
    M: SyncMulSend<Self::Output> + ?Sized,
    E: From<A::Error> + From<M::Error>,
 {
    type Output;

    /// Whether a calculation may turn the observable into `after`, the adder
    /// into `adder_after` and the multiplier into `multiplier_after`, and end
    /// with `outcome`.
    open spec fn reports(
        &self,
        after: &Self,
        adder: &A,
        adder_after: &A,
        multiplier: &M,
        multiplier_after: &M,
        exchange_potential: &Stat<D, B>,
        last_replica: usize,
        groups: Seq<AtomGroupInfo<T>>,
        group_idx: usize,
        positions: &ElementRwLock<UniqueArcSliceRwLock<V>>,
        momenta: &ElementRwLock<UniqueArcSliceRwLock<V>>,
        forces: &ElementRwLock<UniqueArcSliceRwLock<V>>,
        outcome: Result<(), E>,
    ) -> bool {
        true
    }

    /// Calculates the quantity.
    ///
    /// Returns an error if a synchronization failure occurs.
    fn calculate(
        &mut self,
        adder: &mut A,
        multiplier: &mut M,
        exchange_potential: &Stat<D, B>,
        last_replica: usize,
        groups: &[AtomGroupInfo<T>],
        group_idx: usize,
        positions: &ElementRwLock<UniqueArcSliceRwLock<V>>,
        momenta: &ElementRwLock<UniqueArcSliceRwLock<V>>,
        forces: &ElementRwLock<UniqueArcSliceRwLock<V>>,
    ) -> (outcome: Result<(), E>)
        ensures
            old(self).reports(
                final(self),
                old(adder),
                final(adder),
                old(multiplier),
                final(multiplier),
                exchange_potential,
                last_replica,
                groups@,
                group_idx,
                positions,
                momenta,
                forces,
                outcome,
            ),
    ;
}

/// An observable marked [`InnerIsTrailing`] serves the last replica as the
/// inner replica of its index.
impl<T, V, D, B, A, M, E, U> TrailingDebugObservable<T, V, D, B, A, M, E> for U where
    D: TrailingExchangePotential<T, V> + InnerExchangePotential<T, V> + Distinguishable,
    B: TrailingExchangePotential<T, V> + InnerExchangePotential<T, V> + Bosonic,
    A: SyncAddSend<<Self as InnerDebugObservable<T, V, D, B, A, M, E>>::Output> + ?Sized,
    M: SyncMulSend<<Self as InnerDebugObservable<T, V, D, B, A, M, E>>::Output> + ?Sized,
    E: From<A::Error> + From<M::Error>,
    U: InnerDebugObservable<T, V, D, B, A, M, E> + InnerIsTrailing,
 {
    type Output = <Self as InnerDebugObservable<T, V, D, B, A, M, E>>::Output;

    open spec fn reports(
        &self,
        after: &Self,
        adder: &A,
        adder_after: &A,
        multiplier: &M,
        multiplier_after: &M,
        exchange_potential: &Stat<D, B>,
        last_replica: usize,
        groups: Seq<AtomGroupInfo<T>>,
        group_idx: usize,
        positions: &ElementRwLock<UniqueArcSliceRwLock<V>>,
        momenta: &ElementRwLock<UniqueArcSliceRwLock<V>>,
        forces: &ElementRwLock<UniqueArcSliceRwLock<V>>,
        outcome: Result<(), E>,
    ) -> bool {
        InnerDebugObservable::reports(
            self,
            after,
            adder,
            adder_after,
            multiplier,
            multiplier_after,
            exchange_potential,
            last_replica,
            groups,
            group_idx,
            positions,
            momenta,
            forces,
            outcome,
        )
    }

    fn calculate(
        &mut self,
        adder: &mut A,
        multiplier: &mut M,
        exchange_potential: &Stat<D, B>,
        last_replica: usize,
        groups: &[AtomGroupInfo<T>],
        group_idx: usize,
        positions: &ElementRwLock<UniqueArcSliceRwLock<V>>,
        momenta: &ElementRwLock<UniqueArcSliceRwLock<V>>,
        forces: &ElementRwLock<UniqueArcSliceRwLock<V>>,
    ) -> (outcome: Result<(), E>) {
        InnerDebugObservable::calculate(
            self,
            adder,
            multiplier,
            exchange_potential,
            last_replica,
            groups,
            group_idx,
            positions,
            momenta,
            forces,
        )
    }
}

} // verus!
