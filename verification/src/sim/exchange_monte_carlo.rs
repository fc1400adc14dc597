//! Exchange potentials for Monte-Carlo moves: what a change in the position
//! of one atom, in a replica or in one of its neighbours, does to the energy
//! that the replica contributes.
//!
//! As in [`crate::sim::exchange`], each trait says in a spec function what a
//! call may leave behind, and the impls below promise what the inner
//! potential promises for the replica they hand on.

use vstd::prelude::*;

use crate::sim::exchange::InnerExchangePotential;
use crate::sim::exchange::LeadingExchangePotential;
use crate::sim::exchange::TrailingExchangePotential;
use crate::sim::group::AtomGroupInfo;
use crate::sim::physical_monte_carlo::MonteCarloCall;
use crate::sim::stat::InnerIsLeading;
use crate::sim::stat::InnerIsTrailing;

verus! {

/// The replica in which a position was changed, as seen from a replica next
/// to it or from that replica itself.
#[derive(Clone, Copy, Debug)]
pub enum NeighboringReplica {
    This,
    Prev,
    Next,
}

/// A trait for exchange potentials of the first replica that may be used in a
/// Monte-Carlo algorithm.
pub trait LeadingMonteCarloExchangePotential<T, V>: LeadingExchangePotential<T, V> {
    /// Whether a call of the method named by `call` may turn the potential
    /// into `after` and the forces into `forces_after`, and return `energy`.
    /// A method without forces takes and leaves none.
    open spec fn answers_change(
        &self,
        after: &Self,
        call: MonteCarloCall,
        group: &AtomGroupInfo<T>,
        changed_replica: NeighboringReplica,
        changed_atom_idx: usize,
        old_value: V,
        positions_last_replica: Seq<V>,
        positions_next_replica: Seq<V>,
        positions: Seq<V>,
        forces: Seq<V>,
        forces_after: Seq<V>,
        energy: T,
    ) -> bool {
        true
    }

    /// Calculates the contribution of the first replica to the change in
    /// total exchange potential energy of this group after a change in the
    /// position of a single atom in either a neighboring or the first replica
    /// and updates the forces of this group in the first replica accordingly.
    ///
    /// Returns the contribution to the change in total energy.
    fn calculate_potential_diff_set_changed_forces(
        &mut self,
        group: &AtomGroupInfo<T>,
        changed_replica: NeighboringReplica,
        changed_atom_idx: usize,
        old_value: V,
        positions_last_replica: &[V],
        positions_next_replica: &[V],
        positions: &[V],
        forces: &mut [V],
    ) -> (energy: T)
        ensures
            old(self).answers_change(
                final(self),
                MonteCarloCall::CalculatePotentialDiffSetChangedForces,
                group,
                changed_replica,
                changed_atom_idx,
                old_value,
                positions_last_replica@,
                positions_next_replica@,
                positions@,
                old(forces)@,
                final(forces)@,
                energy,
            ),
    ;

    /// Calculates the contribution of the first replica to the change in
    /// total exchange potential energy of this group after a change in the
    /// position of a single atom in either a neighboring or the first replica
    /// and adds the updated forces to the forces of this group in the first
    /// replica.
    ///
    /// Returns the contribution to the change in total energy.
    fn calculate_potential_diff_add_changed_forces(
        &mut self,
        group: &AtomGroupInfo<T>,
        changed_replica: NeighboringReplica,
        changed_atom_idx: usize,
        old_value: V,
        positions_last_replica: &[V],
        positions_next_replica: &[V],
        positions: &[V],
        forces: &mut [V],
    ) -> (energy: T)
        ensures
            old(self).answers_change(
                final(self),
                MonteCarloCall::CalculatePotentialDiffAddChangedForces,
                group,
                changed_replica,
                changed_atom_idx,
                old_value,
                positions_last_replica@,
                positions_next_replica@,
                positions@,
                old(forces)@,
                final(forces)@,
                energy,
            ),
    ;

    /// Calculates the contribution of the first replica to the change in
    /// total exchange potential energy of this group after a change in the
    /// position of a single atom in either a neighboring or the first
    /// replica.
    ///
    /// Returns the contribution to the change in total energy.
    fn calculate_potential_diff(
        &mut self,
        group: &AtomGroupInfo<T>,
        changed_replica: NeighboringReplica,
        changed_atom_idx: usize,
        old_value: V,
        positions_last_replica: &[V],
        positions_next_replica: &[V],
        positions: &[V],
    ) -> (energy: T)
        ensures
            old(self).answers_change(
                final(self),
                MonteCarloCall::CalculatePotentialDiff,
                group,
                changed_replica,
                changed_atom_idx,
                old_value,
                positions_last_replica@,
                positions_next_replica@,
                positions@,
                Seq::empty(),
                Seq::empty(),
                energy,
            ),
    ;

    /// Updates the forces of this group in the first replica after a change
    /// in the position of a single atom in either a neighboring or the first
    /// replica.
    fn set_changed_forces(
        &mut self,
        group: &AtomGroupInfo<T>,
        changed_replica: NeighboringReplica,
        changed_atom_idx: usize,
        old_value: V,
        positions_last_replica: &[V],
        positions_next_replica: &[V],
        positions: &[V],
        forces: &mut [V],
    ) -> (energy: T)
        ensures
            old(self).answers_change(
                final(self),
                MonteCarloCall::SetChangedForces,
                group,
                changed_replica,
                changed_atom_idx,
                old_value,
                positions_last_replica@,
                positions_next_replica@,
                positions@,
                old(forces)@,
                final(forces)@,
                energy,
            ),
    ;

    /// Adds the updated forces to the forces of this group in the first
    /// replica given a change in the position of a single atom in either a
    /// neighboring or the first replica.
    fn add_changed_forces(
        &mut self,
        group: &AtomGroupInfo<T>,
        changed_replica: NeighboringReplica,
        changed_atom_idx: usize,
        old_value: V,
        positions_last_replica: &[V],
        positions_next_replica: &[V],
        positions: &[V],
        forces: &mut [V],
    ) -> (energy: T)
        ensures
            old(self).answers_change(
                final(self),
                MonteCarloCall::AddChangedForces,
                group,
                changed_replica,
                changed_atom_idx,
                old_value,
                positions_last_replica@,
                positions_next_replica@,
                positions@,
                old(forces)@,
                final(forces)@,
                energy,
            ),
    ;
}

/// A trait for exchange potentials of an inner replica that may be used in a
/// Monte-Carlo algorithm.
pub trait InnerMonteCarloExchangePotential<T, V>: InnerExchangePotential<T, V> {
    /// Whether a call of the method named by `call` may turn the potential
    /// into `after` and the forces into `forces_after`, and return `energy`.
    /// A method without forces takes and leaves none.
    open spec fn answers_change(
        &self,
        after: &Self,
        call: MonteCarloCall,
        replica: usize,
        group: &AtomGroupInfo<T>,
        changed_replica: NeighboringReplica,
        changed_atom_idx: usize,
        old_value: V,
        positions_prev_replica: Seq<V>,
        positions_next_replica: Seq<V>,
        positions: Seq<V>,
        forces: Seq<V>,
        forces_after: Seq<V>,
        energy: T,
    ) -> bool {
        true
    }

    /// Calculates the contribution of this replica to the change in total
    /// exchange potential energy of this group after a change in the position
    /// of a single atom in either a neighboring or this replica and updates
    /// the forces of this group in this replica accordingly.
    ///
    /// Returns the contribution to the change in total energy.
    fn calculate_potential_diff_set_changed_forces(
        &mut self,
        replica: usize,
        group: &AtomGroupInfo<T>,
        changed_replica: NeighboringReplica,
        changed_atom_idx: usize,
        old_value: V,
        positions_prev_replica: &[V],
        positions_next_replica: &[V],
        positions: &[V],
        forces: &mut [V],
    ) -> (energy: T)
        ensures
            old(self).answers_change(
                final(self),
                MonteCarloCall::CalculatePotentialDiffSetChangedForces,
                replica,
                group,
                changed_replica,
                changed_atom_idx,
                old_value,
                positions_prev_replica@,
                positions_next_replica@,
                positions@,
                old(forces)@,
                final(forces)@,
                energy,
            ),
    ;

    /// Calculates the contribution of this replica to the change in total
    /// exchange potential energy of this group after a change in the position
    /// of a single atom in either a neighboring or this replica and adds the
    /// updated forces to the forces of this group in this replica.
    ///
    /// Returns the contribution to the change in total energy.
    fn calculate_potential_diff_add_changed_forces(
        &mut self,
        replica: usize,
        group: &AtomGroupInfo<T>,
        changed_replica: NeighboringReplica,
        changed_atom_idx: usize,
        old_value: V,
        positions_prev_replica: &[V],
        positions_next_replica: &[V],
        positions: &[V],
        forces: &mut [V],
    ) -> (energy: T)
        ensures
            old(self).answers_change(
                final(self),
                MonteCarloCall::CalculatePotentialDiffAddChangedForces,
                replica,
                group,
                changed_replica,
                changed_atom_idx,
                old_value,
                positions_prev_replica@,
                positions_next_replica@,
                positions@,
                old(forces)@,
                final(forces)@,
                energy,
            ),
    ;

    /// Calculates the contribution of this replica to the change in total
    /// exchange potential energy of this group after a change in the position
    /// of a single atom in either a neighboring or this replica.
    ///
    /// Returns the contribution to the change in total energy.
    fn calculate_potential_diff(
        &mut self,
        replica: usize,
        group: &AtomGroupInfo<T>,
        changed_replica: NeighboringReplica,
        changed_atom_idx: usize,
        old_value: V,
        positions_prev_replica: &[V],
        positions_next_replica: &[V],
        positions: &[V],
    ) -> (energy: T)
        ensures
            old(self).answers_change(
                final(self),
                MonteCarloCall::CalculatePotentialDiff,
                replica,
                group,
                changed_replica,
                changed_atom_idx,
                old_value,
                positions_prev_replica@,
                positions_next_replica@,
                positions@,
                Seq::empty(),
                Seq::empty(),
                energy,
            ),
    ;

    /// Updates the forces of this group in this replica after a change in the
    /// position of a single atom in either a neighboring or this replica.
    fn set_changed_forces(
        &mut self,
        replica: usize,
        group: &AtomGroupInfo<T>,
        changed_replica: NeighboringReplica,
        changed_atom_idx: usize,
        old_value: V,
        positions_prev_replica: &[V],
        positions_next_replica: &[V],
        positions: &[V],
        forces: &mut [V],
    ) -> (energy: T)
        ensures
            old(self).answers_change(
                final(self),
                MonteCarloCall::SetChangedForces,
                replica,
                group,
                changed_replica,
                changed_atom_idx,
                old_value,
                positions_prev_replica@,
                positions_next_replica@,
                positions@,
                old(forces)@,
                final(forces)@,
                energy,
            ),
    ;

    /// Adds the updated forces to the forces of this group in this replica
    /// given a change in the position of a single atom in either a
    /// neighboring or this replica.
    fn add_changed_forces(
        &mut self,
        replica: usize,
        group: &AtomGroupInfo<T>,
        changed_replica: NeighboringReplica,
        changed_atom_idx: usize,
        old_value: V,
        positions_prev_replica: &[V],
        positions_next_replica: &[V],
        positions: &[V],
        forces: &mut [V],
    ) -> (energy: T)
        ensures
            old(self).answers_change(
                final(self),
                MonteCarloCall::AddChangedForces,
                replica,
                group,
                changed_replica,
                changed_atom_idx,
                old_value,
                positions_prev_replica@,
                positions_next_replica@,
                positions@,
                old(forces)@,
                final(forces)@,
                energy,
            ),
    ;
}

/// A trait for exchange potentials of the last replica that may be used in a
/// Monte-Carlo algorithm.
pub trait TrailingMonteCarloExchangePotential<T, V>: TrailingExchangePotential<T, V> {
    /// Whether a call of the method named by `call` may turn the potential
    /// into `after` and the forces into `forces_after`, and return `energy`.
    /// A method without forces takes and leaves none.
    open spec fn answers_change(
        &self,
        after: &Self,
        call: MonteCarloCall,
        last_replica: usize,
        group: &AtomGroupInfo<T>,
        changed_replica: NeighboringReplica,
        changed_atom_idx: usize,
        old_value: V,
        positions_prev_replica: Seq<V>,
        positions_first_replica: Seq<V>,
        positions: Seq<V>,
        forces: Seq<V>,
        forces_after: Seq<V>,
        energy: T,
    ) -> bool {
        true
    }

    /// Calculates the contribution of the last replica to the change in total
    /// exchange potential energy of this group after a change in the position
    /// of a single atom in either a neighboring or the last replica and
    /// updates the forces of this group in the last replica accordingly.
    ///
    /// Returns the contribution to the change in total energy.
    fn calculate_potential_diff_set_changed_forces(
        &mut self,
        last_replica: usize,
        group: &AtomGroupInfo<T>,
        changed_replica: NeighboringReplica,
        changed_atom_idx: usize,
        old_value: V,
        positions_prev_replica: &[V],
        positions_first_replica: &[V],
        positions: &[V],
        forces: &mut [V],
    ) -> (energy: T)
        ensures
            old(self).answers_change(
                final(self),
                MonteCarloCall::CalculatePotentialDiffSetChangedForces,
                last_replica,
                group,
                changed_replica,
                changed_atom_idx,
                old_value,
                positions_prev_replica@,
                positions_first_replica@,
                positions@,
                old(forces)@,
                final(forces)@,
                energy,
            ),
    ;

    /// Calculates the contribution of the last replica to the change in total
    /// exchange potential energy of this group after a change in the position
    /// of a single atom in either a neighboring or the last replica and adds
    /// the updated forces to the forces of this group in the last replica.
    ///
    /// Returns the contribution to the change in total energy.
    fn calculate_potential_diff_add_changed_forces(
        &mut self,
        last_replica: usize,
        group: &AtomGroupInfo<T>,
        changed_replica: NeighboringReplica,
        changed_atom_idx: usize,
        old_value: V,
        positions_prev_replica: &[V],
        positions_first_replica: &[V],
        positions: &[V],
        forces: &mut [V],
    ) -> (energy: T)
        ensures
            old(self).answers_change(
                final(self),
                MonteCarloCall::CalculatePotentialDiffAddChangedForces,
                last_replica,
                group,
                changed_replica,
                changed_atom_idx,
                old_value,
                positions_prev_replica@,
                positions_first_replica@,
                positions@,
                old(forces)@,
                final(forces)@,
                energy,
            ),
    ;

    /// Calculates the contribution of the last replica to the change in total
    /// exchange potential energy of this group after a change in the position
    /// of a single atom in either a neighboring or the last replica.
    ///
    /// Returns the contribution to the change in total energy.
    fn calculate_potential_diff(
        &mut self,
        last_replica: usize,
        group: &AtomGroupInfo<T>,
        changed_replica: NeighboringReplica,
        changed_atom_idx: usize,
        old_value: V,
        positions_prev_replica: &[V],
        positions_first_replica: &[V],
        positions: &[V],
    ) -> (energy: T)
        ensures
            old(self).answers_change(
                final(self),
                MonteCarloCall::CalculatePotentialDiff,
                last_replica,
                group,
                changed_replica,
                changed_atom_idx,
                old_value,
                positions_prev_replica@,
                positions_first_replica@,
                positions@,
                Seq::empty(),
                Seq::empty(),
                energy,
            ),
    ;

    /// Updates the forces of this group in the last replica after a change in
    /// the position of a single atom in either a neighboring or the last
    /// replica.
    fn set_changed_forces(
        &mut self,
        last_replica: usize,
        group: &AtomGroupInfo<T>,
        changed_replica: NeighboringReplica,
        changed_atom_idx: usize,
        old_value: V,
        positions_prev_replica: &[V],
        positions_first_replica: &[V],
        positions: &[V],
        forces: &mut [V],
    ) -> (energy: T)
        ensures
            old(self).answers_change(
                final(self),
                MonteCarloCall::SetChangedForces,
                last_replica,
                group,
                changed_replica,
                changed_atom_idx,
                old_value,
                positions_prev_replica@,
                positions_first_replica@,
                positions@,
                old(forces)@,
                final(forces)@,
                energy,
            ),
    ;

    /// Adds the updated forces to the forces of this group in the last
    /// replica given a change in the position of a single atom in either a
    /// neighboring or the last replica.
    fn add_changed_forces(
        &mut self,
        last_replica: usize,
        group: &AtomGroupInfo<T>,
        changed_replica: NeighboringReplica,
        changed_atom_idx: usize,
        old_value: V,
        positions_prev_replica: &[V],
        positions_first_replica: &[V],
        positions: &[V],
        forces: &mut [V],
    ) -> (energy: T)
        ensures
            old(self).answers_change(
                final(self),
                MonteCarloCall::AddChangedForces,
                last_replica,
                group,
                changed_replica,
                changed_atom_idx,
                old_value,
                positions_prev_replica@,
                positions_first_replica@,
                positions@,
                old(forces)@,
                final(forces)@,
                energy,
            ),
    ;
}

/// A potential marked [`InnerIsLeading`] serves the first replica as the inner replica 0: each method answers
/// what the method of the same name answers for that inner replica.
impl<T, V, U> LeadingMonteCarloExchangePotential<T, V> for U where
    U: InnerMonteCarloExchangePotential<T, V> + InnerIsLeading,
 {
    open spec fn answers_change(
        &self,
        after: &Self,
        call: MonteCarloCall,
        group: &AtomGroupInfo<T>,
        changed_replica: NeighboringReplica,
        changed_atom_idx: usize,
        old_value: V,
        positions_last_replica: Seq<V>,
        positions_next_replica: Seq<V>,
        positions: Seq<V>,
        forces: Seq<V>,
        forces_after: Seq<V>,
        energy: T,
    ) -> bool {
        InnerMonteCarloExchangePotential::answers_change(
            self,
            after,
            call,
            0,
            group,
            changed_replica,
            changed_atom_idx,
            old_value,
            positions_last_replica,
            positions_next_replica,
            positions,
            forces,
            forces_after,
            energy,
        )
    }

    fn calculate_potential_diff_set_changed_forces(
        &mut self,
        group: &AtomGroupInfo<T>,
        changed_replica: NeighboringReplica,
        changed_atom_idx: usize,
        old_value: V,
        positions_last_replica: &[V],
        positions_next_replica: &[V],
        positions: &[V],
        forces: &mut [V],
    ) -> (energy: T) {
        InnerMonteCarloExchangePotential::calculate_potential_diff_set_changed_forces(
            self,
            0,
            group,
            changed_replica,
            changed_atom_idx,
            old_value,
            positions_last_replica,
            positions_next_replica,
            positions,
            forces,
        )
    }

    fn calculate_potential_diff_add_changed_forces(
        &mut self,
        group: &AtomGroupInfo<T>,
        changed_replica: NeighboringReplica,
        changed_atom_idx: usize,
        old_value: V,
        positions_last_replica: &[V],
        positions_next_replica: &[V],
        positions: &[V],
        forces: &mut [V],
    ) -> (energy: T) {
        InnerMonteCarloExchangePotential::calculate_potential_diff_add_changed_forces(
            self,
            0,
            group,
            changed_replica,
            changed_atom_idx,
            old_value,
            positions_last_replica,
            positions_next_replica,
            positions,
            forces,
        )
    }

    fn calculate_potential_diff(
        &mut self,
        group: &AtomGroupInfo<T>,
        changed_replica: NeighboringReplica,
        changed_atom_idx: usize,
        old_value: V,
        positions_last_replica: &[V],
        positions_next_replica: &[V],
        positions: &[V],
    ) -> (energy: T) {
        InnerMonteCarloExchangePotential::calculate_potential_diff(
            self,
            0,
            group,
            changed_replica,
            changed_atom_idx,
            old_value,
            positions_last_replica,
            positions_next_replica,
            positions,
        )
    }

    fn set_changed_forces(
        &mut self,
        group: &AtomGroupInfo<T>,
        changed_replica: NeighboringReplica,
        changed_atom_idx: usize,
        old_value: V,
        positions_last_replica: &[V],
        positions_next_replica: &[V],
        positions: &[V],
        forces: &mut [V],
    ) -> (energy: T) {
        InnerMonteCarloExchangePotential::set_changed_forces(
            self,
            0,
            group,
            changed_replica,
            changed_atom_idx,
            old_value,
            positions_last_replica,
            positions_next_replica,
            positions,
            forces,
        )
    }

    fn add_changed_forces(
        &mut self,
        group: &AtomGroupInfo<T>,
        changed_replica: NeighboringReplica,
        changed_atom_idx: usize,
        old_value: V,
        positions_last_replica: &[V],
        positions_next_replica: &[V],
        positions: &[V],
        forces: &mut [V],
    ) -> (energy: T) {
        InnerMonteCarloExchangePotential::add_changed_forces(
            self,
            0,
            group,
            changed_replica,
            changed_atom_idx,
            old_value,
            positions_last_replica,
            positions_next_replica,
            positions,
            forces,
        )
    }
}

/// A potential marked [`InnerIsTrailing`] serves the last replica as the inner replica of its index: each method answers
/// what the method of the same name answers for that inner replica.
impl<T, V, U> TrailingMonteCarloExchangePotential<T, V> for U where
    U: InnerMonteCarloExchangePotential<T, V> + InnerIsTrailing,
 {
    open spec fn answers_change(
        &self,
        after: &Self,
        call: MonteCarloCall,
        last_replica: usize,
        group: &AtomGroupInfo<T>,
        changed_replica: NeighboringReplica,
        changed_atom_idx: usize,
        old_value: V,
        positions_prev_replica: Seq<V>,
        positions_first_replica: Seq<V>,
        positions: Seq<V>,
        forces: Seq<V>,
        forces_after: Seq<V>,
        energy: T,
    ) -> bool {
        InnerMonteCarloExchangePotential::answers_change(
            self,
            after,
            call,
            last_replica,
            group,
            changed_replica,
            changed_atom_idx,
            old_value,
            positions_prev_replica,
            positions_first_replica,
            positions,
            forces,
            forces_after,
            energy,
        )
    }

    fn calculate_potential_diff_set_changed_forces(
        &mut self,
        last_replica: usize,
        group: &AtomGroupInfo<T>,
        changed_replica: NeighboringReplica,
        changed_atom_idx: usize,
        old_value: V,
        positions_prev_replica: &[V],
        positions_first_replica: &[V],
        positions: &[V],
        forces: &mut [V],
    ) -> (energy: T) {
        InnerMonteCarloExchangePotential::calculate_potential_diff_set_changed_forces(
            self,
            last_replica,
            group,
            changed_replica,
            changed_atom_idx,
            old_value,
            positions_prev_replica,
            positions_first_replica,
            positions,
            forces,
        )
    }

    fn calculate_potential_diff_add_changed_forces(
        &mut self,
        last_replica: usize,
        group: &AtomGroupInfo<T>,
        changed_replica: NeighboringReplica,
        changed_atom_idx: usize,
        old_value: V,
        positions_prev_replica: &[V],
        positions_first_replica: &[V],
        positions: &[V],
        forces: &mut [V],
    ) -> (energy: T) {
        InnerMonteCarloExchangePotential::calculate_potential_diff_add_changed_forces(
            self,
            last_replica,
            group,
            changed_replica,
            changed_atom_idx,
            old_value,
            positions_prev_replica,
            positions_first_replica,
            positions,
            forces,
        )
    }

    fn calculate_potential_diff(
        &mut self,
        last_replica: usize,
        group: &AtomGroupInfo<T>,
        changed_replica: NeighboringReplica,
        changed_atom_idx: usize,
        old_value: V,
        positions_prev_replica: &[V],
        positions_first_replica: &[V],
        positions: &[V],
    ) -> (energy: T) {
        InnerMonteCarloExchangePotential::calculate_potential_diff(
            self,
            last_replica,
            group,
            changed_replica,
            changed_atom_idx,
            old_value,
            positions_prev_replica,
            positions_first_replica,
            positions,
        )
    }

    fn set_changed_forces(
        &mut self,
        last_replica: usize,
        group: &AtomGroupInfo<T>,
        changed_replica: NeighboringReplica,
        changed_atom_idx: usize,
        old_value: V,
        positions_prev_replica: &[V],
        positions_first_replica: &[V],
        positions: &[V],
        forces: &mut [V],
    ) -> (energy: T) {
        InnerMonteCarloExchangePotential::set_changed_forces(
            self,
            last_replica,
            group,
            changed_replica,
            changed_atom_idx,
            old_value,
            positions_prev_replica,
            positions_first_replica,
            positions,
            forces,
        )
    }

    fn add_changed_forces(
        &mut self,
        last_replica: usize,
        group: &AtomGroupInfo<T>,
        changed_replica: NeighboringReplica,
        changed_atom_idx: usize,
        old_value: V,
        positions_prev_replica: &[V],
        positions_first_replica: &[V],
        positions: &[V],
        forces: &mut [V],
    ) -> (energy: T) {
        InnerMonteCarloExchangePotential::add_changed_forces(
            self,
            last_replica,
            group,
            changed_replica,
            changed_atom_idx,
            old_value,
            positions_prev_replica,
            positions_first_replica,
            positions,
            forces,
        )
    }
}

} // verus!
