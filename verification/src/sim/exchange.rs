//! Exchange potentials: what one replica contributes to the energy that
//! binds the replicas of a group together.
//!
//! The first and the last replica have neighbours of their own kind, so each
//! has a trait of its own. A potential that treats them as it treats an inner
//! replica says so with a marker, and gets their traits from the impls below.
//!
//! Each trait has a spec function `answers`, which says what a call of one of
//! its methods may leave behind: the potential after the call, the forces
//! after the call, and the energy returned. A potential that says nothing
//! there promises nothing; the impls below promise what the inner potential
//! promises for the replica they hand on.

use vstd::prelude::*;

use crate::sim::group::AtomGroupInfo;
use crate::sim::physical::PotentialCall;
use crate::sim::stat::InnerIsLeading;
use crate::sim::stat::InnerIsTrailing;

verus! {

/// A trait for exchange potentials that yield the contribution of the first
/// replica to the total exchange potential energy of a given group.
pub trait LeadingExchangePotential<T, V> {
    /// Whether a call of the method named by `call` may turn the potential
    /// into `after` and the forces into `forces_after`, and return `energy`.
    /// A method without forces takes and leaves none; a method that returns
    /// nothing has no energy.
    open spec fn answers(
        &self,
        after: &Self,
        call: PotentialCall,
        group: &AtomGroupInfo<T>,
        last_replica_group_positions: Seq<V>,
        position_next_replica: Seq<V>,
        group_positions: Seq<V>,
        forces: Seq<V>,
        forces_after: Seq<V>,
        energy: Option<T>,
    ) -> bool {
        true
    }

    /// Calculates the contribution of the first replica to the total exchange
    /// potential energy of the group and sets the forces of this group in the
    /// first replica accordingly.
    ///
    /// Returns the contribution to the total energy.
    fn calculate_potential_set_forces(
        &mut self,
        group: &AtomGroupInfo<T>,
        last_replica_group_positions: &[V],
        position_next_replica: &[V],
        group_positions: &[V],
        group_forces: &mut [V],
    ) -> (energy: T)
        ensures
            old(self).answers(
                final(self),
                PotentialCall::CalculatePotentialSetForces,
                group,
                last_replica_group_positions@,
                position_next_replica@,
                group_positions@,
                old(group_forces)@,
                final(group_forces)@,
                Some(energy),
            ),
    ;

    /// Calculates the contribution of the first replica to the total exchange
    /// potential energy of the group and adds the forces arising from this
    /// potential to the forces of this group in the first replica.
    ///
    /// Returns the contribution to the total energy.
    fn calculate_potential_add_forces(
        &mut self,
        group: &AtomGroupInfo<T>,
        last_replica_group_positions: &[V],
        position_next_replica: &[V],
        group_positions: &[V],
        group_forces: &mut [V],
    ) -> (energy: T)
        ensures
            old(self).answers(
                final(self),
                PotentialCall::CalculatePotentialAddForces,
                group,
                last_replica_group_positions@,
                position_next_replica@,
                group_positions@,
                old(group_forces)@,
                final(group_forces)@,
                Some(energy),
            ),
    ;

    /// Calculates the contribution of the first replica to the total exchange
    /// potential energy of the group.
    ///
    /// Returns the contribution to the total energy.
    fn calculate_potential(
        &mut self,
        group: &AtomGroupInfo<T>,
        last_replica_group_positions: &[V],
        position_next_replica: &[V],
        group_positions: &[V],
    ) -> (energy: T)
        ensures
            old(self).answers(
                final(self),
                PotentialCall::CalculatePotential,
                group,
                last_replica_group_positions@,
                position_next_replica@,
                group_positions@,
                Seq::empty(),
                Seq::empty(),
                Some(energy),
            ),
    ;

    /// Sets the forces of this group in the first replica.
    fn set_forces(
        &mut self,
        group: &AtomGroupInfo<T>,
        last_replica_group_positions: &[V],
        position_next_replica: &[V],
        group_positions: &[V],
        group_forces: &mut [V],
    )
        ensures
            old(self).answers(
                final(self),
                PotentialCall::SetForces,
                group,
                last_replica_group_positions@,
                position_next_replica@,
                group_positions@,
                old(group_forces)@,
                final(group_forces)@,
                None,
            ),
    ;

    /// Adds the forces arising from this potential to the forces of this
    /// group in the first replica.
    fn add_forces(
        &mut self,
        group: &AtomGroupInfo<T>,
        last_replica_group_positions: &[V],
        position_next_replica: &[V],
        group_positions: &[V],
        group_forces: &mut [V],
    )
        ensures
            old(self).answers(
                final(self),
                PotentialCall::AddForces,
                group,
                last_replica_group_positions@,
                position_next_replica@,
                group_positions@,
                old(group_forces)@,
                final(group_forces)@,
                None,
            ),
    ;
}

/// A trait for exchange potentials that yield the contribution of an inner
/// replica to the total exchange potential energy of a given group.
pub trait InnerExchangePotential<T, V> {
    /// Whether a call of the method named by `call` may turn the potential
    /// into `after` and the forces into `forces_after`, and return `energy`.
    /// A method without forces takes and leaves none; a method that returns
    /// nothing has no energy.
    open spec fn answers(
        &self,
        after: &Self,
        call: PotentialCall,
        replica: usize,
        group: &AtomGroupInfo<T>,
        prev_replica_group_positions: Seq<V>,
        position_next_replica: Seq<V>,
        group_positions: Seq<V>,
        forces: Seq<V>,
        forces_after: Seq<V>,
        energy: Option<T>,
    ) -> bool {
        true
    }

    /// Calculates the contribution of this replica to the total exchange
    /// potential energy of the group and sets the forces of this group in
    /// this replica accordingly.
    ///
    /// Returns the contribution to the total energy.
    fn calculate_potential_set_forces(
        &mut self,
        replica: usize,
        group: &AtomGroupInfo<T>,
        prev_replica_group_positions: &[V],
        position_next_replica: &[V],
        group_positions: &[V],
        group_forces: &mut [V],
    ) -> (energy: T)
        ensures
            old(self).answers(
                final(self),
                PotentialCall::CalculatePotentialSetForces,
                replica,
                group,
                prev_replica_group_positions@,
                position_next_replica@,
                group_positions@,
                old(group_forces)@,
                final(group_forces)@,
                Some(energy),
            ),
    ;

    /// Calculates the contribution of this replica to the total exchange
    /// potential energy of the group and adds the forces arising from this
    /// potential to the forces of this group in this replica.
    ///
    /// Returns the contribution to the total energy.
    fn calculate_potential_add_forces(
        &mut self,
        replica: usize,
        group: &AtomGroupInfo<T>,
        prev_replica_group_positions: &[V],
        position_next_replica: &[V],
        group_positions: &[V],
        group_forces: &mut [V],
    ) -> (energy: T)
        ensures
            old(self).answers(
                final(self),
                PotentialCall::CalculatePotentialAddForces,
                replica,
                group,
                prev_replica_group_positions@,
                position_next_replica@,
                group_positions@,
                old(group_forces)@,
                final(group_forces)@,
                Some(energy),
            ),
    ;

    /// Calculates the contribution of this replica to the total exchange
    /// potential energy of the group.
    ///
    /// Returns the contribution to the total energy.
    fn calculate_potential(
        &mut self,
        replica: usize,
        group: &AtomGroupInfo<T>,
        prev_replica_group_positions: &[V],
        position_next_replica: &[V],
        group_positions: &[V],
    ) -> (energy: T)
        ensures
            old(self).answers(
                final(self),
                PotentialCall::CalculatePotential,
                replica,
                group,
                prev_replica_group_positions@,
                position_next_replica@,
                group_positions@,
                Seq::empty(),
                Seq::empty(),
                Some(energy),
            ),
    ;

    /// Sets the forces of this group in this replica.
    fn set_forces(
        &mut self,
        replica: usize,
        group: &AtomGroupInfo<T>,
        prev_replica_group_positions: &[V],
        position_next_replica: &[V],
        group_positions: &[V],
        group_forces: &mut [V],
    )
        ensures
            old(self).answers(
                final(self),
                PotentialCall::SetForces,
                replica,
                group,
                prev_replica_group_positions@,
                position_next_replica@,
                group_positions@,
                old(group_forces)@,
                final(group_forces)@,
                None,
            ),
    ;

    /// Adds the forces arising from this potential to the forces of this
    /// group in this replica.
    fn add_forces(
        &mut self,
        replica: usize,
        group: &AtomGroupInfo<T>,
        prev_replica_group_positions: &[V],
        position_next_replica: &[V],
        group_positions: &[V],
        group_forces: &mut [V],
    )
        ensures
            old(self).answers(
                final(self),
                PotentialCall::AddForces,
                replica,
                group,
                prev_replica_group_positions@,
                position_next_replica@,
                group_positions@,
                old(group_forces)@,
                final(group_forces)@,
                None,
            ),
    ;
}

/// A trait for exchange potentials that yield the contribution of the last
/// replica to the total exchange potential energy of a given group.
pub trait TrailingExchangePotential<T, V> {
    /// Whether a call of the method named by `call` may turn the potential
    /// into `after` and the forces into `forces_after`, and return `energy`.
    /// A method without forces takes and leaves none; a method that returns
    /// nothing has no energy.
    open spec fn answers(
        &self,
        after: &Self,
        call: PotentialCall,
        last_replica: usize,
        group: &AtomGroupInfo<T>,
        prev_replica_group_positions: Seq<V>,
        position_first_replica: Seq<V>,
        group_positions: Seq<V>,
        forces: Seq<V>,
        forces_after: Seq<V>,
        energy: Option<T>,
    ) -> bool {
        true
    }

    /// Calculates the contribution of the last replica to the total exchange
    /// potential energy of the group and sets the forces of this group in the
    /// last replica accordingly.
    ///
    /// Returns the contribution to the total energy.
    fn calculate_potential_set_forces(
        &mut self,
        last_replica: usize,
        group: &AtomGroupInfo<T>,
        prev_replica_group_positions: &[V],
        position_first_replica: &[V],
        group_positions: &[V],
        group_forces: &mut [V],
    ) -> (energy: T)
        ensures
            old(self).answers(
                final(self),
                PotentialCall::CalculatePotentialSetForces,
                last_replica,
                group,
                prev_replica_group_positions@,
                position_first_replica@,
                group_positions@,
                old(group_forces)@,
                final(group_forces)@,
                Some(energy),
            ),
    ;

    /// Calculates the contribution of the last replica to the total exchange
    /// potential energy of the group and adds the forces arising from this
    /// potential to the forces of this group in the last replica.
    ///
    /// Returns the contribution to the total energy.
    fn calculate_potential_add_forces(
        &mut self,
        last_replica: usize,
        group: &AtomGroupInfo<T>,
        prev_replica_group_positions: &[V],
        position_first_replica: &[V],
        group_positions: &[V],
        group_forces: &mut [V],
    ) -> (energy: T)
        ensures
            old(self).answers(
                final(self),
                PotentialCall::CalculatePotentialAddForces,
                last_replica,
                group,
                prev_replica_group_positions@,
                position_first_replica@,
                group_positions@,
                old(group_forces)@,
                final(group_forces)@,
                Some(energy),
            ),
    ;

    /// Calculates the contribution of the last replica to the total exchange
    /// potential energy of the group.
    ///
    /// Returns the contribution to the total energy.
    fn calculate_potential(
        &mut self,
        last_replica: usize,
        group: &AtomGroupInfo<T>,
        prev_replica_group_positions: &[V],
        position_first_replica: &[V],
        group_positions: &[V],
    ) -> (energy: T)
        ensures
            old(self).answers(
                final(self),
                PotentialCall::CalculatePotential,
                last_replica,
                group,
                prev_replica_group_positions@,
                position_first_replica@,
                group_positions@,
                Seq::empty(),
                Seq::empty(),
                Some(energy),
            ),
    ;

    /// Sets the forces of this group in the last replica.
    fn set_forces(
        &mut self,
        last_replica: usize,
        group: &AtomGroupInfo<T>,
        prev_replica_group_positions: &[V],
        position_first_replica: &[V],
        group_positions: &[V],
        group_forces: &mut [V],
    )
        ensures
            old(self).answers(
                final(self),
                PotentialCall::SetForces,
                last_replica,
                group,
                prev_replica_group_positions@,
                position_first_replica@,
                group_positions@,
                old(group_forces)@,
                final(group_forces)@,
                None,
            ),
    ;

    /// Adds the forces arising from this potential to the forces of this
    /// group in the last replica.
    fn add_forces(
        &mut self,
        last_replica: usize,
        group: &AtomGroupInfo<T>,
        prev_replica_group_positions: &[V],
        position_first_replica: &[V],
        group_positions: &[V],
        group_forces: &mut [V],
    )
        ensures
            old(self).answers(
                final(self),
                PotentialCall::AddForces,
                last_replica,
                group,
                prev_replica_group_positions@,
                position_first_replica@,
                group_positions@,
                old(group_forces)@,
                final(group_forces)@,
                None,
            ),
    ;
}

/// A potential marked [`InnerIsLeading`] serves the first replica as the inner replica 0: each method answers
/// what the method of the same name answers for that inner replica.
impl<T, V, U> LeadingExchangePotential<T, V> for U where U: InnerExchangePotential<T, V> + InnerIsLeading {
    open spec fn answers(
        &self,
        after: &Self,
        call: PotentialCall,
        group: &AtomGroupInfo<T>,
        last_replica_group_positions: Seq<V>,
        position_next_replica: Seq<V>,
        group_positions: Seq<V>,
        forces: Seq<V>,
        forces_after: Seq<V>,
        energy: Option<T>,
    ) -> bool {
        InnerExchangePotential::answers(
            self,
            after,
            call,
            0,
            group,
            last_replica_group_positions,
            position_next_replica,
            group_positions,
            forces,
            forces_after,
            energy,
        )
    }

    fn calculate_potential_set_forces(
        &mut self,
        group: &AtomGroupInfo<T>,
        last_replica_group_positions: &[V],
        position_next_replica: &[V],
        group_positions: &[V],
        group_forces: &mut [V],
    ) -> (energy: T) {
        InnerExchangePotential::calculate_potential_set_forces(
            self,
            0,
            group,
            last_replica_group_positions,
            position_next_replica,
            group_positions,
            group_forces,
        )
    }

    fn calculate_potential_add_forces(
        &mut self,
        group: &AtomGroupInfo<T>,
        last_replica_group_positions: &[V],
        position_next_replica: &[V],
        group_positions: &[V],
        group_forces: &mut [V],
    ) -> (energy: T) {
        InnerExchangePotential::calculate_potential_add_forces(
            self,
            0,
            group,
            last_replica_group_positions,
            position_next_replica,
            group_positions,
            group_forces,
        )
    }

    fn calculate_potential(
        &mut self,
        group: &AtomGroupInfo<T>,
        last_replica_group_positions: &[V],
        position_next_replica: &[V],
        group_positions: &[V],
    ) -> (energy: T) {
        InnerExchangePotential::calculate_potential(
            self,
            0,
            group,
            last_replica_group_positions,
            position_next_replica,
            group_positions,
        )
    }

    fn set_forces(
        &mut self,
        group: &AtomGroupInfo<T>,
        last_replica_group_positions: &[V],
        position_next_replica: &[V],
        group_positions: &[V],
        group_forces: &mut [V],
    ) {
        InnerExchangePotential::set_forces(
            self,
            0,
            group,
            last_replica_group_positions,
            position_next_replica,
            group_positions,
            group_forces,
        );
    }

    fn add_forces(
        &mut self,
        group: &AtomGroupInfo<T>,
        last_replica_group_positions: &[V],
        position_next_replica: &[V],
        group_positions: &[V],
        group_forces: &mut [V],
    ) {
        InnerExchangePotential::add_forces(
            self,
            0,
            group,
            last_replica_group_positions,
            position_next_replica,
            group_positions,
            group_forces,
        );
    }
}

/// A potential marked [`InnerIsTrailing`] serves the last replica as the inner replica of its index: each method answers
/// what the method of the same name answers for that inner replica.
impl<T, V, U> TrailingExchangePotential<T, V> for U where U: InnerExchangePotential<T, V> + InnerIsTrailing {
    open spec fn answers(
        &self,
        after: &Self,
        call: PotentialCall,
        last_replica: usize,
        group: &AtomGroupInfo<T>,
        prev_replica_group_positions: Seq<V>,
        position_first_replica: Seq<V>,
        group_positions: Seq<V>,
        forces: Seq<V>,
        forces_after: Seq<V>,
        energy: Option<T>,
    ) -> bool {
        InnerExchangePotential::answers(
            self,
            after,
            call,
            last_replica,
            group,
            prev_replica_group_positions,
            position_first_replica,
            group_positions,
            forces,
            forces_after,
            energy,
        )
    }

    fn calculate_potential_set_forces(
        &mut self,
        last_replica: usize,
        group: &AtomGroupInfo<T>,
        prev_replica_group_positions: &[V],
        position_first_replica: &[V],
        group_positions: &[V],
        group_forces: &mut [V],
    ) -> (energy: T) {
        InnerExchangePotential::calculate_potential_set_forces(
            self,
            last_replica,
            group,
            prev_replica_group_positions,
            position_first_replica,
            group_positions,
            group_forces,
        )
    }

    fn calculate_potential_add_forces(
        &mut self,
        last_replica: usize,
        group: &AtomGroupInfo<T>,
        prev_replica_group_positions: &[V],
        position_first_replica: &[V],
        group_positions: &[V],
        group_forces: &mut [V],
    ) -> (energy: T) {
        InnerExchangePotential::calculate_potential_add_forces(
            self,
            last_replica,
            group,
            prev_replica_group_positions,
            position_first_replica,
            group_positions,
            group_forces,
        )
    }

    fn calculate_potential(
        &mut self,
        last_replica: usize,
        group: &AtomGroupInfo<T>,
        prev_replica_group_positions: &[V],
        position_first_replica: &[V],
        group_positions: &[V],
    ) -> (energy: T) {
        InnerExchangePotential::calculate_potential(
            self,
            last_replica,
            group,
            prev_replica_group_positions,
            position_first_replica,
            group_positions,
        )
    }

    fn set_forces(
        &mut self,
        last_replica: usize,
        group: &AtomGroupInfo<T>,
        prev_replica_group_positions: &[V],
        position_first_replica: &[V],
        group_positions: &[V],
        group_forces: &mut [V],
    ) {
        InnerExchangePotential::set_forces(
            self,
            last_replica,
            group,
            prev_replica_group_positions,
            position_first_replica,
            group_positions,
            group_forces,
        );
    }

    fn add_forces(
        &mut self,
        last_replica: usize,
        group: &AtomGroupInfo<T>,
        prev_replica_group_positions: &[V],
        position_first_replica: &[V],
        group_positions: &[V],
        group_forces: &mut [V],
    ) {
        InnerExchangePotential::add_forces(
            self,
            last_replica,
            group,
            prev_replica_group_positions,
            position_first_replica,
            group_positions,
            group_forces,
        );
    }
}

} // verus!
