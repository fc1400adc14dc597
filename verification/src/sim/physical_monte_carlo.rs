//! Physical potentials for Monte-Carlo moves: what a change in the position
//! of one atom does to the energy that a group contributes.
//!
//! As in [`crate::sim::physical`], each trait says in spec functions on which
//! inputs a method may be called and what a call may leave behind, and the
//! impls below say what they make of the promises of the level beneath them.

use std::ops::Add;
use vstd::prelude::*;

use crate::sim::group::AtomGroupInfo;
use crate::sim::physical::force_at;
use crate::sim::physical::group_located;
use crate::sim::physical::locate;
use crate::sim::physical::positions_of;
use crate::sim::physical::same_but;
use crate::sim::physical::AtomDecoupledPhysicalPotential;
use crate::sim::physical::GroupDecoupledPhysicalPotential;
use crate::sim::physical::PhysicalPotential;

verus! {

/// The methods that a potential for Monte-Carlo moves has at every level.
pub enum MonteCarloCall {
    CalculatePotentialDiffSetChangedForces,
    CalculatePotentialDiffAddChangedForces,
    CalculatePotentialDiff,
    SetChangedForces,
    AddChangedForces,
}

/// A trait for atom-decoupled physical potentials that may be used in a
/// Monte-Carlo algorithm.
///
/// Any implementor of this trait automatically implements
/// [`MonteCarloGroupDecoupledPhysicalPotential`].
pub trait MonteCarloAtomDecoupledPhysicalPotential<T, V>: AtomDecoupledPhysicalPotential<T, V> {
    /// Whether a call of the method named by `call` may turn the potential
    /// into `after` and the force into `force_after`, and return `energy`.
    /// A method without forces takes and leaves none; a method that returns
    /// nothing has no energy.
    open spec fn answers_change(
        &self,
        after: &Self,
        call: MonteCarloCall,
        group: &AtomGroupInfo<T>,
        atom_idx: usize,
        old_value: V,
        atom_position: V,
        force: Option<V>,
        force_after: Option<V>,
        energy: Option<T>,
    ) -> bool {
        true
    }

    /// Calculates the change in the physical potential energy of this atom
    /// after a change in its position and updates the force of this atom
    /// accordingly.
    ///
    /// Returns the change in potential energy.
    fn calculate_potential_diff_set_changed_force(
        &mut self,
        group: &AtomGroupInfo<T>,
        atom_idx: usize,
        old_value: &V,
        atom_position: &V,
        atom_force: &mut V,
    ) -> (energy: T)
        ensures
            old(self).answers_change(
                final(self),
                MonteCarloCall::CalculatePotentialDiffSetChangedForces,
                group,
                atom_idx,
                *old_value,
                *atom_position,
                Some(*old(atom_force)),
                Some(*final(atom_force)),
                Some(energy),
            ),
    ;

    /// Calculates the change in the physical potential energy of this atom
    /// after a change in its position and adds the updated force to the force
    /// of this atom.
    ///
    /// Returns the change in potential energy.
    fn calculate_potential_diff_add_changed_force(
        &mut self,
        group: &AtomGroupInfo<T>,
        atom_idx: usize,
        old_value: &V,
        atom_position: &V,
        atom_force: &mut V,
    ) -> (energy: T)
        ensures
            old(self).answers_change(
                final(self),
                MonteCarloCall::CalculatePotentialDiffAddChangedForces,
                group,
                atom_idx,
                *old_value,
                *atom_position,
                Some(*old(atom_force)),
                Some(*final(atom_force)),
                Some(energy),
            ),
    ;

    /// Calculates the change in the physical potential energy of this atom
    /// after a change in its position.
    ///
    /// Returns the change in potential energy.
    fn calculate_potential_diff(
        &mut self,
        group: &AtomGroupInfo<T>,
        atom_idx: usize,
        old_value: &V,
        atom_position: &V,
    ) -> (energy: T)
        ensures
            old(self).answers_change(
                final(self),
                MonteCarloCall::CalculatePotentialDiff,
                group,
                atom_idx,
                *old_value,
                *atom_position,
                None,
                None,
                Some(energy),
            ),
    ;

    /// Updates the force of this atom after a change to its position.
    fn set_changed_force(
        &mut self,
        group: &AtomGroupInfo<T>,
        atom_idx: usize,
        old_value: &V,
        atom_position: &V,
        atom_force: &mut V,
    )
        ensures
            old(self).answers_change(
                final(self),
                MonteCarloCall::SetChangedForces,
                group,
                atom_idx,
                *old_value,
                *atom_position,
                Some(*old(atom_force)),
                Some(*final(atom_force)),
                None,
            ),
    ;

    /// Adds the updated force to the force of this atom given a change in its
    /// position.
    fn add_changed_force(
        &mut self,
        group: &AtomGroupInfo<T>,
        atom_idx: usize,
        old_value: &V,
        atom_position: &V,
        atom_force: &mut V,
    )
        ensures
            old(self).answers_change(
                final(self),
                MonteCarloCall::AddChangedForces,
                group,
                atom_idx,
                *old_value,
                *atom_position,
                Some(*old(atom_force)),
                Some(*final(atom_force)),
                None,
            ),
    ;
}

/// A trait for group-decoupled physical potentials that may be used in a
/// Monte-Carlo algorithm.
///
/// Any implementor of this trait automatically implements
/// [`MonteCarloPhysicalPotential`].
pub trait MonteCarloGroupDecoupledPhysicalPotential<T, V>: GroupDecoupledPhysicalPotential<T, V> {
    /// Whether the potential finds the changed atom among `positions`
    /// positions and `forces` forces. A potential finds every atom unless it
    /// says otherwise here.
    open spec fn reaches(&self, changed_position_idx: usize, positions: nat, forces: nat) -> bool {
        true
    }

    /// Whether a call of the method named by `call` may turn the potential
    /// into `after` and the forces into `forces_after`, and return `energy`.
    /// A method without forces takes and leaves none; a method that returns
    /// nothing has no energy.
    open spec fn answers_change(
        &self,
        after: &Self,
        call: MonteCarloCall,
        group: &AtomGroupInfo<T>,
        changed_position_idx: usize,
        old_value: V,
        group_positions: Seq<V>,
        forces: Seq<V>,
        forces_after: Seq<V>,
        energy: Option<T>,
    ) -> bool {
        true
    }

    /// Calculates the change in the physical potential energy of this group
    /// after a change in the position of one of its atoms and sets the forces
    /// of this group accordingly.
    ///
    /// Returns the change in potential energy.
    fn calculate_potential_diff_set_changed_forces(
        &mut self,
        group: &AtomGroupInfo<T>,
        changed_position_idx: usize,
        old_value: &V,
        group_positions: &[V],
        group_forces: &mut [V],
    ) -> (energy: T)
        requires
            old(self).reaches(
                changed_position_idx,
                group_positions@.len(),
                old(group_forces)@.len(),
            ),
        ensures
            old(self).answers_change(
                final(self),
                MonteCarloCall::CalculatePotentialDiffSetChangedForces,
                group,
                changed_position_idx,
                *old_value,
                group_positions@,
                old(group_forces)@,
                final(group_forces)@,
                Some(energy),
            ),
    ;

    /// Calculates the change in the physical potential energy of this group
    /// after a change in the position of one of its atoms and adds the
    /// updated forces to the forces of this group.
    ///
    /// Returns the change in potential energy.
    fn calculate_potential_diff_add_changed_forces(
        &mut self,
        group: &AtomGroupInfo<T>,
        changed_position_idx: usize,
        old_value: &V,
        group_positions: &[V],
        group_forces: &mut [V],
    ) -> (energy: T)
        requires
            old(self).reaches(
                changed_position_idx,
                group_positions@.len(),
                old(group_forces)@.len(),
            ),
        ensures
            old(self).answers_change(
                final(self),
                MonteCarloCall::CalculatePotentialDiffAddChangedForces,
                group,
                changed_position_idx,
                *old_value,
                group_positions@,
                old(group_forces)@,
                final(group_forces)@,
                Some(energy),
            ),
    ;

    /// Calculates the change in the physical potential energy of this group
    /// after a change in the position of one of its atoms.
    ///
    /// Returns the change in potential energy.
    fn calculate_potential_diff(
        &mut self,
        group: &AtomGroupInfo<T>,
        changed_position_idx: usize,
        old_value: &V,
        group_positions: &[V],
    ) -> (energy: T)
        requires
            old(self).reaches(
                changed_position_idx,
                group_positions@.len(),
                group_positions@.len(),
            ),
        ensures
            old(self).answers_change(
                final(self),
                MonteCarloCall::CalculatePotentialDiff,
                group,
                changed_position_idx,
                *old_value,
                group_positions@,
                Seq::empty(),
                Seq::empty(),
                Some(energy),
            ),
    ;

    /// Updates the forces of this group after a change in the position of one
    /// of its atoms.
    fn set_changed_forces(
        &mut self,
        group: &AtomGroupInfo<T>,
        changed_position_idx: usize,
        old_value: &V,
        group_positions: &[V],
        group_forces: &mut [V],
    )
        requires
            old(self).reaches(
                changed_position_idx,
                group_positions@.len(),
                old(group_forces)@.len(),
            ),
        ensures
            old(self).answers_change(
                final(self),
                MonteCarloCall::SetChangedForces,
                group,
                changed_position_idx,
                *old_value,
                group_positions@,
                old(group_forces)@,
                final(group_forces)@,
                None,
            ),
    ;

    /// Adds the updated forces to the forces of this group given a change in
    /// the position of one of its atoms.
    fn add_changed_forces(
        &mut self,
        group: &AtomGroupInfo<T>,
        changed_position_idx: usize,
        old_value: &V,
        group_positions: &[V],
        group_forces: &mut [V],
    )
        requires
            old(self).reaches(
                changed_position_idx,
                group_positions@.len(),
                old(group_forces)@.len(),
            ),
        ensures
            old(self).answers_change(
                final(self),
                MonteCarloCall::AddChangedForces,
                group,
                changed_position_idx,
                *old_value,
                group_positions@,
                old(group_forces)@,
                final(group_forces)@,
                None,
            ),
    ;
}

/// The position of the changed atom and its force: the one force that a
/// change to one atom of an atom-decoupled potential can touch.
pub fn changed_atom<'a, 'b, V>(
    changed_position_idx: usize,
    group_positions: &'a [V],
    group_forces: &'b mut [V],
) -> (atom: (&'a V, &'b mut V))
    requires
        changed_position_idx < group_positions@.len(),
        changed_position_idx < old(group_forces)@.len(),
    ensures
        *atom.0 == group_positions@[changed_position_idx as int],
        *atom.1 == old(group_forces)@[changed_position_idx as int],
        final(group_forces)@ == old(group_forces)@.update(
            changed_position_idx as int,
            *final(atom.1),
        ),
{
    (&group_positions[changed_position_idx], &mut group_forces[changed_position_idx])
}

/// A potential written atom by atom serves a change in a group by looking at
/// the changed atom alone: each method answers what the method of the same
/// kind answers for that atom, and leaves the other forces as they were. The
/// changed atom must therefore have a position and a force.
impl<T, V, U> MonteCarloGroupDecoupledPhysicalPotential<T, V> for U where
    T: Add<Output = T>,
    U: ?Sized + MonteCarloAtomDecoupledPhysicalPotential<T, V>,
 {
    open spec fn reaches(&self, changed_position_idx: usize, positions: nat, forces: nat) -> bool {
        changed_position_idx < positions && changed_position_idx < forces
    }

    open spec fn answers_change(
        &self,
        after: &Self,
        call: MonteCarloCall,
        group: &AtomGroupInfo<T>,
        changed_position_idx: usize,
        old_value: V,
        group_positions: Seq<V>,
        forces: Seq<V>,
        forces_after: Seq<V>,
        energy: Option<T>,
    ) -> bool {
        &&& MonteCarloAtomDecoupledPhysicalPotential::answers_change(
            self,
            after,
            call,
            group,
            changed_position_idx,
            old_value,
            group_positions[changed_position_idx as int],
            force_at(forces, changed_position_idx as int),
            force_at(forces_after, changed_position_idx as int),
            energy,
        )
        &&& same_but(forces, forces_after, changed_position_idx as int)
    }

    fn calculate_potential_diff_set_changed_forces(
        &mut self,
        group: &AtomGroupInfo<T>,
        changed_position_idx: usize,
        old_value: &V,
        group_positions: &[V],
        group_forces: &mut [V],
    ) -> (energy: T) {
        let (position, force) = changed_atom(changed_position_idx, group_positions, group_forces);
        MonteCarloAtomDecoupledPhysicalPotential::calculate_potential_diff_set_changed_force(
            self,
            group,
            changed_position_idx,
            old_value,
            position,
            force,
        )
    }

    fn calculate_potential_diff_add_changed_forces(
        &mut self,
        group: &AtomGroupInfo<T>,
        changed_position_idx: usize,
        old_value: &V,
        group_positions: &[V],
        group_forces: &mut [V],
    ) -> (energy: T) {
        let (position, force) = changed_atom(changed_position_idx, group_positions, group_forces);
        MonteCarloAtomDecoupledPhysicalPotential::calculate_potential_diff_add_changed_force(
            self,
            group,
            changed_position_idx,
            old_value,
            position,
            force,
        )
    }

    fn calculate_potential_diff(
        &mut self,
        group: &AtomGroupInfo<T>,
        changed_position_idx: usize,
        old_value: &V,
        group_positions: &[V],
    ) -> (energy: T) {
        MonteCarloAtomDecoupledPhysicalPotential::calculate_potential_diff(
            self,
            group,
            changed_position_idx,
            old_value,
            &group_positions[changed_position_idx],
        )
    }

    fn set_changed_forces(
        &mut self,
        group: &AtomGroupInfo<T>,
        changed_position_idx: usize,
        old_value: &V,
        group_positions: &[V],
        group_forces: &mut [V],
    ) {
        let (position, force) = changed_atom(changed_position_idx, group_positions, group_forces);
        MonteCarloAtomDecoupledPhysicalPotential::set_changed_force(
            self,
            group,
            changed_position_idx,
            old_value,
            position,
            force,
        );
    }

    fn add_changed_forces(
        &mut self,
        group: &AtomGroupInfo<T>,
        changed_position_idx: usize,
        old_value: &V,
        group_positions: &[V],
        group_forces: &mut [V],
    ) {
        let (position, force) = changed_atom(changed_position_idx, group_positions, group_forces);
        MonteCarloAtomDecoupledPhysicalPotential::add_changed_force(
            self,
            group,
            changed_position_idx,
            old_value,
            position,
            force,
        );
    }
}

/// A trait for physical potentials that may be used in a Monte-Carlo
/// algorithm.
pub trait MonteCarloPhysicalPotential<T, V>: PhysicalPotential<T, V> {
    /// Whether the potential can follow a change to the atom at
    /// `changed_atom_idx` of the group at `changed_group_idx`, as seen from
    /// the group at `group_idx`. A potential follows every change unless it
    /// says otherwise here.
    open spec fn follows(
        &self,
        groups: Seq<AtomGroupInfo<T>>,
        group_idx: usize,
        changed_group_idx: usize,
        changed_atom_idx: usize,
        groups_positions: Seq<V>,
        forces: nat,
    ) -> bool {
        true
    }

    /// Whether a call of the method named by `call` may turn the potential
    /// into `after` and the forces into `forces_after`, and return `energy`.
    /// A method without forces takes and leaves none; a method that returns
    /// nothing has no energy.
    open spec fn answers_change(
        &self,
        after: &Self,
        call: MonteCarloCall,
        groups: Seq<AtomGroupInfo<T>>,
        group_idx: usize,
        changed_group_idx: usize,
        changed_atom_idx: usize,
        old_value: V,
        groups_positions: Seq<V>,
        forces: Seq<V>,
        forces_after: Seq<V>,
        energy: Option<T>,
    ) -> bool {
        true
    }

    /// Calculates the contribution of this group to the change in total
    /// physical potential energy of the replica after a change in the
    /// position of a single atom and updates the forces of this group
    /// accordingly.
    ///
    /// Returns the contribution to the change in total energy.
    fn calculate_potential_diff_set_changed_forces(
        &mut self,
        groups: &[AtomGroupInfo<T>],
        group_idx: usize,
        changed_group_idx: usize,
        changed_atom_idx: usize,
        old_value: &V,
        groups_positions: &[V],
        group_forces: &mut [V],
    ) -> (energy: T)
        requires
            old(self).follows(
                groups@,
                group_idx,
                changed_group_idx,
                changed_atom_idx,
                groups_positions@,
                old(group_forces)@.len(),
            ),
        ensures
            old(self).answers_change(
                final(self),
                MonteCarloCall::CalculatePotentialDiffSetChangedForces,
                groups@,
                group_idx,
                changed_group_idx,
                changed_atom_idx,
                *old_value,
                groups_positions@,
                old(group_forces)@,
                final(group_forces)@,
                Some(energy),
            ),
    ;

    /// Calculates the contribution of this group to the change in total
    /// physical potential energy of the replica after a change in the
    /// position of a single atom and adds the updated forces to the forces of
    /// this group.
    ///
    /// Returns the contribution to the change in total energy.
    fn calculate_potential_diff_add_changed_forces(
        &mut self,
        groups: &[AtomGroupInfo<T>],
        group_idx: usize,
        changed_group_idx: usize,
        changed_atom_idx: usize,
        old_value: &V,
        groups_positions: &[V],
        group_forces: &mut [V],
    ) -> (energy: T)
        requires
            old(self).follows(
                groups@,
                group_idx,
                changed_group_idx,
                changed_atom_idx,
                groups_positions@,
                old(group_forces)@.len(),
            ),
        ensures
            old(self).answers_change(
                final(self),
                MonteCarloCall::CalculatePotentialDiffAddChangedForces,
                groups@,
                group_idx,
                changed_group_idx,
                changed_atom_idx,
                *old_value,
                groups_positions@,
                old(group_forces)@,
                final(group_forces)@,
                Some(energy),
            ),
    ;

    /// Calculates the contribution of this group to the change in total
    /// physical potential energy of the replica after a change in the
    /// position of a single atom.
    ///
    /// Returns the contribution to the change in total energy.
    fn calculate_potential_diff(
        &mut self,
        groups: &[AtomGroupInfo<T>],
        group_idx: usize,
        changed_group_idx: usize,
        changed_atom_idx: usize,
        old_value: &V,
        groups_positions: &[V],
    ) -> (energy: T)
        requires
            old(self).follows(
                groups@,
                group_idx,
                changed_group_idx,
                changed_atom_idx,
                groups_positions@,
                groups@[group_idx as int].atoms() as nat,
            ),
        ensures
            old(self).answers_change(
                final(self),
                MonteCarloCall::CalculatePotentialDiff,
                groups@,
                group_idx,
                changed_group_idx,
                changed_atom_idx,
                *old_value,
                groups_positions@,
                Seq::empty(),
                Seq::empty(),
                Some(energy),
            ),
    ;

    /// Updates the forces of this group after a change in the position of a
    /// single atom.
    fn set_changed_forces(
        &mut self,
        groups: &[AtomGroupInfo<T>],
        group_idx: usize,
        changed_group_idx: usize,
        changed_atom_idx: usize,
        old_value: &V,
        groups_positions: &[V],
        group_forces: &mut [V],
    )
        requires
            old(self).follows(
                groups@,
                group_idx,
                changed_group_idx,
                changed_atom_idx,
                groups_positions@,
                old(group_forces)@.len(),
            ),
        ensures
            old(self).answers_change(
                final(self),
                MonteCarloCall::SetChangedForces,
                groups@,
                group_idx,
                changed_group_idx,
                changed_atom_idx,
                *old_value,
                groups_positions@,
                old(group_forces)@,
                final(group_forces)@,
                None,
            ),
    ;

    /// Adds the updated forces to the forces of this group given a change in
    /// the position of a single atom.
    fn add_changed_forces(
        &mut self,
        groups: &[AtomGroupInfo<T>],
        group_idx: usize,
        changed_group_idx: usize,
        changed_atom_idx: usize,
        old_value: &V,
        groups_positions: &[V],
        group_forces: &mut [V],
    )
        requires
            old(self).follows(
                groups@,
                group_idx,
                changed_group_idx,
                changed_atom_idx,
                groups_positions@,
                old(group_forces)@.len(),
            ),
        ensures
            old(self).answers_change(
                final(self),
                MonteCarloCall::AddChangedForces,
                groups@,
                group_idx,
                changed_group_idx,
                changed_atom_idx,
                *old_value,
                groups_positions@,
                old(group_forces)@,
                final(group_forces)@,
                None,
            ),
    ;
}

/// A potential written group by group serves a change among all groups by
/// looking at its own group alone. Where the change is in its own group, each
/// method answers what the method of the same name answers for that group
/// and the positions in its span; the group must then be one of `groups`, and
/// its span must lie within the positions. A change in another group changes
/// neither the potential nor the forces, and costs the energy that `T` has by
/// default.
impl<T, V, U> MonteCarloPhysicalPotential<T, V> for U where
    T: Default,
    U: MonteCarloGroupDecoupledPhysicalPotential<T, V> + ?Sized,
 {
    open spec fn follows(
        &self,
        groups: Seq<AtomGroupInfo<T>>,
        group_idx: usize,
        changed_group_idx: usize,
        changed_atom_idx: usize,
        groups_positions: Seq<V>,
        forces: nat,
    ) -> bool {
        changed_group_idx == group_idx ==> {
            &&& group_located(group_idx, groups, groups_positions.len())
            &&& MonteCarloGroupDecoupledPhysicalPotential::reaches(
                self,
                changed_atom_idx,
                positions_of(group_idx, groups, groups_positions).len(),
                forces,
            )
        }
    }

    open spec fn answers_change(
        &self,
        after: &Self,
        call: MonteCarloCall,
        groups: Seq<AtomGroupInfo<T>>,
        group_idx: usize,
        changed_group_idx: usize,
        changed_atom_idx: usize,
        old_value: V,
        groups_positions: Seq<V>,
        forces: Seq<V>,
        forces_after: Seq<V>,
        energy: Option<T>,
    ) -> bool {
        if changed_group_idx == group_idx {
            MonteCarloGroupDecoupledPhysicalPotential::answers_change(
                self,
                after,
                call,
                &groups[group_idx as int],
                changed_atom_idx,
                old_value,
                positions_of(group_idx, groups, groups_positions),
                forces,
                forces_after,
                energy,
            )
        } else {
            &&& after == self
            &&& forces_after == forces
            &&& energy matches Some(e) ==> call_ensures(T::default, (), e)
        }
    }

    fn calculate_potential_diff_set_changed_forces(
        &mut self,
        groups: &[AtomGroupInfo<T>],
        group_idx: usize,
        changed_group_idx: usize,
        changed_atom_idx: usize,
        old_value: &V,
        groups_positions: &[V],
        group_forces: &mut [V],
    ) -> (energy: T) {
        if changed_group_idx == group_idx {
            let (group, positions) = locate(group_idx, groups, groups_positions);
            MonteCarloGroupDecoupledPhysicalPotential::calculate_potential_diff_set_changed_forces(
                self,
                group,
                changed_atom_idx,
                old_value,
                positions,
                group_forces,
            )
        } else {
            T::default()
        }
    }

    fn calculate_potential_diff_add_changed_forces(
        &mut self,
        groups: &[AtomGroupInfo<T>],
        group_idx: usize,
        changed_group_idx: usize,
        changed_atom_idx: usize,
        old_value: &V,
        groups_positions: &[V],
        group_forces: &mut [V],
    ) -> (energy: T) {
        if changed_group_idx == group_idx {
            let (group, positions) = locate(group_idx, groups, groups_positions);
            MonteCarloGroupDecoupledPhysicalPotential::calculate_potential_diff_add_changed_forces(
                self,
                group,
                changed_atom_idx,
                old_value,
                positions,
                group_forces,
            )
        } else {
            T::default()
        }
    }

    fn calculate_potential_diff(
        &mut self,
        groups: &[AtomGroupInfo<T>],
        group_idx: usize,
        changed_group_idx: usize,
        changed_atom_idx: usize,
        old_value: &V,
        groups_positions: &[V],
    ) -> (energy: T) {
        if changed_group_idx == group_idx {
            let (group, positions) = locate(group_idx, groups, groups_positions);
            MonteCarloGroupDecoupledPhysicalPotential::calculate_potential_diff(
                self,
                group,
                changed_atom_idx,
                old_value,
                positions,
            )
        } else {
            T::default()
        }
    }

    fn set_changed_forces(
        &mut self,
        groups: &[AtomGroupInfo<T>],
        group_idx: usize,
        changed_group_idx: usize,
        changed_atom_idx: usize,
        old_value: &V,
        groups_positions: &[V],
        group_forces: &mut [V],
    ) {
        if changed_group_idx == group_idx {
            let (group, positions) = locate(group_idx, groups, groups_positions);
            MonteCarloGroupDecoupledPhysicalPotential::set_changed_forces(
                self,
                group,
                changed_atom_idx,
                old_value,
                positions,
                group_forces,
            );
        }
    }

    fn add_changed_forces(
        &mut self,
        groups: &[AtomGroupInfo<T>],
        group_idx: usize,
        changed_group_idx: usize,
        changed_atom_idx: usize,
        old_value: &V,
        groups_positions: &[V],
        group_forces: &mut [V],
    ) {
        if changed_group_idx == group_idx {
            let (group, positions) = locate(group_idx, groups, groups_positions);
            MonteCarloGroupDecoupledPhysicalPotential::add_changed_forces(
                self,
                group,
                changed_atom_idx,
                old_value,
                positions,
                group_forces,
            );
        }
    }
}

} // verus!
