//! Physical potentials: what a group of atoms contributes to the potential
//! energy of a replica.
//!
//! A potential is written at one of three levels: atom by atom, group by
//! group, or for a group among all groups. Whoever writes the lower level
//! gets the higher ones from the impls below.
//!
//! Each trait has two kinds of spec functions. Those named like a question
//! (`sums`, `locates`) say on which inputs a method may be called. `answers`
//! says what a call may leave behind: the potential after the call, the
//! forces after the call, and the energy returned. A potential that says
//! nothing promises nothing; the impls below say what they make of the
//! promises of the level beneath them.

use std::ops::Add;
use vstd::prelude::*;
use vstd::std_specs::ops::AddSpec;

use crate::sim::group::AtomGroupInfo;

verus! {

/// The methods that a potential has at every level.
pub enum PotentialCall {
    CalculatePotentialSetForces,
    CalculatePotentialAddForces,
    CalculatePotential,
    SetForces,
    AddForces,
}

/// Whether two values of `T` can be added whatever they are.
pub open spec fn adds<T: Add<Output = T>>() -> bool {
    forall|a: T, b: T| #[trigger] a.add_req(b)
}

/// The forces from index `from` on are the same in both sequences, which have
/// the same length.
pub open spec fn same_from<V>(before: Seq<V>, after: Seq<V>, from: int) -> bool {
    &&& after.len() == before.len()
    &&& forall|i: int| from <= i < before.len() ==> after[i] == before[i]
}

/// The forces at every index but `at` are the same in both sequences, which
/// have the same length.
pub open spec fn same_but<V>(before: Seq<V>, after: Seq<V>, at: int) -> bool {
    &&& after.len() == before.len()
    &&& forall|i: int| 0 <= i < before.len() && i != at ==> after[i] == before[i]
}

/// The force at an index, where there is one.
pub open spec fn force_at<V>(forces: Seq<V>, at: int) -> Option<V> {
    if 0 <= at < forces.len() {
        Some(forces[at])
    } else {
        None
    }
}

/// The energy summed so far with the energy of one more atom added to it.
pub open spec fn combined<T: Add<Output = T>>(before: Option<T>, atom: Option<T>) -> Option<T> {
    match (before, atom) {
        (Some(sum), Some(energy)) => Some(sum.add_spec(energy)),
        (None, energy) => energy,
        (Some(sum), None) => Some(sum),
    }
}

/// The smaller of two lengths: how many pairs two slices make.
pub open spec fn spec_pairs(positions: usize, forces: usize) -> usize {
    if positions < forces {
        positions
    } else {
        forces
    }
}

/// The smaller of two lengths: how many pairs two slices make.
#[verifier::when_used_as_spec(spec_pairs)]
pub fn pairs(positions: usize, forces: usize) -> (atoms: usize)
    ensures
        atoms == spec_pairs(positions, forces),
{
    if positions < forces {
        positions
    } else {
        forces
    }
}

/// A trait for physical potentials that can be expressed as a sum
/// of potentials that depend only on a single atom at a time.
///
/// Any implementor of this trait automatically implements
/// [`GroupDecoupledPhysicalPotential`].
pub trait AtomDecoupledPhysicalPotential<T, V> {
    /// Whether a call of the method that serves `call` for one atom may turn
    /// the potential into `after` and the force into `force_after`, and
    /// return `energy`. A method without a force takes and leaves none; a
    /// method that returns nothing has no energy.
    open spec fn answers(
        &self,
        after: &Self,
        call: PotentialCall,
        group: &AtomGroupInfo<T>,
        atom_idx: usize,
        atom_position: V,
        force: Option<V>,
        force_after: Option<V>,
        energy: Option<T>,
    ) -> bool {
        true
    }

    /// Calculates the contribution of this atom to the total physical
    /// potential energy of the replica and sets the force of this atom
    /// accordingly.
    ///
    /// Returns the contribution to the total energy.
    fn calculate_potential_set_force(
        &mut self,
        group: &AtomGroupInfo<T>,
        atom_idx: usize,
        atom_position: &V,
        atom_force: &mut V,
    ) -> (energy: T)
        ensures
            old(self).answers(
                final(self),
                PotentialCall::CalculatePotentialSetForces,
                group,
                atom_idx,
                *atom_position,
                Some(*old(atom_force)),
                Some(*final(atom_force)),
                Some(energy),
            ),
    ;

    /// Calculates the contribution of this atom to the total physical
    /// potential energy of the replica and adds the force arising from this
    /// potential to the force of this atom.
    ///
    /// Returns the contribution to the total energy.
    fn calculate_potential_add_force(
        &mut self,
        group: &AtomGroupInfo<T>,
        atom_idx: usize,
        atom_position: &V,
        atom_force: &mut V,
    ) -> (energy: T)
        ensures
            old(self).answers(
                final(self),
                PotentialCall::CalculatePotentialAddForces,
                group,
                atom_idx,
                *atom_position,
                Some(*old(atom_force)),
                Some(*final(atom_force)),
                Some(energy),
            ),
    ;

    /// Calculates the contribution of this atom to the total physical
    /// potential energy of the replica.
    ///
    /// Returns the contribution to the total energy.
    fn calculate_potential(
        &mut self,
        group: &AtomGroupInfo<T>,
        atom_idx: usize,
        atom_position: &V,
    ) -> (energy: T)
        ensures
            old(self).answers(
                final(self),
                PotentialCall::CalculatePotential,
                group,
                atom_idx,
                *atom_position,
                None,
                None,
                Some(energy),
            ),
    ;

    /// Sets the force of this atom.
    fn set_force(
        &mut self,
        group: &AtomGroupInfo<T>,
        atom_idx: usize,
        atom_position: &V,
        atom_force: &mut V,
    )
        ensures
            old(self).answers(
                final(self),
                PotentialCall::SetForces,
                group,
                atom_idx,
                *atom_position,
                Some(*old(atom_force)),
                Some(*final(atom_force)),
                None,
            ),
    ;

    /// Adds the force arising from this potential to the force of this atom.
    fn add_force(
        &mut self,
        group: &AtomGroupInfo<T>,
        atom_idx: usize,
        atom_position: &V,
        atom_force: &mut V,
    )
        ensures
            old(self).answers(
                final(self),
                PotentialCall::AddForces,
                group,
                atom_idx,
                *atom_position,
                Some(*old(atom_force)),
                Some(*final(atom_force)),
                None,
            ),
    ;
}

/// A trait for physical potentials that yield the contribution of a single
/// group in a given replica to the total potential energy of said replica.
///
/// Any implementor of this trait automatically implements
/// [`PhysicalPotential`].
pub trait GroupDecoupledPhysicalPotential<T, V> {
    /// Whether the potential can give the energy of a group with atoms at
    /// `group_positions`, given room for `forces` forces. A potential gives
    /// the energy of every group unless it says otherwise here.
    open spec fn sums(&self, group_positions: Seq<V>, forces: nat) -> bool {
        true
    }

    /// Whether a call of the method named by `call` may turn the potential
    /// into `after` and the forces into `forces_after`, and return `energy`.
    /// A method without forces takes and leaves none; a method that returns
    /// nothing has no energy.
    open spec fn answers(
        &self,
        after: &Self,
        call: PotentialCall,
        group: &AtomGroupInfo<T>,
        group_positions: Seq<V>,
        forces: Seq<V>,
        forces_after: Seq<V>,
        energy: Option<T>,
    ) -> bool {
        true
    }

    /// Calculates the contribution of this group to the total physical
    /// potential energy of the replica and sets the forces of this group
    /// accordingly.
    ///
    /// Returns the contribution to the total energy.
    fn calculate_potential_set_forces(
        &mut self,
        group: &AtomGroupInfo<T>,
        group_positions: &[V],
        group_forces: &mut [V],
    ) -> (energy: T)
        requires
            old(self).sums(group_positions@, old(group_forces)@.len()),
        ensures
            old(self).answers(
                final(self),
                PotentialCall::CalculatePotentialSetForces,
                group,
                group_positions@,
                old(group_forces)@,
                final(group_forces)@,
                Some(energy),
            ),
    ;

    /// Calculates the contribution of this group to the total physical
    /// potential energy of the replica and adds the forces arising from this
    /// potential to the forces of this group.
    ///
    /// Returns the contribution to the total energy.
    fn calculate_potential_add_forces(
        &mut self,
        group: &AtomGroupInfo<T>,
        group_positions: &[V],
        group_forces: &mut [V],
    ) -> (energy: T)
        requires
            old(self).sums(group_positions@, old(group_forces)@.len()),
        ensures
            old(self).answers(
                final(self),
                PotentialCall::CalculatePotentialAddForces,
                group,
                group_positions@,
                old(group_forces)@,
                final(group_forces)@,
                Some(energy),
            ),
    ;

    /// Calculates the contribution of this group to the total physical
    /// potential energy of the replica.
    ///
    /// Returns the contribution to the total energy.
    fn calculate_potential(
        &mut self,
        group: &AtomGroupInfo<T>,
        group_positions: &[V],
    ) -> (energy: T)
        requires
            old(self).sums(group_positions@, group_positions@.len()),
        ensures
            old(self).answers(
                final(self),
                PotentialCall::CalculatePotential,
                group,
                group_positions@,
                Seq::empty(),
                Seq::empty(),
                Some(energy),
            ),
    ;

    /// Sets the forces of this group.
    fn set_forces(
        &mut self,
        group: &AtomGroupInfo<T>,
        group_positions: &[V],
        group_forces: &mut [V],
    )
        ensures
            old(self).answers(
                final(self),
                PotentialCall::SetForces,
                group,
                group_positions@,
                old(group_forces)@,
                final(group_forces)@,
                None,
            ),
    ;

    /// Adds the forces arising from this potential to the forces of this
    /// group.
    fn add_forces(
        &mut self,
        group: &AtomGroupInfo<T>,
        group_positions: &[V],
        group_forces: &mut [V],
    )
        ensures
            old(self).answers(
                final(self),
                PotentialCall::AddForces,
                group,
                group_positions@,
                old(group_forces)@,
                final(group_forces)@,
                None,
            ),
    ;
}

/// A record of a visit to the atoms of a group, one after the other: the
/// potential, the forces and the energy summed so far before each atom and
/// after the last, and the energy that each atom gave.
pub struct Visit<'a, T, V, U: ?Sized> {
    pub states: Seq<&'a U>,
    pub forces: Seq<Seq<V>>,
    pub sums: Seq<Option<T>>,
    pub energies: Seq<Option<T>>,
}

/// Whether a record is one of a visit to the first `atoms` atoms at
/// `positions`: each step is a call for one atom, in order, which may change
/// the force of that atom alone, and whose energy is added to the sum.
pub open spec fn visit_of<T, V, U>(
    visit: Visit<'_, T, V, U>,
    call: PotentialCall,
    group: &AtomGroupInfo<T>,
    positions: Seq<V>,
    atoms: nat,
) -> bool where T: Add<Output = T>, U: ?Sized + AtomDecoupledPhysicalPotential<T, V> {
    &&& visit.states.len() == atoms + 1
    &&& visit.forces.len() == atoms + 1
    &&& visit.sums.len() == atoms + 1
    &&& visit.energies.len() == atoms
    &&& visit.sums[0] is None
    &&& forall|i: int|
        0 <= i < atoms ==> {
            &&& (#[trigger] visit.states[i]).answers(
                visit.states[i + 1],
                call,
                group,
                i as usize,
                positions[i],
                force_at(visit.forces[i], i),
                force_at(visit.forces[i + 1], i),
                visit.energies[i],
            )
            &&& same_but(visit.forces[i], visit.forces[i + 1], i)
            &&& visit.sums[i + 1] == combined(visit.sums[i], visit.energies[i])
        }
}

/// Whether visiting the first `atoms` atoms in order, with the method that
/// serves `call` for one atom, may turn the potential `before` into `after`
/// and `forces` into `forces_after`, and add up to `energy`.
pub open spec fn visited<T, V, U>(
    before: &U,
    after: &U,
    call: PotentialCall,
    group: &AtomGroupInfo<T>,
    positions: Seq<V>,
    forces: Seq<V>,
    forces_after: Seq<V>,
    atoms: nat,
    energy: Option<T>,
) -> bool where T: Add<Output = T>, U: ?Sized + AtomDecoupledPhysicalPotential<T, V> {
    exists|visit: Visit<'_, T, V, U>|
        {
            &&& #[trigger] visit_of(visit, call, group, positions, atoms)
            &&& visit.states[0] == before
            &&& visit.states[atoms as int] == after
            &&& visit.forces[0] == forces
            &&& visit.forces[atoms as int] == forces_after
            &&& visit.sums[atoms as int] == energy
        }
}

/// Visits the atoms of a group in order, one position with one force, as far
/// as both reach; sets each force, and adds up the energies, the first atom's
/// first. Forces beyond the last pair are left as they were.
pub fn sum_setting_forces<T, V, U>(
    potential: &mut U,
    group: &AtomGroupInfo<T>,
    group_positions: &[V],
    group_forces: &mut [V],
) -> (energy: T) where T: Add<Output = T>, U: ?Sized + AtomDecoupledPhysicalPotential<T, V>
    requires
        group_positions@.len() > 0,
        old(group_forces)@.len() > 0,
        adds::<T>(),
    ensures
        same_from(old(group_forces)@, final(group_forces)@, pairs(group_positions@.len() as usize, old(group_forces)@.len() as usize) as int),
        T::obeys_add_spec() ==> visited(
            old(potential),
            final(potential),
            PotentialCall::CalculatePotentialSetForces,
            group,
            group_positions@,
            old(group_forces)@,
            final(group_forces)@,
            pairs(group_positions@.len() as usize, old(group_forces)@.len() as usize) as nat,
            Some(energy),
        ),
{
    let atoms: usize = pairs(group_positions.len(), group_forces.len());
    let ghost start: &U = potential;
    let ghost mut visit: Visit<'_, T, V, U> = Visit {
        states: seq![start],
        forces: seq![group_forces@],
        sums: seq![None],
        energies: Seq::empty(),
    };
    let mut energy: T = potential.calculate_potential_set_force(
        group,
        0,
        &group_positions[0],
        &mut group_forces[0],
    );
    proof {
        visit = Visit {
            states: visit.states.push(&*potential),
            forces: visit.forces.push(group_forces@),
            sums: visit.sums.push(Some(energy)),
            energies: visit.energies.push(Some(energy)),
        };
    }
    let mut idx: usize = 1;
    while idx < atoms
        invariant
            1 <= idx <= atoms,
            atoms <= group_positions@.len(),
            atoms <= group_forces@.len(),
            same_from(old(group_forces)@, group_forces@, atoms as int),
            T::obeys_add_spec() ==> visit_of(visit, PotentialCall::CalculatePotentialSetForces, group, group_positions@, idx as nat),
            visit.states.len() == idx + 1,
            visit.forces.len() == idx + 1,
            visit.sums.len() == idx + 1,
            visit.energies.len() == idx,
            visit.states[0] == start,
            visit.states[idx as int] == &*potential,
            visit.forces[0] == old(group_forces)@,
            visit.forces[idx as int] == group_forces@,
            visit.sums[idx as int] == Some(energy),
            adds::<T>(),
        decreases atoms - idx,
    {
        let ghost before = visit;
        let atom_energy: T = potential.calculate_potential_set_force(
            group,
            idx,
            &group_positions[idx],
            &mut group_forces[idx],
        );
        energy = energy + atom_energy;
        proof {
            visit = Visit {
                states: visit.states.push(&*potential),
                forces: visit.forces.push(group_forces@),
                sums: visit.sums.push(Some(energy)),
                energies: visit.energies.push(Some(atom_energy)),
            };
            assert forall|i: int| 0 <= i < idx + 1 implies (T::obeys_add_spec() ==> {
                &&& (#[trigger] visit.states[i]).answers(
                    visit.states[i + 1],
                    PotentialCall::CalculatePotentialSetForces,
                    group,
                    i as usize,
                    group_positions@[i],
                    force_at(visit.forces[i], i),
                    force_at(visit.forces[i + 1], i),
                    visit.energies[i],
                )
                &&& same_but(visit.forces[i], visit.forces[i + 1], i)
                &&& visit.sums[i + 1] == combined(visit.sums[i], visit.energies[i])
            }) by {
                if i < idx {
                    assert(visit.states[i] == before.states[i]);
                    assert(visit.states[i + 1] == before.states[i + 1]);
                    assert(visit.forces[i] == before.forces[i]);
                    assert(visit.forces[i + 1] == before.forces[i + 1]);
                    assert(visit.sums[i] == before.sums[i]);
                    assert(visit.sums[i + 1] == before.sums[i + 1]);
                    assert(visit.energies[i] == before.energies[i]);
                }
            }
        }
        idx = idx + 1;
    }
    energy
}

/// Visits the atoms of a group in order, one position with one force, as far
/// as both reach; adds to each force, and adds up the energies, the first
/// atom's first. Forces beyond the last pair are left as they were.
pub fn sum_adding_forces<T, V, U>(
    potential: &mut U,
    group: &AtomGroupInfo<T>,
    group_positions: &[V],
    group_forces: &mut [V],
) -> (energy: T) where T: Add<Output = T>, U: ?Sized + AtomDecoupledPhysicalPotential<T, V>
    requires
        group_positions@.len() > 0,
        old(group_forces)@.len() > 0,
        adds::<T>(),
    ensures
        same_from(old(group_forces)@, final(group_forces)@, pairs(group_positions@.len() as usize, old(group_forces)@.len() as usize) as int),
        T::obeys_add_spec() ==> visited(
            old(potential),
            final(potential),
            PotentialCall::CalculatePotentialAddForces,
            group,
            group_positions@,
            old(group_forces)@,
            final(group_forces)@,
            pairs(group_positions@.len() as usize, old(group_forces)@.len() as usize) as nat,
            Some(energy),
        ),
{
    let atoms: usize = pairs(group_positions.len(), group_forces.len());
    let ghost start: &U = potential;
    let ghost mut visit: Visit<'_, T, V, U> = Visit {
        states: seq![start],
        forces: seq![group_forces@],
        sums: seq![None],
        energies: Seq::empty(),
    };
    let mut energy: T = potential.calculate_potential_add_force(
        group,
        0,
        &group_positions[0],
        &mut group_forces[0],
    );
    proof {
        visit = Visit {
            states: visit.states.push(&*potential),
            forces: visit.forces.push(group_forces@),
            sums: visit.sums.push(Some(energy)),
            energies: visit.energies.push(Some(energy)),
        };
    }
    let mut idx: usize = 1;
    while idx < atoms
        invariant
            1 <= idx <= atoms,
            atoms <= group_positions@.len(),
            atoms <= group_forces@.len(),
            same_from(old(group_forces)@, group_forces@, atoms as int),
            T::obeys_add_spec() ==> visit_of(visit, PotentialCall::CalculatePotentialAddForces, group, group_positions@, idx as nat),
            visit.states.len() == idx + 1,
            visit.forces.len() == idx + 1,
            visit.sums.len() == idx + 1,
            visit.energies.len() == idx,
            visit.states[0] == start,
            visit.states[idx as int] == &*potential,
            visit.forces[0] == old(group_forces)@,
            visit.forces[idx as int] == group_forces@,
            visit.sums[idx as int] == Some(energy),
            adds::<T>(),
        decreases atoms - idx,
    {
        let ghost before = visit;
        let atom_energy: T = potential.calculate_potential_add_force(
            group,
            idx,
            &group_positions[idx],
            &mut group_forces[idx],
        );
        energy = energy + atom_energy;
        proof {
            visit = Visit {
                states: visit.states.push(&*potential),
                forces: visit.forces.push(group_forces@),
                sums: visit.sums.push(Some(energy)),
                energies: visit.energies.push(Some(atom_energy)),
            };
            assert forall|i: int| 0 <= i < idx + 1 implies (T::obeys_add_spec() ==> {
                &&& (#[trigger] visit.states[i]).answers(
                    visit.states[i + 1],
                    PotentialCall::CalculatePotentialAddForces,
                    group,
                    i as usize,
                    group_positions@[i],
                    force_at(visit.forces[i], i),
                    force_at(visit.forces[i + 1], i),
                    visit.energies[i],
                )
                &&& same_but(visit.forces[i], visit.forces[i + 1], i)
                &&& visit.sums[i + 1] == combined(visit.sums[i], visit.energies[i])
            }) by {
                if i < idx {
                    assert(visit.states[i] == before.states[i]);
                    assert(visit.states[i + 1] == before.states[i + 1]);
                    assert(visit.forces[i] == before.forces[i]);
                    assert(visit.forces[i + 1] == before.forces[i + 1]);
                    assert(visit.sums[i] == before.sums[i]);
                    assert(visit.sums[i + 1] == before.sums[i + 1]);
                    assert(visit.energies[i] == before.energies[i]);
                }
            }
        }
        idx = idx + 1;
    }
    energy
}

/// Adds up the energies of the atoms of a group in order, the first atom's
/// first.
pub fn sum_energies<T, V, U>(
    potential: &mut U,
    group: &AtomGroupInfo<T>,
    group_positions: &[V],
) -> (energy: T) where T: Add<Output = T>, U: ?Sized + AtomDecoupledPhysicalPotential<T, V>
    requires
        group_positions@.len() > 0,
        adds::<T>(),
    ensures
        T::obeys_add_spec() ==> visited(
            old(potential),
            final(potential),
            PotentialCall::CalculatePotential,
            group,
            group_positions@,
            Seq::<V>::empty(),
            Seq::<V>::empty(),
            group_positions@.len() as nat,
            Some(energy),
        ),
{
    let atoms: usize = group_positions.len();
    let ghost start: &U = potential;
    let ghost mut visit: Visit<'_, T, V, U> = Visit {
        states: seq![start],
        forces: seq![Seq::<V>::empty()],
        sums: seq![None],
        energies: Seq::empty(),
    };
    let mut energy: T = potential.calculate_potential(
        group,
        0,
        &group_positions[0],
    );
    proof {
        visit = Visit {
            states: visit.states.push(&*potential),
            forces: visit.forces.push(Seq::<V>::empty()),
            sums: visit.sums.push(Some(energy)),
            energies: visit.energies.push(Some(energy)),
        };
    }
    let mut idx: usize = 1;
    while idx < atoms
        invariant
            1 <= idx <= atoms,
            atoms <= group_positions@.len(),
            T::obeys_add_spec() ==> visit_of(visit, PotentialCall::CalculatePotential, group, group_positions@, idx as nat),
            visit.states.len() == idx + 1,
            visit.forces.len() == idx + 1,
            visit.sums.len() == idx + 1,
            visit.energies.len() == idx,
            visit.states[0] == start,
            visit.states[idx as int] == &*potential,
            visit.forces[0] == Seq::<V>::empty(),
            visit.forces[idx as int] == Seq::<V>::empty(),
            visit.sums[idx as int] == Some(energy),
            adds::<T>(),
        decreases atoms - idx,
    {
        let ghost before = visit;
        let atom_energy: T = potential.calculate_potential(
            group,
            idx,
            &group_positions[idx],
        );
        energy = energy + atom_energy;
        proof {
            visit = Visit {
                states: visit.states.push(&*potential),
                forces: visit.forces.push(Seq::<V>::empty()),
                sums: visit.sums.push(Some(energy)),
                energies: visit.energies.push(Some(atom_energy)),
            };
            assert forall|i: int| 0 <= i < idx + 1 implies (T::obeys_add_spec() ==> {
                &&& (#[trigger] visit.states[i]).answers(
                    visit.states[i + 1],
                    PotentialCall::CalculatePotential,
                    group,
                    i as usize,
                    group_positions@[i],
                    force_at(visit.forces[i], i),
                    force_at(visit.forces[i + 1], i),
                    visit.energies[i],
                )
                &&& same_but(visit.forces[i], visit.forces[i + 1], i)
                &&& visit.sums[i + 1] == combined(visit.sums[i], visit.energies[i])
            }) by {
                if i < idx {
                    assert(visit.states[i] == before.states[i]);
                    assert(visit.states[i + 1] == before.states[i + 1]);
                    assert(visit.forces[i] == before.forces[i]);
                    assert(visit.forces[i + 1] == before.forces[i + 1]);
                    assert(visit.sums[i] == before.sums[i]);
                    assert(visit.sums[i + 1] == before.sums[i + 1]);
                    assert(visit.energies[i] == before.energies[i]);
                }
            }
        }
        idx = idx + 1;
    }
    energy
}

/// Visits the atoms of a group in order, one position with one force, as far
/// as both reach, and sets each force. Forces beyond the last pair are left as
/// they were.
pub fn set_each_force<T, V, U>(
    potential: &mut U,
    group: &AtomGroupInfo<T>,
    group_positions: &[V],
    group_forces: &mut [V],
) where T: Add<Output = T>, U: ?Sized + AtomDecoupledPhysicalPotential<T, V>
    ensures
        same_from(old(group_forces)@, final(group_forces)@, pairs(group_positions@.len() as usize, old(group_forces)@.len() as usize) as int),
        visited(
            old(potential),
            final(potential),
            PotentialCall::SetForces,
            group,
            group_positions@,
            old(group_forces)@,
            final(group_forces)@,
            pairs(group_positions@.len() as usize, old(group_forces)@.len() as usize) as nat,
            None,
        ),
{
    let atoms: usize = pairs(group_positions.len(), group_forces.len());
    let ghost start: &U = potential;
    let ghost mut visit: Visit<'_, T, V, U> = Visit {
        states: seq![start],
        forces: seq![group_forces@],
        sums: seq![None],
        energies: Seq::empty(),
    };
    let mut idx: usize = 0;
    while idx < atoms
        invariant
            idx <= atoms,
            atoms <= group_positions@.len(),
            atoms <= group_forces@.len(),
            same_from(old(group_forces)@, group_forces@, atoms as int),
            visit_of(visit, PotentialCall::SetForces, group, group_positions@, idx as nat),
            visit.states.len() == idx + 1,
            visit.forces.len() == idx + 1,
            visit.sums.len() == idx + 1,
            visit.energies.len() == idx,
            visit.states[0] == start,
            visit.states[idx as int] == &*potential,
            visit.forces[0] == old(group_forces)@,
            visit.forces[idx as int] == group_forces@,
            visit.sums[idx as int] is None,
        decreases atoms - idx,
    {
        let ghost before = visit;
        potential.set_force(group, idx, &group_positions[idx], &mut group_forces[idx]);
        proof {
            visit = Visit {
                states: visit.states.push(&*potential),
                forces: visit.forces.push(group_forces@),
                sums: visit.sums.push(None),
                energies: visit.energies.push(None),
            };
            assert forall|i: int| 0 <= i < idx + 1 implies ({
                &&& (#[trigger] visit.states[i]).answers(
                    visit.states[i + 1],
                    PotentialCall::SetForces,
                    group,
                    i as usize,
                    group_positions@[i],
                    force_at(visit.forces[i], i),
                    force_at(visit.forces[i + 1], i),
                    visit.energies[i],
                )
                &&& same_but(visit.forces[i], visit.forces[i + 1], i)
                &&& visit.sums[i + 1] == combined(visit.sums[i], visit.energies[i])
            }) by {
                if i < idx {
                    assert(visit.states[i] == before.states[i]);
                    assert(visit.states[i + 1] == before.states[i + 1]);
                    assert(visit.forces[i] == before.forces[i]);
                    assert(visit.forces[i + 1] == before.forces[i + 1]);
                    assert(visit.sums[i] == before.sums[i]);
                    assert(visit.sums[i + 1] == before.sums[i + 1]);
                    assert(visit.energies[i] == before.energies[i]);
                }
            }
        }
        idx = idx + 1;
    }
}

/// The method of an atom-wise potential that serves a method of the potential
/// for its group: each the one of its kind, but for `add_forces`, which sets
/// each force as `set_forces` does.
pub open spec fn atom_call(call: PotentialCall) -> PotentialCall {
    match call {
        PotentialCall::AddForces => PotentialCall::SetForces,
        other => other,
    }
}

/// A potential written atom by atom serves a group by visiting its atoms in
/// order. The energy of the group is the energy of its first atom plus those
/// of the others, added in order; a group must therefore have a first atom,
/// and adding two energies must never fail.
impl<T, V, U> GroupDecoupledPhysicalPotential<T, V> for U where
    T: Add<Output = T>,
    U: ?Sized + AtomDecoupledPhysicalPotential<T, V>,
 {
    open spec fn sums(&self, group_positions: Seq<V>, forces: nat) -> bool {
        group_positions.len() > 0 && forces > 0 && adds::<T>()
    }

    open spec fn answers(
        &self,
        after: &Self,
        call: PotentialCall,
        group: &AtomGroupInfo<T>,
        group_positions: Seq<V>,
        forces: Seq<V>,
        forces_after: Seq<V>,
        energy: Option<T>,
    ) -> bool {
        let atoms = if call is CalculatePotential {
            group_positions.len()
        } else {
            pairs(group_positions.len() as usize, forces.len() as usize) as nat
        };
        &&& same_from(forces, forces_after, atoms as int)
        &&& (energy is None || T::obeys_add_spec()) ==> visited(
            self,
            after,
            atom_call(call),
            group,
            group_positions,
            forces,
            forces_after,
            atoms,
            energy,
        )
    }

    fn calculate_potential_set_forces(
        &mut self,
        group: &AtomGroupInfo<T>,
        group_positions: &[V],
        group_forces: &mut [V],
    ) -> (energy: T) {
        sum_setting_forces(self, group, group_positions, group_forces)
    }

    fn calculate_potential_add_forces(
        &mut self,
        group: &AtomGroupInfo<T>,
        group_positions: &[V],
        group_forces: &mut [V],
    ) -> (energy: T) {
        sum_adding_forces(self, group, group_positions, group_forces)
    }

    fn calculate_potential(&mut self, group: &AtomGroupInfo<T>, group_positions: &[V]) -> (energy: T) {
        sum_energies(self, group, group_positions)
    }

    fn set_forces(&mut self, group: &AtomGroupInfo<T>, group_positions: &[V], group_forces: &mut [V]) {
        set_each_force(self, group, group_positions, group_forces);
    }

    /// Sets the force of each atom, as `set_forces` does.
    fn add_forces(&mut self, group: &AtomGroupInfo<T>, group_positions: &[V], group_forces: &mut [V]) {
        set_each_force(self, group, group_positions, group_forces);
    }
}

/// A trait for physical potentials that yield the contribution of a single
/// group in a given replica to the total physical potential energy of said
/// replica.
pub trait PhysicalPotential<T, V> {
    /// Whether the potential finds the group at `group_idx` of `groups`, and
    /// its positions among `groups_positions`. A potential finds every group
    /// unless it says otherwise here.
    open spec fn locates(
        &self,
        group_idx: usize,
        groups: Seq<AtomGroupInfo<T>>,
        groups_positions: Seq<V>,
    ) -> bool {
        true
    }

    /// Whether the potential can also give the energy of that group, given
    /// room for `forces` forces. A potential gives the energy of every group
    /// unless it says otherwise here.
    open spec fn sums(
        &self,
        group_idx: usize,
        groups: Seq<AtomGroupInfo<T>>,
        groups_positions: Seq<V>,
        forces: nat,
    ) -> bool {
        true
    }

    /// Whether a call of the method named by `call` may turn the potential
    /// into `after` and the forces into `forces_after`, and return `energy`.
    /// A method without forces takes and leaves none; a method that returns
    /// nothing has no energy.
    open spec fn answers(
        &self,
        after: &Self,
        call: PotentialCall,
        group_idx: usize,
        groups: Seq<AtomGroupInfo<T>>,
        groups_positions: Seq<V>,
        forces: Seq<V>,
        forces_after: Seq<V>,
        energy: Option<T>,
    ) -> bool {
        true
    }

    /// Calculates the contribution of this group to the total potential
    /// energy of the replica and sets the forces of this group accordingly.
    ///
    /// Returns the contribution to the total energy.
    fn calculate_potential_set_forces(
        &mut self,
        group_idx: usize,
        groups: &[AtomGroupInfo<T>],
        groups_positions: &[V],
        forces: &mut [V],
    ) -> (energy: T)
        requires
            old(self).sums(group_idx, groups@, groups_positions@, old(forces)@.len()),
        ensures
            old(self).answers(
                final(self),
                PotentialCall::CalculatePotentialSetForces,
                group_idx,
                groups@,
                groups_positions@,
                old(forces)@,
                final(forces)@,
                Some(energy),
            ),
    ;

    /// Calculates the contribution of this group to the total potential
    /// energy of the replica and adds the forces arising from this potential
    /// to the forces of this group.
    ///
    /// Returns the contribution to the total energy.
    fn calculate_potential_add_forces(
        &mut self,
        group_idx: usize,
        groups: &[AtomGroupInfo<T>],
        groups_positions: &[V],
        forces: &mut [V],
    ) -> (energy: T)
        requires
            old(self).sums(group_idx, groups@, groups_positions@, old(forces)@.len()),
        ensures
            old(self).answers(
                final(self),
                PotentialCall::CalculatePotentialAddForces,
                group_idx,
                groups@,
                groups_positions@,
                old(forces)@,
                final(forces)@,
                Some(energy),
            ),
    ;

    /// Calculates the contribution of this group to the total potential
    /// energy of the replica.
    ///
    /// Returns the contribution to the total energy.
    fn calculate_potential(
        &mut self,
        group_idx: usize,
        groups: &[AtomGroupInfo<T>],
        groups_positions: &[V],
    ) -> (energy: T)
        requires
            group_idx < groups@.len(),
            old(self).sums(
                group_idx,
                groups@,
                groups_positions@,
                groups@[group_idx as int].atoms() as nat,
            ),
        ensures
            old(self).answers(
                final(self),
                PotentialCall::CalculatePotential,
                group_idx,
                groups@,
                groups_positions@,
                Seq::empty(),
                Seq::empty(),
                Some(energy),
            ),
    ;

    /// Sets the forces of this group.
    fn set_forces(
        &mut self,
        group_idx: usize,
        groups: &[AtomGroupInfo<T>],
        groups_positions: &[V],
        forces: &mut [V],
    )
        requires
            old(self).locates(group_idx, groups@, groups_positions@),
        ensures
            old(self).answers(
                final(self),
                PotentialCall::SetForces,
                group_idx,
                groups@,
                groups_positions@,
                old(forces)@,
                final(forces)@,
                None,
            ),
    ;

    /// Adds the forces arising from this potential to the forces of this
    /// group.
    fn add_forces(
        &mut self,
        group_idx: usize,
        groups: &[AtomGroupInfo<T>],
        groups_positions: &[V],
        forces: &mut [V],
    )
        requires
            old(self).locates(group_idx, groups@, groups_positions@),
        ensures
            old(self).answers(
                final(self),
                PotentialCall::AddForces,
                group_idx,
                groups@,
                groups_positions@,
                old(forces)@,
                final(forces)@,
                None,
            ),
    ;
}

/// Whether `group_idx` names a group of `groups` whose span lies within
/// `positions` positions.
pub open spec fn group_located<T>(group_idx: usize, groups: Seq<AtomGroupInfo<T>>, positions: nat)
    -> bool {
    group_idx < groups.len() && groups[group_idx as int].fits(positions as int)
}

/// The positions of the group at `group_idx` among those of all groups.
pub open spec fn positions_of<T, V>(
    group_idx: usize,
    groups: Seq<AtomGroupInfo<T>>,
    groups_positions: Seq<V>,
) -> Seq<V> {
    groups_positions.subrange(
        groups[group_idx as int].start as int,
        groups[group_idx as int].end as int,
    )
}

/// Finds the group at `group_idx` and its positions among those of all
/// groups.
pub fn locate<'a, T, V>(
    group_idx: usize,
    groups: &'a [AtomGroupInfo<T>],
    groups_positions: &'a [V],
) -> (found: (&'a AtomGroupInfo<T>, &'a [V]))
    requires
        group_located(group_idx, groups@, groups_positions@.len()),
    ensures
        *found.0 == groups@[group_idx as int],
        found.1@ == positions_of(group_idx, groups@, groups_positions@),
{
    let group = &groups[group_idx];
    let positions = vstd::slice::slice_subrange(groups_positions, group.start, group.end);
    (group, positions)
}

/// A potential written group by group serves a group among all groups by
/// looking the group up and handing on the positions in its span: each
/// method answers what the method of the same name answers for that group
/// and those positions. The group must therefore be one of `groups`, and its
/// span must lie within the positions.
impl<T, V, U> PhysicalPotential<T, V> for U where U: GroupDecoupledPhysicalPotential<T, V> + ?Sized {
    open spec fn locates(
        &self,
        group_idx: usize,
        groups: Seq<AtomGroupInfo<T>>,
        groups_positions: Seq<V>,
    ) -> bool {
        group_located(group_idx, groups, groups_positions.len())
    }

    open spec fn sums(
        &self,
        group_idx: usize,
        groups: Seq<AtomGroupInfo<T>>,
        groups_positions: Seq<V>,
        forces: nat,
    ) -> bool {
        &&& group_located(group_idx, groups, groups_positions.len())
        &&& GroupDecoupledPhysicalPotential::sums(
            self,
            positions_of(group_idx, groups, groups_positions),
            forces,
        )
    }

    open spec fn answers(
        &self,
        after: &Self,
        call: PotentialCall,
        group_idx: usize,
        groups: Seq<AtomGroupInfo<T>>,
        groups_positions: Seq<V>,
        forces: Seq<V>,
        forces_after: Seq<V>,
        energy: Option<T>,
    ) -> bool {
        GroupDecoupledPhysicalPotential::answers(
            self,
            after,
            call,
            &groups[group_idx as int],
            positions_of(group_idx, groups, groups_positions),
            forces,
            forces_after,
            energy,
        )
    }

    fn calculate_potential_set_forces(
        &mut self,
        group_idx: usize,
        groups: &[AtomGroupInfo<T>],
        groups_positions: &[V],
        forces: &mut [V],
    ) -> (energy: T) {
        let (group, positions) = locate(group_idx, groups, groups_positions);
        GroupDecoupledPhysicalPotential::calculate_potential_set_forces(self, group, positions, forces)
    }

    fn calculate_potential_add_forces(
        &mut self,
        group_idx: usize,
        groups: &[AtomGroupInfo<T>],
        groups_positions: &[V],
        forces: &mut [V],
    ) -> (energy: T) {
        let (group, positions) = locate(group_idx, groups, groups_positions);
        GroupDecoupledPhysicalPotential::calculate_potential_add_forces(self, group, positions, forces)
    }

    fn calculate_potential(
        &mut self,
        group_idx: usize,
        groups: &[AtomGroupInfo<T>],
        groups_positions: &[V],
    ) -> (energy: T) {
        let (group, positions) = locate(group_idx, groups, groups_positions);
        GroupDecoupledPhysicalPotential::calculate_potential(self, group, positions)
    }

    fn set_forces(
        &mut self,
        group_idx: usize,
        groups: &[AtomGroupInfo<T>],
        groups_positions: &[V],
        forces: &mut [V],
    ) {
        let (group, positions) = locate(group_idx, groups, groups_positions);
        GroupDecoupledPhysicalPotential::set_forces(self, group, positions, forces)
    }

    fn add_forces(
        &mut self,
        group_idx: usize,
        groups: &[AtomGroupInfo<T>],
        groups_positions: &[V],
        forces: &mut [V],
    ) {
        let (group, positions) = locate(group_idx, groups, groups_positions);
        GroupDecoupledPhysicalPotential::add_forces(self, group, positions, forces)
    }
}

} // verus!
