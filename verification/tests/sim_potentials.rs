use arc_rw_lock::sim::group::AtomGroupInfo;
use arc_rw_lock::sim::physical::locate;
use arc_rw_lock::sim::physical::pairs;
use arc_rw_lock::sim::physical::set_each_force;
use arc_rw_lock::sim::physical::sum_adding_forces;
use arc_rw_lock::sim::physical::sum_energies;
use arc_rw_lock::sim::physical::sum_setting_forces;
use arc_rw_lock::sim::physical::AtomDecoupledPhysicalPotential;
use arc_rw_lock::sim::physical::GroupDecoupledPhysicalPotential;
use arc_rw_lock::sim::physical::PhysicalPotential;
use arc_rw_lock::sim::physical_monte_carlo::changed_atom;
use arc_rw_lock::sim::physical_monte_carlo::MonteCarloAtomDecoupledPhysicalPotential;
use arc_rw_lock::sim::physical_monte_carlo::MonteCarloGroupDecoupledPhysicalPotential;
use arc_rw_lock::sim::physical_monte_carlo::MonteCarloPhysicalPotential;

/// A spring on each atom: the energy is the square of the position, the
/// force is minus the position. It remembers the atoms it was asked about.
struct Spring {
    visited: Vec<usize>,
}

impl AtomDecoupledPhysicalPotential<i64, i64> for Spring {
    fn calculate_potential_set_force(
        &mut self,
        _group: &AtomGroupInfo<i64>,
        atom_idx: usize,
        atom_position: &i64,
        atom_force: &mut i64,
    ) -> i64 {
        self.visited.push(atom_idx);
        *atom_force = -atom_position;
        atom_position * atom_position
    }

    fn calculate_potential_add_force(
        &mut self,
        _group: &AtomGroupInfo<i64>,
        atom_idx: usize,
        atom_position: &i64,
        atom_force: &mut i64,
    ) -> i64 {
        self.visited.push(atom_idx);
        *atom_force -= atom_position;
        atom_position * atom_position
    }

    fn calculate_potential(
        &mut self,
        _group: &AtomGroupInfo<i64>,
        atom_idx: usize,
        atom_position: &i64,
    ) -> i64 {
        self.visited.push(atom_idx);
        atom_position * atom_position
    }

    fn set_force(
        &mut self,
        _group: &AtomGroupInfo<i64>,
        atom_idx: usize,
        atom_position: &i64,
        atom_force: &mut i64,
    ) {
        self.visited.push(atom_idx);
        *atom_force = -atom_position;
    }

    fn add_force(
        &mut self,
        _group: &AtomGroupInfo<i64>,
        atom_idx: usize,
        atom_position: &i64,
        atom_force: &mut i64,
    ) {
        self.visited.push(atom_idx);
        *atom_force -= atom_position;
    }
}

impl MonteCarloAtomDecoupledPhysicalPotential<i64, i64> for Spring {
    fn calculate_potential_diff_set_changed_force(
        &mut self,
        _group: &AtomGroupInfo<i64>,
        atom_idx: usize,
        old_value: &i64,
        atom_position: &i64,
        atom_force: &mut i64,
    ) -> i64 {
        self.visited.push(atom_idx);
        *atom_force = -atom_position;
        atom_position * atom_position - old_value * old_value
    }

    fn calculate_potential_diff_add_changed_force(
        &mut self,
        _group: &AtomGroupInfo<i64>,
        atom_idx: usize,
        old_value: &i64,
        atom_position: &i64,
        atom_force: &mut i64,
    ) -> i64 {
        self.visited.push(atom_idx);
        *atom_force -= atom_position;
        atom_position * atom_position - old_value * old_value
    }

    fn calculate_potential_diff(
        &mut self,
        _group: &AtomGroupInfo<i64>,
        atom_idx: usize,
        old_value: &i64,
        atom_position: &i64,
    ) -> i64 {
        self.visited.push(atom_idx);
        atom_position * atom_position - old_value * old_value
    }

    fn set_changed_force(
        &mut self,
        _group: &AtomGroupInfo<i64>,
        atom_idx: usize,
        _old_value: &i64,
        atom_position: &i64,
        atom_force: &mut i64,
    ) {
        self.visited.push(atom_idx);
        *atom_force = -atom_position;
    }

    fn add_changed_force(
        &mut self,
        _group: &AtomGroupInfo<i64>,
        atom_idx: usize,
        _old_value: &i64,
        atom_position: &i64,
        atom_force: &mut i64,
    ) {
        self.visited.push(atom_idx);
        *atom_force -= atom_position;
    }
}

fn spring() -> Spring {
    Spring { visited: Vec::new() }
}

fn groups() -> [AtomGroupInfo<i64>; 2] {
    [
        AtomGroupInfo { id: 0, start: 0, end: 2, mass: 1 },
        AtomGroupInfo { id: 1, start: 2, end: 5, mass: 16 },
    ]
}

#[test]
fn pairs_is_the_smaller_length() {
    assert_eq!(pairs(3, 5), 3);
    assert_eq!(pairs(5, 3), 3);
    assert_eq!(pairs(4, 4), 4);
    assert_eq!(pairs(0, 9), 0);
}

#[test]
fn a_group_energy_is_the_sum_over_its_atoms() {
    let group = groups()[1];
    let mut potential = spring();
    assert_eq!(sum_energies(&mut potential, &group, &[1, 2, 3]), 14);
    assert_eq!(potential.visited, vec![0, 1, 2]);
    assert_eq!(sum_energies(&mut potential, &group, &[-5]), 25);
    assert_eq!(
        GroupDecoupledPhysicalPotential::calculate_potential(&mut potential, &group, &[2, 2]),
        8
    );
}

#[test]
fn setting_forces_stops_at_the_shorter_slice() {
    let group = groups()[1];
    let mut potential = spring();
    let mut forces = [9, 9, 9, 9];
    assert_eq!(sum_setting_forces(&mut potential, &group, &[1, 2, 3], &mut forces), 14);
    assert_eq!(forces, [-1, -2, -3, 9]);
    assert_eq!(potential.visited, vec![0, 1, 2]);

    let mut potential = spring();
    let mut forces = [9, 9];
    assert_eq!(
        GroupDecoupledPhysicalPotential::calculate_potential_set_forces(
            &mut potential,
            &group,
            &[1, 2, 3],
            &mut forces
        ),
        5
    );
    assert_eq!(forces, [-1, -2]);
    assert_eq!(potential.visited, vec![0, 1]);
}

#[test]
fn adding_forces_adds_to_what_is_there() {
    let group = groups()[1];
    let mut potential = spring();
    let mut forces = [10, 10, 10, 10];
    assert_eq!(sum_adding_forces(&mut potential, &group, &[1, 2, 3], &mut forces), 14);
    assert_eq!(forces, [9, 8, 7, 10]);
    assert_eq!(
        GroupDecoupledPhysicalPotential::calculate_potential_add_forces(
            &mut potential,
            &group,
            &[4],
            &mut forces
        ),
        16
    );
    assert_eq!(forces, [5, 8, 7, 10]);
}

#[test]
fn set_forces_visits_every_pair_and_takes_no_energy() {
    let group = groups()[1];
    let mut potential = spring();
    let mut forces = [9, 9, 9];
    set_each_force(&mut potential, &group, &[1, 2], &mut forces);
    assert_eq!(forces, [-1, -2, 9]);
    GroupDecoupledPhysicalPotential::set_forces(&mut potential, &group, &[], &mut forces);
    assert_eq!(forces, [-1, -2, 9]);
    GroupDecoupledPhysicalPotential::set_forces(&mut potential, &group, &[7, 7, 7, 7], &mut forces);
    assert_eq!(forces, [-7, -7, -7]);
}

#[test]
fn add_forces_of_an_atom_wise_potential_sets_each_force() {
    let group = groups()[1];
    let mut potential = spring();
    let mut forces = [10, 10, 10];
    GroupDecoupledPhysicalPotential::add_forces(&mut potential, &group, &[1, 2], &mut forces);
    assert_eq!(forces, [-1, -2, 10]);
}

#[test]
fn locate_finds_the_group_and_its_positions() {
    let groups = groups();
    let positions = [10, 11, 12, 13, 14];
    let (group, own) = locate(1, &groups, &positions);
    assert_eq!((group.id, group.mass), (1, 16));
    assert_eq!(own, &[12, 13, 14]);
    let (group, own) = locate(0, &groups, &positions);
    assert_eq!(group.id, 0);
    assert_eq!(own, &[10, 11]);
}

#[test]
fn a_potential_serves_its_group_among_all_groups() {
    let groups = groups();
    let positions = [1, 2, 3, 4, 5];
    let mut potential = spring();
    let mut forces = [0, 0, 0];
    assert_eq!(
        PhysicalPotential::calculate_potential_set_forces(
            &mut potential,
            1,
            &groups,
            &positions,
            &mut forces
        ),
        50
    );
    assert_eq!(forces, [-3, -4, -5]);
    assert_eq!(
        PhysicalPotential::calculate_potential_add_forces(
            &mut potential,
            0,
            &groups,
            &positions,
            &mut forces
        ),
        5
    );
    assert_eq!(forces, [-4, -6, -5]);
    assert_eq!(PhysicalPotential::calculate_potential(&mut potential, 0, &groups, &positions), 5);
    PhysicalPotential::set_forces(&mut potential, 0, &groups, &positions, &mut forces);
    assert_eq!(forces, [-1, -2, -5]);
    PhysicalPotential::add_forces(&mut potential, 1, &groups, &positions, &mut forces);
    assert_eq!(forces, [-3, -4, -5]);
}

#[test]
fn changed_atom_borrows_one_position_and_one_force() {
    let positions = [1, 2, 3];
    let mut forces = [7, 8, 9];
    let (position, force) = changed_atom(1, &positions, &mut forces);
    assert_eq!((*position, *force), (2, 8));
    *force = 0;
    assert_eq!(forces, [7, 0, 9]);
}

#[test]
fn a_change_in_a_group_touches_the_changed_atom_alone() {
    let group = groups()[1];
    let mut potential = spring();
    let mut forces = [9, 9, 9];
    assert_eq!(
        MonteCarloGroupDecoupledPhysicalPotential::calculate_potential_diff_set_changed_forces(
            &mut potential,
            &group,
            2,
            &1,
            &[5, 6, 4],
            &mut forces
        ),
        15
    );
    assert_eq!(forces, [9, 9, -4]);
    assert_eq!(potential.visited, vec![2]);
    assert_eq!(
        MonteCarloGroupDecoupledPhysicalPotential::calculate_potential_diff_add_changed_forces(
            &mut potential,
            &group,
            0,
            &6,
            &[5, 6, 4],
            &mut forces
        ),
        -11
    );
    assert_eq!(forces, [4, 9, -4]);
    assert_eq!(
        MonteCarloGroupDecoupledPhysicalPotential::calculate_potential_diff(
            &mut potential,
            &group,
            1,
            &0,
            &[5, 6, 4]
        ),
        36
    );
    MonteCarloGroupDecoupledPhysicalPotential::set_changed_forces(
        &mut potential,
        &group,
        1,
        &0,
        &[5, 6, 4],
        &mut forces,
    );
    assert_eq!(forces, [4, -6, -4]);
    MonteCarloGroupDecoupledPhysicalPotential::add_changed_forces(
        &mut potential,
        &group,
        1,
        &0,
        &[5, 6, 4],
        &mut forces,
    );
    assert_eq!(forces, [4, -12, -4]);
}

#[test]
fn a_change_in_another_group_costs_nothing() {
    let groups = groups();
    let positions = [1, 2, 3, 4, 5];
    let mut potential = spring();
    let mut forces = [9, 9, 9];
    assert_eq!(
        MonteCarloPhysicalPotential::calculate_potential_diff_set_changed_forces(
            &mut potential,
            &groups,
            1,
            0,
            1,
            &7,
            &positions,
            &mut forces
        ),
        0
    );
    assert_eq!(
        MonteCarloPhysicalPotential::calculate_potential_diff_add_changed_forces(
            &mut potential,
            &groups,
            1,
            0,
            1,
            &7,
            &positions,
            &mut forces
        ),
        0
    );
    assert_eq!(
        MonteCarloPhysicalPotential::calculate_potential_diff(
            &mut potential,
            &groups,
            1,
            0,
            1,
            &7,
            &positions
        ),
        0
    );
    MonteCarloPhysicalPotential::set_changed_forces(
        &mut potential,
        &groups,
        1,
        0,
        1,
        &7,
        &positions,
        &mut forces,
    );
    MonteCarloPhysicalPotential::add_changed_forces(
        &mut potential,
        &groups,
        1,
        0,
        1,
        &7,
        &positions,
        &mut forces,
    );
    assert_eq!(forces, [9, 9, 9]);
    assert!(potential.visited.is_empty());
    // A group that is not among the groups is fine as long as it did not change.
    assert_eq!(
        MonteCarloPhysicalPotential::calculate_potential_diff(
            &mut potential,
            &groups,
            9,
            0,
            1,
            &7,
            &positions
        ),
        0
    );
}

#[test]
fn a_change_in_the_own_group_is_looked_up_in_its_span() {
    let groups = groups();
    let positions = [1, 2, 3, 4, 5];
    let mut potential = spring();
    let mut forces = [9, 9, 9];
    assert_eq!(
        MonteCarloPhysicalPotential::calculate_potential_diff_set_changed_forces(
            &mut potential,
            &groups,
            1,
            1,
            2,
            &3,
            &positions,
            &mut forces
        ),
        16
    );
    assert_eq!(forces, [9, 9, -5]);
    assert_eq!(potential.visited, vec![2]);
    assert_eq!(
        MonteCarloPhysicalPotential::calculate_potential_diff_add_changed_forces(
            &mut potential,
            &groups,
            0,
            0,
            1,
            &0,
            &positions,
            &mut forces
        ),
        4
    );
    assert_eq!(forces, [9, 7, -5]);
    assert_eq!(
        MonteCarloPhysicalPotential::calculate_potential_diff(
            &mut potential,
            &groups,
            1,
            1,
            0,
            &1,
            &positions
        ),
        8
    );
    MonteCarloPhysicalPotential::set_changed_forces(
        &mut potential,
        &groups,
        1,
        1,
        0,
        &1,
        &positions,
        &mut forces,
    );
    assert_eq!(forces, [-3, 7, -5]);
    MonteCarloPhysicalPotential::add_changed_forces(
        &mut potential,
        &groups,
        1,
        1,
        1,
        &1,
        &positions,
        &mut forces,
    );
    assert_eq!(forces, [-3, 3, -5]);
}
