use arc_rw_lock::arc::Global;
use arc_rw_lock::arc::UniqueArcMappedRwLock;
use arc_rw_lock::sim::exchange::InnerExchangePotential;
use arc_rw_lock::sim::exchange::LeadingExchangePotential;
use arc_rw_lock::sim::exchange::TrailingExchangePotential;
use arc_rw_lock::sim::exchange_monte_carlo::InnerMonteCarloExchangePotential;
use arc_rw_lock::sim::exchange_monte_carlo::LeadingMonteCarloExchangePotential;
use arc_rw_lock::sim::exchange_monte_carlo::NeighboringReplica;
use arc_rw_lock::sim::exchange_monte_carlo::TrailingMonteCarloExchangePotential;
use arc_rw_lock::sim::group::AtomGroupInfo;
use arc_rw_lock::sim::normal_modes::InnerNormalModesTransform;
use arc_rw_lock::sim::normal_modes::LeadingNormalModesTransform;
use arc_rw_lock::sim::normal_modes::TrailingNormalModesTransform;
use arc_rw_lock::sim::observable::InnerDebugObservable;
use arc_rw_lock::sim::observable::InnerQuantumObservable;
use arc_rw_lock::sim::observable::LeadingQuantumObservable;
use arc_rw_lock::sim::observable::TrailingDebugObservable;
use arc_rw_lock::sim::observable::TrailingQuantumObservable;
use arc_rw_lock::sim::stat::Bosonic;
use arc_rw_lock::sim::stat::Distinguishable;
use arc_rw_lock::sim::stat::InnerIsLeading;
use arc_rw_lock::sim::stat::InnerIsTrailing;
use arc_rw_lock::sim::stat::Stat;
use arc_rw_lock::sim::sync_ops::SyncAddSend;
use arc_rw_lock::sim::sync_ops::SyncMulSend;
use arc_rw_lock::slice::ElementRwLock;
use arc_rw_lock::slice::UniqueArcElementRwLock;
use arc_rw_lock::slice::UniqueArcSliceRwLock;

/// Answers with a number made of everything it was handed, so that a test
/// can tell which argument went where.
struct Chain;

fn mix(replica: usize, a: &[i64], b: &[i64], c: &[i64]) -> i64 {
    replica as i64 * 1000 + a[0] * 100 + b[0] * 10 + c[0]
}

impl InnerExchangePotential<i64, i64> for Chain {
    fn calculate_potential_set_forces(
        &mut self,
        replica: usize,
        _group: &AtomGroupInfo<i64>,
        prev: &[i64],
        next: &[i64],
        positions: &[i64],
        forces: &mut [i64],
    ) -> i64 {
        forces[0] = 1;
        mix(replica, prev, next, positions)
    }

    fn calculate_potential_add_forces(
        &mut self,
        replica: usize,
        _group: &AtomGroupInfo<i64>,
        prev: &[i64],
        next: &[i64],
        positions: &[i64],
        forces: &mut [i64],
    ) -> i64 {
        forces[0] += 2;
        mix(replica, prev, next, positions) + 1
    }

    fn calculate_potential(
        &mut self,
        replica: usize,
        _group: &AtomGroupInfo<i64>,
        prev: &[i64],
        next: &[i64],
        positions: &[i64],
    ) -> i64 {
        mix(replica, prev, next, positions) + 2
    }

    fn set_forces(
        &mut self,
        replica: usize,
        _group: &AtomGroupInfo<i64>,
        prev: &[i64],
        next: &[i64],
        positions: &[i64],
        forces: &mut [i64],
    ) {
        forces[0] = mix(replica, prev, next, positions) + 3;
    }

    fn add_forces(
        &mut self,
        replica: usize,
        _group: &AtomGroupInfo<i64>,
        prev: &[i64],
        next: &[i64],
        positions: &[i64],
        forces: &mut [i64],
    ) {
        forces[0] += mix(replica, prev, next, positions) + 4;
    }
}

impl InnerMonteCarloExchangePotential<i64, i64> for Chain {
    fn calculate_potential_diff_set_changed_forces(
        &mut self,
        replica: usize,
        _group: &AtomGroupInfo<i64>,
        changed_replica: NeighboringReplica,
        changed_atom_idx: usize,
        old_value: i64,
        prev: &[i64],
        next: &[i64],
        positions: &[i64],
        forces: &mut [i64],
    ) -> i64 {
        forces[changed_atom_idx] = old_value;
        mix(replica, prev, next, positions) + which(changed_replica)
    }

    fn calculate_potential_diff_add_changed_forces(
        &mut self,
        replica: usize,
        _group: &AtomGroupInfo<i64>,
        changed_replica: NeighboringReplica,
        changed_atom_idx: usize,
        old_value: i64,
        prev: &[i64],
        next: &[i64],
        positions: &[i64],
        forces: &mut [i64],
    ) -> i64 {
        forces[changed_atom_idx] += old_value;
        mix(replica, prev, next, positions) + which(changed_replica) + 1
    }

    fn calculate_potential_diff(
        &mut self,
        replica: usize,
        _group: &AtomGroupInfo<i64>,
        changed_replica: NeighboringReplica,
        changed_atom_idx: usize,
        old_value: i64,
        prev: &[i64],
        next: &[i64],
        positions: &[i64],
    ) -> i64 {
        mix(replica, prev, next, positions) + which(changed_replica) + old_value
            + changed_atom_idx as i64
    }

    fn set_changed_forces(
        &mut self,
        replica: usize,
        _group: &AtomGroupInfo<i64>,
        changed_replica: NeighboringReplica,
        changed_atom_idx: usize,
        old_value: i64,
        prev: &[i64],
        next: &[i64],
        positions: &[i64],
        forces: &mut [i64],
    ) -> i64 {
        forces[changed_atom_idx] = -old_value;
        mix(replica, prev, next, positions) + which(changed_replica) + 3
    }

    fn add_changed_forces(
        &mut self,
        replica: usize,
        _group: &AtomGroupInfo<i64>,
        changed_replica: NeighboringReplica,
        changed_atom_idx: usize,
        old_value: i64,
        prev: &[i64],
        next: &[i64],
        positions: &[i64],
        forces: &mut [i64],
    ) -> i64 {
        forces[changed_atom_idx] -= old_value;
        mix(replica, prev, next, positions) + which(changed_replica) + 4
    }
}

fn which(replica: NeighboringReplica) -> i64 {
    match replica {
        NeighboringReplica::This => 10_000,
        NeighboringReplica::Prev => 20_000,
        NeighboringReplica::Next => 30_000,
    }
}

impl InnerNormalModesTransform<i64, i64> for Chain {
    fn cartesian_to_normal_modes<'a, I>(
        &mut self,
        replica: usize,
        _group: &AtomGroupInfo<i64>,
        replicas_group_positions: I,
        replica_normal_modes: &mut [i64],
    ) where
        i64: 'a,
        I: Iterator<Item = &'a [i64]> + Clone,
    {
        for (mode, out) in replica_normal_modes.iter_mut().enumerate() {
            *out = replica as i64 * 1000
                + replicas_group_positions.clone().map(|positions| positions[mode]).sum::<i64>();
        }
    }

    fn normal_modes_to_cartesian<'a, I>(
        &mut self,
        replica: usize,
        _group: &AtomGroupInfo<i64>,
        replicas_normal_modes: I,
        replica_group_position: &mut [i64],
    ) where
        i64: 'a,
        I: Iterator<Item = &'a [i64]> + Clone,
    {
        for (atom, out) in replica_group_position.iter_mut().enumerate() {
            *out = -(replica as i64 * 1000)
                - replicas_normal_modes.clone().map(|modes| modes[atom]).sum::<i64>();
        }
    }

    fn eigenvalues(&mut self, replica: usize, group: &AtomGroupInfo<i64>, eigenvalues: &mut [i64]) {
        for (mode, out) in eigenvalues.iter_mut().enumerate() {
            *out = group.mass * (replica * eigenvalues_per_replica() + mode) as i64;
        }
    }
}

fn eigenvalues_per_replica() -> usize {
    2
}

impl InnerIsLeading for Chain {}
impl InnerIsTrailing for Chain {}
impl Distinguishable for Chain {}
impl Bosonic for Chain {}

fn group() -> AtomGroupInfo<i64> {
    AtomGroupInfo { id: 0, start: 0, end: 1, mass: 3 }
}

#[test]
fn the_first_replica_is_the_inner_replica_zero() {
    let mut chain = Chain;
    let mut forces = [0];
    assert_eq!(
        LeadingExchangePotential::calculate_potential_set_forces(
            &mut chain,
            &group(),
            &[1],
            &[2],
            &[3],
            &mut forces
        ),
        123
    );
    assert_eq!(forces, [1]);
    assert_eq!(
        LeadingExchangePotential::calculate_potential_add_forces(
            &mut chain,
            &group(),
            &[1],
            &[2],
            &[3],
            &mut forces
        ),
        124
    );
    assert_eq!(forces, [3]);
    assert_eq!(
        LeadingExchangePotential::calculate_potential(&mut chain, &group(), &[1], &[2], &[3]),
        125
    );
    LeadingExchangePotential::set_forces(&mut chain, &group(), &[1], &[2], &[3], &mut forces);
    assert_eq!(forces, [126]);
    LeadingExchangePotential::add_forces(&mut chain, &group(), &[1], &[2], &[3], &mut forces);
    assert_eq!(forces, [253]);
}

#[test]
fn the_last_replica_is_the_inner_replica_of_its_index() {
    let mut chain = Chain;
    let mut forces = [0];
    assert_eq!(
        TrailingExchangePotential::calculate_potential_set_forces(
            &mut chain,
            7,
            &group(),
            &[1],
            &[2],
            &[3],
            &mut forces
        ),
        7123
    );
    assert_eq!(forces, [1]);
    assert_eq!(
        TrailingExchangePotential::calculate_potential_add_forces(
            &mut chain,
            7,
            &group(),
            &[1],
            &[2],
            &[3],
            &mut forces
        ),
        7124
    );
    assert_eq!(forces, [3]);
    assert_eq!(
        TrailingExchangePotential::calculate_potential(&mut chain, 7, &group(), &[1], &[2], &[3]),
        7125
    );
    TrailingExchangePotential::set_forces(&mut chain, 7, &group(), &[1], &[2], &[3], &mut forces);
    assert_eq!(forces, [7126]);
    TrailingExchangePotential::add_forces(&mut chain, 7, &group(), &[1], &[2], &[3], &mut forces);
    assert_eq!(forces, [14253]);
}

#[test]
fn monte_carlo_moves_are_handed_on_to_the_inner_replica() {
    let mut chain = Chain;
    let mut forces = [0, 0];
    assert_eq!(
        LeadingMonteCarloExchangePotential::calculate_potential_diff_set_changed_forces(
            &mut chain,
            &group(),
            NeighboringReplica::Prev,
            1,
            5,
            &[1],
            &[2],
            &[3],
            &mut forces
        ),
        20_123
    );
    assert_eq!(forces, [0, 5]);
    assert_eq!(
        LeadingMonteCarloExchangePotential::calculate_potential_diff_add_changed_forces(
            &mut chain,
            &group(),
            NeighboringReplica::Next,
            1,
            5,
            &[1],
            &[2],
            &[3],
            &mut forces
        ),
        30_124
    );
    assert_eq!(forces, [0, 10]);
    assert_eq!(
        LeadingMonteCarloExchangePotential::calculate_potential_diff(
            &mut chain,
            &group(),
            NeighboringReplica::This,
            1,
            5,
            &[1],
            &[2],
            &[3]
        ),
        10_129
    );
    assert_eq!(
        LeadingMonteCarloExchangePotential::set_changed_forces(
            &mut chain,
            &group(),
            NeighboringReplica::This,
            0,
            5,
            &[1],
            &[2],
            &[3],
            &mut forces
        ),
        10_126
    );
    assert_eq!(forces, [-5, 10]);
    assert_eq!(
        LeadingMonteCarloExchangePotential::add_changed_forces(
            &mut chain,
            &group(),
            NeighboringReplica::This,
            0,
            5,
            &[1],
            &[2],
            &[3],
            &mut forces
        ),
        10_127
    );
    assert_eq!(forces, [-10, 10]);

    assert_eq!(
        TrailingMonteCarloExchangePotential::calculate_potential_diff_set_changed_forces(
            &mut chain,
            4,
            &group(),
            NeighboringReplica::Prev,
            1,
            5,
            &[1],
            &[2],
            &[3],
            &mut forces
        ),
        24_123
    );
    assert_eq!(
        TrailingMonteCarloExchangePotential::calculate_potential_diff_add_changed_forces(
            &mut chain,
            4,
            &group(),
            NeighboringReplica::Prev,
            1,
            5,
            &[1],
            &[2],
            &[3],
            &mut forces
        ),
        24_124
    );
    assert_eq!(
        TrailingMonteCarloExchangePotential::calculate_potential_diff(
            &mut chain,
            4,
            &group(),
            NeighboringReplica::Next,
            0,
            0,
            &[1],
            &[2],
            &[3]
        ),
        34_123
    );
    assert_eq!(
        TrailingMonteCarloExchangePotential::set_changed_forces(
            &mut chain,
            4,
            &group(),
            NeighboringReplica::This,
            0,
            5,
            &[1],
            &[2],
            &[3],
            &mut forces
        ),
        14_126
    );
    assert_eq!(
        TrailingMonteCarloExchangePotential::add_changed_forces(
            &mut chain,
            4,
            &group(),
            NeighboringReplica::This,
            0,
            5,
            &[1],
            &[2],
            &[3],
            &mut forces
        ),
        14_127
    );
    assert_eq!(forces, [-10, 10]);
}

#[test]
fn normal_modes_are_handed_on_to_the_inner_replica() {
    let mut chain = Chain;
    let replicas: [&[i64]; 3] = [&[1, 2], &[10, 20], &[100, 200]];
    let mut out = [0, 0];
    LeadingNormalModesTransform::cartesian_to_normal_modes(
        &mut chain,
        &group(),
        replicas.iter().copied(),
        &mut out,
    );
    assert_eq!(out, [111, 222]);
    LeadingNormalModesTransform::normal_modes_to_cartesian(
        &mut chain,
        &group(),
        replicas.iter().copied(),
        &mut out,
    );
    assert_eq!(out, [-111, -222]);
    LeadingNormalModesTransform::eigenvalues(&mut chain, &group(), &mut out);
    assert_eq!(out, [0, 3]);

    TrailingNormalModesTransform::cartesian_to_normal_modes(
        &mut chain,
        2,
        &group(),
        replicas.iter().copied(),
        &mut out,
    );
    assert_eq!(out, [2111, 2222]);
    TrailingNormalModesTransform::normal_modes_to_cartesian(
        &mut chain,
        2,
        &group(),
        replicas.iter().copied(),
        &mut out,
    );
    assert_eq!(out, [-2111, -2222]);
    TrailingNormalModesTransform::eigenvalues(&mut chain, 2, &group(), &mut out);
    assert_eq!(out, [12, 15]);
}

/// Contributes the replica's index from even replicas, and nothing from odd
/// ones.
struct Parity;

impl InnerQuantumObservable<i64, i64, Chain, Chain> for Parity {
    type Output = usize;

    fn calculate(
        &mut self,
        _exchange_potential: &Stat<Chain, Chain>,
        replica: usize,
        groups: &[AtomGroupInfo<i64>],
        group_idx: usize,
        positions: &ElementRwLock<UniqueArcSliceRwLock<i64>>,
        _forces: &ElementRwLock<UniqueArcSliceRwLock<i64>>,
    ) -> Option<usize> {
        if replica % 2 == 0 {
            Some(replica + groups[group_idx].id + positions.subfield().start)
        } else {
            None
        }
    }
}

impl InnerIsLeading for Parity {}
impl InnerIsTrailing for Parity {}

struct Sink {
    sent: Vec<usize>,
}

impl SyncAddSend<usize> for Sink {
    type Error = char;

    fn send(&mut self, value: usize) -> Result<(), char> {
        self.sent.push(value);
        Ok(())
    }

    fn send_empty(&mut self) -> Result<(), char> {
        Err('a')
    }
}

impl SyncMulSend<usize> for Sink {
    type Error = char;

    fn send(&mut self, value: usize) -> Result<(), char> {
        self.sent.push(value);
        Ok(())
    }

    fn send_empty(&mut self) -> Result<(), char> {
        Err('m')
    }
}

impl InnerDebugObservable<i64, i64, Chain, Chain, Sink, Sink, char> for Parity {
    type Output = usize;

    fn calculate(
        &mut self,
        adder: &mut Sink,
        multiplier: &mut Sink,
        _exchange_potential: &Stat<Chain, Chain>,
        replica: usize,
        _groups: &[AtomGroupInfo<i64>],
        group_idx: usize,
        _positions: &ElementRwLock<UniqueArcSliceRwLock<i64>>,
        momenta: &ElementRwLock<UniqueArcSliceRwLock<i64>>,
        _forces: &ElementRwLock<UniqueArcSliceRwLock<i64>>,
    ) -> Result<(), char> {
        SyncAddSend::send(adder, replica)?;
        SyncMulSend::send(multiplier, group_idx + momenta.subfield().start)?;
        if replica == 0 {
            SyncAddSend::send_empty(adder)?;
        }
        Ok(())
    }
}

fn replicas() -> Vec<UniqueArcElementRwLock<UniqueArcSliceRwLock<i64>>> {
    let owner: UniqueArcSliceRwLock<UniqueArcSliceRwLock<i64>> =
        UniqueArcMappedRwLock::new(3, Global);
    let mut iter = owner.iter_mut();
    let mut handles = Vec::new();
    while let Some(item) = iter.next() {
        handles.push(item.unwrap());
    }
    iter.release();
    handles
}

#[test]
fn the_first_replica_always_contributes_to_a_quantum_observable() {
    let handles = replicas();
    let groups = [group()];
    let mut parity = Parity;
    let potential = Stat::Bosonic(Chain);
    assert_eq!(
        LeadingQuantumObservable::calculate(
            &mut parity,
            &potential,
            &groups,
            0,
            handles[2].as_lock(),
            handles[0].as_lock()
        ),
        2
    );
}

#[test]
fn the_last_replica_contributes_where_the_inner_one_does() {
    let handles = replicas();
    let groups = [group()];
    let mut parity = Parity;
    let potential = Stat::Distinguishable(Chain);
    assert_eq!(
        TrailingQuantumObservable::calculate(
            &mut parity,
            &potential,
            4,
            &groups,
            0,
            handles[1].as_lock(),
            handles[0].as_lock()
        ),
        Some(5)
    );
    assert_eq!(
        TrailingQuantumObservable::calculate(
            &mut parity,
            &potential,
            5,
            &groups,
            0,
            handles[1].as_lock(),
            handles[0].as_lock()
        ),
        None
    );
}

#[test]
fn the_last_replica_debugs_as_the_inner_one_does() {
    let handles = replicas();
    let groups = [group()];
    let mut parity = Parity;
    let potential = Stat::Distinguishable(Chain);
    let mut adder = Sink { sent: Vec::new() };
    let mut multiplier = Sink { sent: Vec::new() };
    assert_eq!(
        TrailingDebugObservable::calculate(
            &mut parity,
            &mut adder,
            &mut multiplier,
            &potential,
            6,
            &groups,
            0,
            handles[0].as_lock(),
            handles[2].as_lock(),
            handles[1].as_lock()
        ),
        Ok(())
    );
    assert_eq!(adder.sent, vec![6]);
    assert_eq!(multiplier.sent, vec![2]);
    assert_eq!(
        TrailingDebugObservable::calculate(
            &mut parity,
            &mut adder,
            &mut multiplier,
            &potential,
            0,
            &groups,
            0,
            handles[0].as_lock(),
            handles[2].as_lock(),
            handles[1].as_lock()
        ),
        Err('a')
    );
}
