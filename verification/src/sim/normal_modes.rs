//! Normal-mode transforms: the change of coordinates that turns the
//! quadratic part of an exchange potential into independent oscillators.
//!
//! Each trait says in two spec functions what a call may leave behind; a
//! transform that says nothing there promises nothing. The impls below
//! promise what the inner transform promises for the replica they hand on.

use vstd::prelude::*;

use crate::sim::group::AtomGroupInfo;
use crate::sim::stat::InnerIsLeading;
use crate::sim::stat::InnerIsTrailing;

verus! {

/// A trait for normal mode transformations that transform the positions of a
/// group in all replicas into the first `n` normal modes and all normal modes
/// into the positions of the group in the first replica, where `n` is the
/// number of atoms in the group.
///
/// The transformation deals with the modes whose indices are `[0, n)`.
pub trait LeadingNormalModesTransform<T, V> {
    /// Whether a transformation, to normal modes or back, may turn the
    /// transform into `after` and `out` into `out_after`. What the iterator
    /// of the call yields is not among the arguments.
    open spec fn transforms(
        &self,
        after: &Self,
        to_normal_modes: bool,
        group: &AtomGroupInfo<T>,
        out: Seq<V>,
        out_after: Seq<V>,
    ) -> bool {
        true
    }

    /// Whether listing the eigenvalues may turn the transform into `after`
    /// and `eigenvalues` into `eigenvalues_after`.
    open spec fn lists(
        &self,
        after: &Self,
        group: &AtomGroupInfo<T>,
        eigenvalues: Seq<T>,
        eigenvalues_after: Seq<T>,
    ) -> bool {
        true
    }

    /// Transforms the positions of this group in all replicas into the normal
    /// modes delegated to the first replica.
    fn cartesian_to_normal_modes<'a, I>(
        &mut self,
        group: &AtomGroupInfo<T>,
        replicas_group_positions: I,
        replica_normal_modes: &mut [V],
    ) where V: 'a, I: Iterator<Item = &'a [V]> + Clone
        ensures
            old(self).transforms(
                final(self),
                true,
                group,
                old(replica_normal_modes)@,
                final(replica_normal_modes)@,
            ),
    ;

    /// Transforms all normal modes of this group into the positions of this
    /// group in the first replica.
    fn normal_modes_to_cartesian<'a, I>(
        &mut self,
        group: &AtomGroupInfo<T>,
        replicas_normal_modes: I,
        replica_group_position: &mut [V],
    ) where V: 'a, I: Iterator<Item = &'a [V]> + Clone
        ensures
            old(self).transforms(
                final(self),
                false,
                group,
                old(replica_group_position)@,
                final(replica_group_position)@,
            ),
    ;

    /// Sets `eigenvalues` to contain the eigenvalues of the normal modes of
    /// this group delegated to the first replica.
    fn eigenvalues(
        &mut self,
        group: &AtomGroupInfo<T>,
        eigenvalues: &mut [T],
    )
        ensures
            old(self).lists(final(self), group, old(eigenvalues)@, final(eigenvalues)@),
    ;
}

/// A trait for normal mode transformations that transform the positions of a
/// group in all replicas into `n` normal modes and all normal modes into the
/// positions of the group in a replica, where `n` is the number of atoms in
/// the group.
///
/// Given the index of the replica `replica`, the transformation deals with
/// the modes whose indices are `[replica * n, (replica + 1) * n)`.
pub trait InnerNormalModesTransform<T, V> {
    /// Whether a transformation, to normal modes or back, may turn the
    /// transform into `after` and `out` into `out_after`. What the iterator
    /// of the call yields is not among the arguments.
    open spec fn transforms(
        &self,
        after: &Self,
        to_normal_modes: bool,
        replica: usize,
        group: &AtomGroupInfo<T>,
        out: Seq<V>,
        out_after: Seq<V>,
    ) -> bool {
        true
    }

    /// Whether listing the eigenvalues may turn the transform into `after`
    /// and `eigenvalues` into `eigenvalues_after`.
    open spec fn lists(
        &self,
        after: &Self,
        replica: usize,
        group: &AtomGroupInfo<T>,
        eigenvalues: Seq<T>,
        eigenvalues_after: Seq<T>,
    ) -> bool {
        true
    }

    /// Transforms the positions of this group in all replicas into the normal
    /// modes delegated to this replica.
    fn cartesian_to_normal_modes<'a, I>(
        &mut self,
        replica: usize,
        group: &AtomGroupInfo<T>,
        replicas_group_positions: I,
        replica_normal_modes: &mut [V],
    ) where V: 'a, I: Iterator<Item = &'a [V]> + Clone
        ensures
            old(self).transforms(
                final(self),
                true,
                replica,
                group,
                old(replica_normal_modes)@,
                final(replica_normal_modes)@,
            ),
    ;

    /// Transforms all normal modes of this group into the positions of this
    /// group in this replica.
    fn normal_modes_to_cartesian<'a, I>(
        &mut self,
        replica: usize,
        group: &AtomGroupInfo<T>,
        replicas_normal_modes: I,
        replica_group_position: &mut [V],
    ) where V: 'a, I: Iterator<Item = &'a [V]> + Clone
        ensures
            old(self).transforms(
                final(self),
                false,
                replica,
                group,
                old(replica_group_position)@,
                final(replica_group_position)@,
            ),
    ;

    /// Sets `eigenvalues` to contain the eigenvalues of the normal modes of
    /// this group delegated to this replica.
    fn eigenvalues(
        &mut self,
        replica: usize,
        group: &AtomGroupInfo<T>,
        eigenvalues: &mut [T],
    )
        ensures
            old(self).lists(final(self), replica, group, old(eigenvalues)@, final(eigenvalues)@),
    ;
}

/// A trait for normal mode transformations that transform the positions of a
/// group in all replicas into the last `n` normal modes and all normal modes
/// into the positions of the group in the last replica, where `n` is the
/// number of atoms in the group.
///
/// Given the index of the last replica `last_replica`, the transformation
/// deals with the modes whose indices are
/// `[last_replica * n, (last_replica + 1) * n)`.
pub trait TrailingNormalModesTransform<T, V> {
    /// Whether a transformation, to normal modes or back, may turn the
    /// transform into `after` and `out` into `out_after`. What the iterator
    /// of the call yields is not among the arguments.
    open spec fn transforms(
        &self,
        after: &Self,
        to_normal_modes: bool,
        last_replica: usize,
        group: &AtomGroupInfo<T>,
        out: Seq<V>,
        out_after: Seq<V>,
    ) -> bool {
        true
    }

    /// Whether listing the eigenvalues may turn the transform into `after`
    /// and `eigenvalues` into `eigenvalues_after`.
    open spec fn lists(
        &self,
        after: &Self,
        last_replica: usize,
        group: &AtomGroupInfo<T>,
        eigenvalues: Seq<T>,
        eigenvalues_after: Seq<T>,
    ) -> bool {
        true
    }

    /// Transforms the positions of this group in all replicas into the normal
    /// modes delegated to the last replica.
    fn cartesian_to_normal_modes<'a, I>(
        &mut self,
        last_replica: usize,
        group: &AtomGroupInfo<T>,
        replicas_group_positions: I,
        replica_normal_modes: &mut [V],
    ) where V: 'a, I: Iterator<Item = &'a [V]> + Clone
        ensures
            old(self).transforms(
                final(self),
                true,
                last_replica,
                group,
                old(replica_normal_modes)@,
                final(replica_normal_modes)@,
            ),
    ;

    /// Transforms all normal modes of this group into the positions of this
    /// group in the last replica.
    fn normal_modes_to_cartesian<'a, I>(
        &mut self,
        last_replica: usize,
        group: &AtomGroupInfo<T>,
        replicas_normal_modes: I,
        replica_group_position: &mut [V],
    ) where V: 'a, I: Iterator<Item = &'a [V]> + Clone
        ensures
            old(self).transforms(
                final(self),
                false,
                last_replica,
                group,
                old(replica_group_position)@,
                final(replica_group_position)@,
            ),
    ;

    /// Sets `eigenvalues` to contain the eigenvalues of the normal modes of
    /// this group delegated to the last replica.
    fn eigenvalues(
        &mut self,
        last_replica: usize,
        group: &AtomGroupInfo<T>,
        eigenvalues: &mut [T],
    )
        ensures
            old(self).lists(final(self), last_replica, group, old(eigenvalues)@, final(eigenvalues)@),
    ;
}

/// A transform marked [`InnerIsLeading`] serves the first replica as the
/// inner replica 0: each method leaves behind what the method of the
/// same name leaves behind for that inner replica.
impl<T, V, U> LeadingNormalModesTransform<T, V> for U where
    U: InnerNormalModesTransform<T, V> + InnerIsLeading,
 {
    open spec fn transforms(
        &self,
        after: &Self,
        to_normal_modes: bool,
        group: &AtomGroupInfo<T>,
        out: Seq<V>,
        out_after: Seq<V>,
    ) -> bool {
        InnerNormalModesTransform::transforms(
            self,
            after,
            to_normal_modes,
            0,
            group,
            out,
            out_after,
        )
    }

    open spec fn lists(
        &self,
        after: &Self,
        group: &AtomGroupInfo<T>,
        eigenvalues: Seq<T>,
        eigenvalues_after: Seq<T>,
    ) -> bool {
        InnerNormalModesTransform::lists(self, after, 0, group, eigenvalues, eigenvalues_after)
    }

    fn cartesian_to_normal_modes<'a, I>(
        &mut self,
        group: &AtomGroupInfo<T>,
        replicas_group_positions: I,
        replica_normal_modes: &mut [V],
    ) where V: 'a, I: Iterator<Item = &'a [V]> + Clone {
        InnerNormalModesTransform::cartesian_to_normal_modes(
            self,
            0,
            group,
            replicas_group_positions,
            replica_normal_modes,
        );
    }

    fn normal_modes_to_cartesian<'a, I>(
        &mut self,
        group: &AtomGroupInfo<T>,
        replicas_normal_modes: I,
        replica_group_position: &mut [V],
    ) where V: 'a, I: Iterator<Item = &'a [V]> + Clone {
        InnerNormalModesTransform::normal_modes_to_cartesian(
            self,
            0,
            group,
            replicas_normal_modes,
            replica_group_position,
        );
    }

    fn eigenvalues(
        &mut self,
        group: &AtomGroupInfo<T>,
        eigenvalues: &mut [T],
    ) {
        InnerNormalModesTransform::eigenvalues(self, 0, group, eigenvalues);
    }
}

/// A transform marked [`InnerIsTrailing`] serves the last replica as the
/// inner replica of its index: each method leaves behind what the method of the
/// same name leaves behind for that inner replica.
impl<T, V, U> TrailingNormalModesTransform<T, V> for U where
    U: InnerNormalModesTransform<T, V> + InnerIsTrailing,
 {
    open spec fn transforms(
        &self,
        after: &Self,
        to_normal_modes: bool,
        last_replica: usize,
        group: &AtomGroupInfo<T>,
        out: Seq<V>,
        out_after: Seq<V>,
    ) -> bool {
        InnerNormalModesTransform::transforms(
            self,
            after,
            to_normal_modes,
            last_replica,
            group,
            out,
            out_after,
        )
    }

    open spec fn lists(
        &self,
        after: &Self,
        last_replica: usize,
        group: &AtomGroupInfo<T>,
        eigenvalues: Seq<T>,
        eigenvalues_after: Seq<T>,
    ) -> bool {
        InnerNormalModesTransform::lists(self, after, last_replica, group, eigenvalues, eigenvalues_after)
    }

    fn cartesian_to_normal_modes<'a, I>(
        &mut self,
        last_replica: usize,
        group: &AtomGroupInfo<T>,
        replicas_group_positions: I,
        replica_normal_modes: &mut [V],
    ) where V: 'a, I: Iterator<Item = &'a [V]> + Clone {
        InnerNormalModesTransform::cartesian_to_normal_modes(
            self,
            last_replica,
            group,
            replicas_group_positions,
            replica_normal_modes,
        );
    }

    fn normal_modes_to_cartesian<'a, I>(
        &mut self,
        last_replica: usize,
        group: &AtomGroupInfo<T>,
        replicas_normal_modes: I,
        replica_group_position: &mut [V],
    ) where V: 'a, I: Iterator<Item = &'a [V]> + Clone {
        InnerNormalModesTransform::normal_modes_to_cartesian(
            self,
            last_replica,
            group,
            replicas_normal_modes,
            replica_group_position,
        );
    }

    fn eigenvalues(
        &mut self,
        last_replica: usize,
        group: &AtomGroupInfo<T>,
        eigenvalues: &mut [T],
    ) {
        InnerNormalModesTransform::eigenvalues(self, last_replica, group, eigenvalues);
    }
}

} // verus!
