//! Regions: the part of a payload that a handle may touch, as a run of
//! element indices.

use vstd::prelude::*;

verus! {

/// A run of `len` consecutive elements of a payload, the first at index
/// `start`.
#[derive(Clone, Copy, Debug, PartialEq, Eq, Structural)]
pub struct Region {
    pub start: usize,
    pub len: usize,
}

impl View for Region {
    type V = Set<int>;

    /// The indices of the elements in the region.
    open spec fn view(&self) -> Set<int> {
        Set::new(|i: int| self.start <= i < self.start + self.len)
    }
}

impl Region {
    /// The end of the region fits in a `usize`.
    pub open spec fn wf(self) -> bool {
        self.start + self.len <= usize::MAX
    }

    /// Two regions that share no element.
    pub open spec fn disjoint(self, other: Region) -> bool {
        self@.disjoint(other@)
    }

    /// The region of a whole payload of `len` elements.
    pub open spec fn spec_whole(len: usize) -> Region {
        Region { start: 0, len }
    }

    /// The region of a whole payload of `len` elements.
    #[verifier::when_used_as_spec(spec_whole)]
    pub fn whole(len: usize) -> (region: Region)
        ensures
            region == Region::spec_whole(len),
            region.wf(),
            region@ == Set::new(|i: int| 0 <= i < len),
    {
        let region = Region { start: 0, len };
        assert(region@ =~= Set::new(|i: int| 0 <= i < len));
        region
    }

    /// Whether the region holds no element.
    pub fn is_empty(&self) -> (empty: bool)
        ensures
            empty == (self.len == 0),
            empty == (self@ =~= Set::<int>::empty()),
    {
        proof {
            if self.len > 0 {
                assert(self@.contains(self.start as int));
            }
        }
        self.len == 0
    }

    /// Whether the element at `index` lies in the region.
    pub fn contains(&self, index: usize) -> (inside: bool)
        ensures
            inside == self@.contains(index as int),
    {
        index >= self.start && index - self.start < self.len
    }

    /// Whether every element of the region lies in `outer`.
    pub fn within(&self, outer: &Region) -> (inside: bool)
        ensures
            inside == self@.subset_of(outer@),
    {
        let inside: bool = self.len == 0 || (self.start >= outer.start && self.start - outer.start
            <= outer.len && self.len <= outer.len - (self.start - outer.start));
        proof {
            if self.len > 0 {
                if self@.subset_of(outer@) {
                    assert(self@.contains(self.start as int));
                    assert(self@.contains(self.start + self.len - 1));
                    assert(outer@.contains(self.start as int));
                    assert(outer@.contains(self.start + self.len - 1));
                }
            }
        }
        inside
    }

    /// Whether the element at which the region starts comes before the end
    /// of `other`.
    fn starts_before_end_of(&self, other: &Region) -> (before: bool)
        ensures
            before == (self.start < other.start + other.len),
    {
        self.start < other.start || self.start - other.start < other.len
    }

    /// Whether the two regions share an element.
    pub fn overlaps(&self, other: &Region) -> (shared: bool)
        ensures
            shared == !self.disjoint(*other),
    {
        let shared: bool = self.len > 0 && other.len > 0 && self.starts_before_end_of(other)
            && other.starts_before_end_of(self);
        proof {
            if shared {
                let common: int = if self.start >= other.start {
                    self.start as int
                } else {
                    other.start as int
                };
                assert(self@.contains(common) && other@.contains(common));
            }
        }
        shared
    }

    /// Takes the first element off the region: the element and what is left,
    /// or nothing where the region is empty.
    pub fn split_first(&self) -> (parts: Option<(Region, Region)>)
        requires
            self.wf(),
        ensures
            parts == self.peel(true),
    {
        if self.len > 0 {
            Some(
                (
                    Region { start: self.start, len: 1 },
                    Region { start: self.start + 1, len: self.len - 1 },
                ),
            )
        } else {
            None
        }
    }

    /// Takes the last element off the region: the element and what is left,
    /// or nothing where the region is empty.
    pub fn split_last(&self) -> (parts: Option<(Region, Region)>)
        requires
            self.wf(),
        ensures
            parts == self.peel(false),
    {
        if self.len > 0 {
            Some(
                (
                    Region { start: self.start + (self.len - 1), len: 1 },
                    Region { start: self.start, len: self.len - 1 },
                ),
            )
        } else {
            None
        }
    }

    /// The element at one end of the region, `front` or back, and the region
    /// without it.
    pub open spec fn peel(self, front: bool) -> Option<(Region, Region)> {
        if self.len == 0 {
            None
        } else if front {
            Some(
                (
                    Region { start: self.start, len: 1 },
                    Region { start: (self.start + 1) as usize, len: (self.len - 1) as usize },
                ),
            )
        } else {
            Some(
                (
                    Region { start: (self.start + self.len - 1) as usize, len: 1 },
                    Region { start: self.start, len: (self.len - 1) as usize },
                ),
            )
        }
    }

    /// What is left of the region after taking one element at the end that
    /// each entry of `ends` names, front or back, until the entries or the
    /// elements run out.
    pub open spec fn rest_after(self, ends: Seq<bool>) -> Region
        decreases ends.len(),
    {
        if ends.len() == 0 {
            self
        } else {
            match self.rest_after(ends.drop_last()).peel(ends.last()) {
                Some((_, rest)) => rest,
                None => self.rest_after(ends.drop_last()),
            }
        }
    }

    /// The elements taken off the region by `ends`, in the order taken.
    pub open spec fn taken_by(self, ends: Seq<bool>) -> Seq<Region>
        decreases ends.len(),
    {
        if ends.len() == 0 {
            Seq::empty()
        } else {
            match self.rest_after(ends.drop_last()).peel(ends.last()) {
                Some((element, _)) => self.taken_by(ends.drop_last()).push(element),
                None => self.taken_by(ends.drop_last()),
            }
        }
    }
}

/// The elements that some region of a sequence holds.
pub open spec fn union_of(regions: Seq<Region>) -> Set<int> {
    Set::new(|i: int| exists|k: int| 0 <= k < regions.len() && #[trigger] regions[k]@.contains(i))
}

/// Taking an element off a region splits it in two: a single element and a
/// rest that does not hold it, which together make up the region.
pub proof fn lemma_peel(region: Region, front: bool)
    requires
        region.wf(),
        region.len > 0,
    ensures
        region.peel(front) matches Some((element, rest)) && {
            &&& element.wf()
            &&& rest.wf()
            &&& element.len == 1
            &&& rest.len == region.len - 1
            &&& element.disjoint(rest)
            &&& element@.union(rest@) =~= region@
        },
{
}

/// Partition disjointness. Take elements off the front or the back of a
/// region, in any order. Each piece taken is a single element of the region;
/// no two pieces overlap, and none overlaps what is left; the pieces and what
/// is left together are the region. Once as many pieces are taken as the
/// region has elements, nothing is left and the pieces alone are the region.
pub proof fn lemma_partition(region: Region, ends: Seq<bool>)
    requires
        region.wf(),
    ensures
        region.rest_after(ends).wf(),
        region.taken_by(ends).len() + region.rest_after(ends).len == region.len,
        region.taken_by(ends).len() <= ends.len(),
        ends.len() <= region.len ==> region.taken_by(ends).len() == ends.len(),
        forall|k: int|
            0 <= k < region.taken_by(ends).len() ==> (#[trigger] region.taken_by(ends)[k]).len
                == 1 && region.taken_by(ends)[k]@.subset_of(region@),
        forall|j: int, k: int|
            0 <= j < k < region.taken_by(ends).len() ==> (#[trigger] region.taken_by(
                ends,
            )[j]).disjoint(#[trigger] region.taken_by(ends)[k]),
        forall|k: int|
            0 <= k < region.taken_by(ends).len() ==> (#[trigger] region.taken_by(
                ends,
            )[k]).disjoint(region.rest_after(ends)),
        union_of(region.taken_by(ends)).union(region.rest_after(ends)@) =~= region@,
        ends.len() >= region.len ==> union_of(region.taken_by(ends)) =~= region@,
    decreases ends.len(),
{
    if ends.len() == 0 {
        assert(union_of(region.taken_by(ends)) =~= Set::<int>::empty());
    } else {
        let before = ends.drop_last();
        lemma_partition(region, before);
        let rest = region.rest_after(before);
        let taken = region.taken_by(before);
        if rest.len > 0 {
            lemma_peel(rest, ends.last());
            let (element, left) = rest.peel(ends.last()).unwrap();
            let now = region.taken_by(ends);
            assert(now == taken.push(element));
            assert(element@.subset_of(rest@));
            assert(left@.subset_of(rest@));
            assert forall|k: int| 0 <= k < now.len() implies (#[trigger] now[k]).len == 1
                && now[k]@.subset_of(region@) by {
                if k < taken.len() {
                    assert(now[k] == taken[k]);
                }
            }
            assert forall|j: int, k: int| 0 <= j < k < now.len() implies (#[trigger] now[j]).disjoint(
                #[trigger] now[k],
            ) by {
                assert(now[j] == taken[j]);
                if k < taken.len() {
                    assert(now[k] == taken[k]);
                } else {
                    assert(taken[j].disjoint(rest));
                }
            }
            assert forall|k: int| 0 <= k < now.len() implies (#[trigger] now[k]).disjoint(left) by {
                if k < taken.len() {
                    assert(now[k] == taken[k]);
                    assert(taken[k].disjoint(rest));
                }
            }
            assert forall|i: int|
                union_of(now).union(left@).contains(i) <==> region@.contains(i) by {
                if union_of(now).contains(i) {
                    let k = choose|k: int| 0 <= k < now.len() && #[trigger] now[k]@.contains(i);
                    if k < taken.len() {
                        assert(now[k] == taken[k]);
                        assert(union_of(taken).contains(i));
                    }
                }
                if region@.contains(i) {
                    assert(union_of(taken).union(rest@).contains(i));
                    if union_of(taken).contains(i) {
                        let k = choose|k: int|
                            0 <= k < taken.len() && #[trigger] taken[k]@.contains(i);
                        assert(now[k] == taken[k]);
                        assert(now[k]@.contains(i));
                    } else {
                        assert(element@.union(left@).contains(i));
                        if element@.contains(i) {
                            assert(now[taken.len() as int] == element);
                            assert(now[taken.len() as int]@.contains(i));
                        }
                    }
                }
            }
        }
    }
    if region.rest_after(ends).len == 0 {
        assert(region.rest_after(ends)@ =~= Set::<int>::empty());
    }
}

/// Partition disjointness, for a region taken apart front to back. The
/// pieces of a region, one for each of its elements in order, do not overlap
/// pairwise, and together they are the region.
pub proof fn lemma_elements_partition(region: Region, elements: Seq<Region>)
    requires
        region.wf(),
        elements.len() == region.len,
        forall|i: int|
            0 <= i < elements.len() ==> #[trigger] elements[i] == (Region {
                start: (region.start + i) as usize,
                len: 1,
            }),
    ensures
        forall|i: int, j: int|
            0 <= i < j < elements.len() ==> (#[trigger] elements[i]).disjoint(#[trigger] elements[j]),
        forall|i: int| 0 <= i < elements.len() ==> (#[trigger] elements[i])@.subset_of(region@),
        union_of(elements) =~= region@,
{
    assert forall|x: int| region@.contains(x) implies union_of(elements).contains(x) by {
        let k = x - region.start;
        assert(elements[k]@.contains(x));
    }
}

} // verus!
