use arc_rw_lock::region::Region;

#[test]
fn the_whole_region_starts_at_zero() {
    assert_eq!(Region::whole(4), Region { start: 0, len: 4 });
    assert_eq!(Region::whole(0), Region { start: 0, len: 0 });
}

#[test]
fn only_a_region_without_elements_is_empty() {
    assert!(Region::whole(0).is_empty());
    assert!(Region { start: 7, len: 0 }.is_empty());
    assert!(!Region { start: 7, len: 1 }.is_empty());
}

#[test]
fn a_region_contains_its_indices_and_no_others() {
    let region = Region { start: 3, len: 2 };
    assert!(!region.contains(2));
    assert!(region.contains(3));
    assert!(region.contains(4));
    assert!(!region.contains(5));
    assert!(!Region { start: 3, len: 0 }.contains(3));
    assert!(Region { start: usize::MAX, len: 1 }.contains(usize::MAX));
}

#[test]
fn within_is_set_inclusion() {
    let outer = Region { start: 2, len: 4 };
    assert!(Region { start: 2, len: 4 }.within(&outer));
    assert!(Region { start: 3, len: 2 }.within(&outer));
    assert!(Region { start: 5, len: 1 }.within(&outer));
    assert!(!Region { start: 5, len: 2 }.within(&outer));
    assert!(!Region { start: 1, len: 2 }.within(&outer));
    assert!(Region { start: 100, len: 0 }.within(&outer));
    assert!(!outer.within(&Region { start: 100, len: 0 }));
}

#[test]
fn overlaps_is_a_shared_element() {
    let a = Region { start: 2, len: 3 };
    assert!(a.overlaps(&Region { start: 4, len: 1 }));
    assert!(a.overlaps(&Region { start: 0, len: 3 }));
    assert!(a.overlaps(&a));
    assert!(!a.overlaps(&Region { start: 5, len: 3 }));
    assert!(!a.overlaps(&Region { start: 0, len: 2 }));
    assert!(!a.overlaps(&Region { start: 3, len: 0 }));
    assert!(!Region { start: 3, len: 0 }.overlaps(&a));
    let far = Region { start: usize::MAX - 1, len: usize::MAX };
    assert!(far.overlaps(&Region { start: usize::MAX, len: 1 }));
    assert!(!far.overlaps(&a));
    assert!(Region { start: usize::MAX, len: 1 }.within(&far));
    assert!(!far.within(&Region { start: usize::MAX, len: 1 }));
    assert!(!far.within(&Region { start: 0, len: usize::MAX }));
}

#[test]
fn split_first_takes_the_front_element() {
    assert_eq!(
        Region { start: 3, len: 4 }.split_first(),
        Some((Region { start: 3, len: 1 }, Region { start: 4, len: 3 }))
    );
    assert_eq!(
        Region { start: 3, len: 1 }.split_first(),
        Some((Region { start: 3, len: 1 }, Region { start: 4, len: 0 }))
    );
    assert_eq!(Region { start: 3, len: 0 }.split_first(), None);
}

#[test]
fn split_last_takes_the_back_element() {
    assert_eq!(
        Region { start: 3, len: 4 }.split_last(),
        Some((Region { start: 6, len: 1 }, Region { start: 3, len: 3 }))
    );
    assert_eq!(
        Region { start: 3, len: 1 }.split_last(),
        Some((Region { start: 3, len: 1 }, Region { start: 3, len: 0 }))
    );
    assert_eq!(Region { start: 3, len: 0 }.split_last(), None);
}

#[test]
fn peeling_from_both_ends_partitions_the_region() {
    let whole = Region { start: 10, len: 7 };
    let ends = [true, false, false, true, true, false, true, true, false];
    let mut rest = whole;
    let mut taken = Vec::new();
    for front in ends {
        let parts = if front { rest.split_first() } else { rest.split_last() };
        if let Some((element, left)) = parts {
            taken.push(element);
            rest = left;
        }
    }
    assert_eq!(taken.len(), 7);
    assert!(rest.is_empty());
    let starts: Vec<usize> = taken.iter().map(|region| region.start).collect();
    assert_eq!(starts, vec![10, 16, 15, 11, 12, 14, 13]);
    for (i, a) in taken.iter().enumerate() {
        assert_eq!(a.len, 1);
        assert!(a.within(&whole));
        for b in &taken[i + 1..] {
            assert!(!a.overlaps(b));
        }
    }
    for index in 10..17 {
        assert_eq!(taken.iter().filter(|region| region.contains(index)).count(), 1);
    }
}
