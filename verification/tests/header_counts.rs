use arc_rw_lock::header::count_of;
use arc_rw_lock::header::decrement_empties;
use arc_rw_lock::header::increment_overflows;
use arc_rw_lock::header::unit_of;
use arc_rw_lock::header::Category;
use arc_rw_lock::header::Decrement;
use arc_rw_lock::header::Header;
use arc_rw_lock::header::Increment;
use arc_rw_lock::header::HALF_MAX;
use arc_rw_lock::header::SHARED_MASK;
use arc_rw_lock::header::SHARED_ONE;
use arc_rw_lock::header::UNIQUE_ONE;
use arc_rw_lock::header::UNIQUE_SHIFT;

#[test]
fn the_header_has_two_halves_of_32_bits() {
    assert_eq!(SHARED_ONE, 1);
    assert_eq!(UNIQUE_ONE, 1 << 32);
    assert_eq!(UNIQUE_SHIFT, 32);
    assert_eq!(SHARED_MASK, u32::MAX as u64);
    assert_eq!(HALF_MAX, 4_294_967_295);
    assert_eq!(unit_of(Category::Shared), 1);
    assert_eq!(unit_of(Category::Unique), 4_294_967_296);
}

#[test]
fn each_half_is_counted_apart() {
    let word = 3 * UNIQUE_ONE + 5 * SHARED_ONE;
    assert_eq!(count_of(Category::Shared, word), 5);
    assert_eq!(count_of(Category::Unique, word), 3);
    assert_eq!(count_of(Category::Shared, 0), 0);
    assert_eq!(count_of(Category::Unique, 0), 0);
    assert_eq!(count_of(Category::Shared, u64::MAX), HALF_MAX);
    assert_eq!(count_of(Category::Unique, u64::MAX), HALF_MAX);
}

#[test]
fn an_increment_overflows_only_a_full_half() {
    assert!(!increment_overflows(Category::Shared, 0));
    assert!(!increment_overflows(Category::Shared, HALF_MAX - 1));
    assert!(increment_overflows(Category::Shared, HALF_MAX));
    assert!(increment_overflows(Category::Shared, 7 * UNIQUE_ONE + HALF_MAX));
    assert!(!increment_overflows(Category::Unique, HALF_MAX));
    assert!(!increment_overflows(Category::Unique, (HALF_MAX - 1) * UNIQUE_ONE + 9));
    assert!(increment_overflows(Category::Unique, HALF_MAX * UNIQUE_ONE));
    assert!(increment_overflows(Category::Unique, u64::MAX));
}

#[test]
fn a_decrement_empties_only_from_its_own_unit() {
    assert!(decrement_empties(Category::Shared, SHARED_ONE));
    assert!(!decrement_empties(Category::Shared, 2 * SHARED_ONE));
    assert!(!decrement_empties(Category::Shared, UNIQUE_ONE + SHARED_ONE));
    assert!(!decrement_empties(Category::Shared, UNIQUE_ONE));
    assert!(decrement_empties(Category::Unique, UNIQUE_ONE));
    assert!(!decrement_empties(Category::Unique, 2 * UNIQUE_ONE));
    assert!(!decrement_empties(Category::Unique, UNIQUE_ONE + SHARED_ONE));
    assert!(!decrement_empties(Category::Unique, SHARED_ONE));
}

#[test]
fn a_new_header_counts_its_first_owner() {
    assert_eq!(Header::new(Category::Shared).load(), SHARED_ONE);
    assert_eq!(Header::new(Category::Unique).load(), UNIQUE_ONE);
}

#[test]
fn increments_report_the_word_they_found() {
    let header = Header::new(Category::Unique);
    assert_eq!(
        header.increment_shared_counter(),
        Increment { previous: UNIQUE_ONE, overflowed: false }
    );
    assert_eq!(
        header.increment_shared_counter(),
        Increment { previous: UNIQUE_ONE + 1, overflowed: false }
    );
    assert_eq!(
        header.increment_unique_counter(),
        Increment { previous: UNIQUE_ONE + 2, overflowed: false }
    );
    assert_eq!(
        header.increment(Category::Unique),
        Increment { previous: 2 * UNIQUE_ONE + 2, overflowed: false }
    );
    assert_eq!(header.load(), 3 * UNIQUE_ONE + 2);
}

#[test]
fn the_last_decrement_is_the_only_one_that_empties() {
    let header = Header::new(Category::Unique);
    header.increment_shared_counter();
    header.increment_shared_counter();
    assert_eq!(
        header.decrement_unique_counter(),
        Decrement { previous: UNIQUE_ONE + 2, emptied: false }
    );
    assert_eq!(header.decrement_shared_counter(), Decrement { previous: 2, emptied: false });
    assert_eq!(header.decrement_shared_counter(), Decrement { previous: 1, emptied: true });
    assert_eq!(header.load(), 0);
}

#[test]
fn the_last_handle_may_be_a_unique_one() {
    let header = Header::new(Category::Shared);
    header.increment(Category::Unique);
    assert_eq!(
        header.decrement(Category::Shared),
        Decrement { previous: UNIQUE_ONE + 1, emptied: false }
    );
    assert_eq!(
        header.decrement(Category::Unique),
        Decrement { previous: UNIQUE_ONE, emptied: true }
    );
}

#[test]
fn every_order_of_releases_frees_exactly_once() {
    // Three shared and two unique handles, released in every order.
    let kinds = [
        Category::Shared,
        Category::Shared,
        Category::Shared,
        Category::Unique,
        Category::Unique,
    ];
    let mut order = [0usize, 1, 2, 3, 4];
    let mut orders = 0;
    loop {
        let header = Header::new(Category::Unique);
        header.increment_unique_counter();
        header.increment_shared_counter();
        header.increment_shared_counter();
        header.increment_shared_counter();
        let mut frees = 0;
        for (turn, &which) in order.iter().enumerate() {
            let done = header.decrement(kinds[which]);
            if done.emptied {
                frees += 1;
                assert_eq!(turn, 4);
            }
        }
        assert_eq!(frees, 1);
        assert_eq!(header.load(), 0);
        orders += 1;
        // The next permutation of `order`, or the end.
        let mut i = order.len() - 1;
        while i > 0 && order[i - 1] >= order[i] {
            i -= 1;
        }
        if i == 0 {
            break;
        }
        let mut j = order.len() - 1;
        while order[j] <= order[i - 1] {
            j -= 1;
        }
        order.swap(i - 1, j);
        order[i..].reverse();
    }
    assert_eq!(orders, 120);
}

#[test]
fn an_increment_of_a_full_half_reports_the_overflow() {
    let header = Header::with_word(HALF_MAX);
    assert_eq!(
        header.increment_shared_counter(),
        Increment { previous: HALF_MAX, overflowed: true }
    );
    let header = Header::with_word(HALF_MAX);
    assert_eq!(
        header.increment_unique_counter(),
        Increment { previous: HALF_MAX, overflowed: false }
    );
    let header = Header::with_word(HALF_MAX * UNIQUE_ONE + 1);
    assert_eq!(
        header.increment(Category::Unique),
        Increment { previous: HALF_MAX * UNIQUE_ONE + 1, overflowed: true }
    );
    let header = Header::with_word((HALF_MAX - 1) * UNIQUE_ONE);
    assert_eq!(
        header.increment(Category::Unique),
        Increment { previous: (HALF_MAX - 1) * UNIQUE_ONE, overflowed: false }
    );
    assert_eq!(header.load(), HALF_MAX * UNIQUE_ONE);
}
