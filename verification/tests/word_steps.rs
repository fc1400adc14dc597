use arc_rw_lock::word::counter;
use arc_rw_lock::word::drop_whole_reader_step;
use arc_rw_lock::word::drop_writer_step;
use arc_rw_lock::word::is_write;
use arc_rw_lock::word::read_whole_step;
use arc_rw_lock::word::write_step;
use arc_rw_lock::word::Release;
use arc_rw_lock::word::Step;
use arc_rw_lock::word::COUNTER_MASK;
use arc_rw_lock::word::COUNTER_MAX;
use arc_rw_lock::word::COUNTER_ONE;
use arc_rw_lock::word::COUNTER_SHIFT;
use arc_rw_lock::word::EMPTY;
use arc_rw_lock::word::WRITE_FLAG;

#[test]
fn constants_describe_one_flag_bit_and_a_31_bit_count() {
    assert_eq!(EMPTY, 0);
    assert_eq!(WRITE_FLAG, 1);
    assert_eq!(COUNTER_ONE, 1 << WRITE_FLAG.trailing_ones());
    assert_eq!(COUNTER_MASK, !0 & !WRITE_FLAG);
    assert_eq!(COUNTER_SHIFT, COUNTER_MASK.trailing_zeros());
    assert_eq!(COUNTER_MAX, COUNTER_MASK >> COUNTER_MASK.trailing_zeros());
    assert_eq!(COUNTER_MAX, 2_147_483_647);
}

#[test]
fn counter_and_flag_read_the_two_parts_of_a_word() {
    assert_eq!(counter(0), 0);
    assert_eq!(counter(3), 1);
    assert_eq!(counter(2), 1);
    assert_eq!(counter(9), 4);
    assert_eq!(counter(u32::MAX), COUNTER_MAX);
    assert!(!is_write(0));
    assert!(is_write(3));
    assert!(!is_write(2));
    assert!(is_write(u32::MAX));
}

#[test]
fn writer_enters_an_idle_lock() {
    assert_eq!(write_step(EMPTY), Step::Swap(3));
}

#[test]
fn writer_joins_writers() {
    assert_eq!(write_step(3), Step::Swap(5));
    assert_eq!(write_step(5), Step::Swap(7));
    assert_eq!(write_step(2001), Step::Swap(2003));
}

#[test]
fn writer_waits_for_readers() {
    assert_eq!(write_step(2), Step::Park);
    assert_eq!(write_step(4), Step::Park);
    assert_eq!(write_step(u32::MAX - 1), Step::Park);
}

#[test]
fn writer_count_does_not_wrap() {
    assert_eq!(write_step(u32::MAX - 2), Step::Swap(u32::MAX));
    assert_eq!(write_step(u32::MAX), Step::Overflow);
}

#[test]
fn reader_enters_an_idle_lock() {
    assert_eq!(read_whole_step(EMPTY), Step::Swap(2));
}

#[test]
fn reader_joins_readers() {
    assert_eq!(read_whole_step(2), Step::Swap(4));
    assert_eq!(read_whole_step(4), Step::Swap(6));
}

#[test]
fn reader_waits_for_writers() {
    assert_eq!(read_whole_step(3), Step::Park);
    assert_eq!(read_whole_step(5), Step::Park);
    assert_eq!(read_whole_step(u32::MAX), Step::Park);
}

#[test]
fn reader_count_does_not_wrap() {
    assert_eq!(read_whole_step(u32::MAX - 3), Step::Swap(u32::MAX - 1));
    assert_eq!(read_whole_step(u32::MAX - 1), Step::Overflow);
}

#[test]
fn a_flag_without_a_count_is_a_writer_mode_with_nobody_inside() {
    assert_eq!(write_step(WRITE_FLAG), Step::Swap(3));
    assert_eq!(read_whole_step(WRITE_FLAG), Step::Park);
    assert_eq!(drop_writer_step(WRITE_FLAG), Release::NotHeld);
    assert_eq!(drop_whole_reader_step(WRITE_FLAG), Release::NotHeld);
}

#[test]
fn last_writer_empties_the_word_and_wakes() {
    assert_eq!(drop_writer_step(3), Release::Swap { new: EMPTY, wake: true });
}

#[test]
fn other_writers_take_one_off_and_do_not_wake() {
    assert_eq!(drop_writer_step(5), Release::Swap { new: 3, wake: false });
    assert_eq!(drop_writer_step(u32::MAX), Release::Swap { new: u32::MAX - 2, wake: false });
}

#[test]
fn writer_release_is_refused_without_writers() {
    assert_eq!(drop_writer_step(EMPTY), Release::NotHeld);
    assert_eq!(drop_writer_step(2), Release::NotHeld);
    assert_eq!(drop_writer_step(6), Release::NotHeld);
}

#[test]
fn last_reader_empties_the_word_and_wakes() {
    assert_eq!(drop_whole_reader_step(2), Release::Swap { new: EMPTY, wake: true });
}

#[test]
fn other_readers_take_one_off_and_do_not_wake() {
    assert_eq!(drop_whole_reader_step(4), Release::Swap { new: 2, wake: false });
    assert_eq!(
        drop_whole_reader_step(u32::MAX - 1),
        Release::Swap { new: u32::MAX - 3, wake: false }
    );
}

#[test]
fn reader_release_is_refused_without_readers() {
    assert_eq!(drop_whole_reader_step(EMPTY), Release::NotHeld);
    assert_eq!(drop_whole_reader_step(3), Release::NotHeld);
    assert_eq!(drop_whole_reader_step(7), Release::NotHeld);
}

#[test]
fn no_word_reached_from_empty_mixes_the_modes() {
    // Walk every word that three operations can reach from the empty word and
    // hold each against the invariant: idle, or exactly one mode with holders.
    let mut frontier = vec![EMPTY];
    let mut seen = vec![EMPTY];
    for _ in 0..6 {
        let mut next = Vec::new();
        for &word in &frontier {
            let mut follow = Vec::new();
            if let Step::Swap(to) = write_step(word) {
                follow.push(to);
            }
            if let Step::Swap(to) = read_whole_step(word) {
                follow.push(to);
            }
            if let Release::Swap { new, .. } = drop_writer_step(word) {
                follow.push(new);
            }
            if let Release::Swap { new, .. } = drop_whole_reader_step(word) {
                follow.push(new);
            }
            for to in follow {
                if !seen.contains(&to) {
                    seen.push(to);
                    next.push(to);
                }
            }
        }
        frontier = next;
    }
    assert_eq!(seen.len(), 13);
    for word in seen {
        assert_ne!(word, WRITE_FLAG);
        if counter(word) == 0 {
            assert_eq!(word, EMPTY);
        } else {
            let writers = if is_write(word) { counter(word) } else { 0 };
            let readers = if is_write(word) { 0 } else { counter(word) };
            assert!((writers > 0) != (readers > 0));
        }
    }
}
