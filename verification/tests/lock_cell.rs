use arc_rw_lock::inner::settle;
use arc_rw_lock::inner::Acquire;
use arc_rw_lock::inner::InnerRwLock;
use arc_rw_lock::inner::Lock;
use arc_rw_lock::inner::Pass;
use arc_rw_lock::inner::PoisonLock;
use arc_rw_lock::inner::Released;
use arc_rw_lock::word::Step;

#[test]
fn a_new_lock_is_empty() {
    assert_eq!(Lock::new().load(), 0);
}

#[test]
fn no_pass_means_contended() {
    let lock = Lock::new();
    assert_eq!(lock.write(0), Acquire::Contended);
    assert_eq!(lock.try_write(0), Acquire::Contended);
    assert_eq!(lock.read_whole(0), Acquire::Contended);
    assert_eq!(lock.try_read_whole(0), Acquire::Contended);
    assert_eq!(lock.drop_writer(0), Released::Contended);
    assert_eq!(lock.load(), 0);
}

#[test]
fn writers_stack() {
    let lock = Lock::new();
    assert_eq!(lock.write(usize::MAX), Acquire::Locked { from: 0, to: 3 });
    assert_eq!(lock.write(usize::MAX), Acquire::Locked { from: 3, to: 5 });
    assert_eq!(lock.try_write(usize::MAX), Acquire::Locked { from: 5, to: 7 });
    assert_eq!(lock.load(), 7);
}

#[test]
fn readers_stack() {
    let lock = Lock::new();
    assert_eq!(lock.read_whole(usize::MAX), Acquire::Locked { from: 0, to: 2 });
    assert_eq!(lock.read_whole(usize::MAX), Acquire::Locked { from: 2, to: 4 });
    assert_eq!(lock.try_read_whole(usize::MAX), Acquire::Locked { from: 4, to: 6 });
    assert_eq!(lock.load(), 6);
}

#[test]
fn a_thousand_writers_enter_without_waiting() {
    let lock = Lock::new();
    for n in 0..1000u32 {
        let from = if n == 0 { 0 } else { 2 * n + 1 };
        assert_eq!(lock.try_write(usize::MAX), Acquire::Locked { from, to: 2 * n + 3 });
    }
    assert_eq!(lock.load(), 2001);
}

#[test]
fn a_thousand_readers_enter_without_waiting() {
    let lock = Lock::new();
    for n in 0..1000u32 {
        assert_eq!(lock.try_read_whole(usize::MAX), Acquire::Locked { from: 2 * n, to: 2 * n + 2 });
    }
    assert_eq!(lock.load(), 2000);
}

#[test]
fn try_write_would_block_while_a_reader_is_inside() {
    let lock = Lock::new();
    assert_eq!(lock.read_whole(usize::MAX), Acquire::Locked { from: 0, to: 2 });
    assert_eq!(lock.try_write(usize::MAX), Acquire::WouldBlock { seen: 2 });
    assert_eq!(lock.load(), 2);
    assert_eq!(lock.drop_whole_reader(), Released::Done { from: 2, to: 0, woke: true });
    assert_eq!(lock.try_write(usize::MAX), Acquire::Locked { from: 0, to: 3 });
}

#[test]
fn try_read_whole_would_block_while_a_writer_is_inside() {
    let lock = Lock::new();
    assert_eq!(lock.write(usize::MAX), Acquire::Locked { from: 0, to: 3 });
    assert_eq!(lock.try_read_whole(usize::MAX), Acquire::WouldBlock { seen: 3 });
    assert_eq!(lock.load(), 3);
    assert_eq!(lock.drop_writer(usize::MAX), Released::Done { from: 3, to: 0, woke: true });
    assert_eq!(lock.try_read_whole(usize::MAX), Acquire::Locked { from: 0, to: 2 });
}

#[test]
fn only_the_last_writer_wakes() {
    let lock = Lock::new();
    lock.write(usize::MAX);
    lock.write(usize::MAX);
    lock.write(usize::MAX);
    assert_eq!(lock.drop_writer(usize::MAX), Released::Done { from: 7, to: 5, woke: false });
    assert_eq!(lock.drop_writer(usize::MAX), Released::Done { from: 5, to: 3, woke: false });
    assert_eq!(lock.drop_writer(usize::MAX), Released::Done { from: 3, to: 0, woke: true });
    assert_eq!(lock.load(), 0);
}

#[test]
fn only_the_last_reader_wakes() {
    let lock = Lock::new();
    lock.read_whole(usize::MAX);
    lock.read_whole(usize::MAX);
    assert_eq!(lock.drop_whole_reader(), Released::Done { from: 4, to: 2, woke: false });
    assert_eq!(lock.drop_whole_reader(), Released::Done { from: 2, to: 0, woke: true });
    assert_eq!(lock.load(), 0);
}

#[test]
fn a_writer_release_without_a_writer_is_reported_and_changes_nothing() {
    let lock = Lock::new();
    assert_eq!(lock.drop_writer(usize::MAX), Released::NotHeld { seen: 0 });
    assert_eq!(lock.load(), 0);
    lock.read_whole(usize::MAX);
    assert_eq!(lock.drop_writer(usize::MAX), Released::NotHeld { seen: 2 });
    assert_eq!(lock.load(), 2);
}

#[test]
fn a_reader_release_without_a_reader_is_reported() {
    let lock = Lock::new();
    lock.write(usize::MAX);
    assert_eq!(lock.drop_whole_reader(), Released::NotHeld { seen: 3 });
}

#[test]
fn settle_follows_the_plan_and_the_swap() {
    assert_eq!(
        settle(0, Step::Swap(3), Ok(0), true),
        Pass::Finish(Acquire::Locked { from: 0, to: 3 })
    );
    assert_eq!(settle(0, Step::Swap(3), Err(2), true), Pass::Retry(2));
    assert_eq!(settle(0, Step::Swap(3), Err(0), false), Pass::Retry(0));
    assert_eq!(
        settle(u32::MAX, Step::Overflow, Err(u32::MAX), true),
        Pass::Finish(Acquire::Overflow { seen: u32::MAX })
    );
    assert_eq!(settle(2, Step::Park, Err(2), true), Pass::Sleep);
    assert_eq!(
        settle(2, Step::Park, Err(2), false),
        Pass::Finish(Acquire::WouldBlock { seen: 2 })
    );
}

#[test]
fn poison_is_set_and_removed_by_hand() {
    let lock = PoisonLock::new();
    assert!(!lock.is_poisoned());
    lock.poison();
    assert!(lock.is_poisoned());
    lock.poison();
    assert!(lock.is_poisoned());
    lock.remove_poison();
    assert!(!lock.is_poisoned());
    assert_eq!(lock.word().load(), 0);
}

#[test]
fn poison_does_not_touch_the_word() {
    let lock = PoisonLock::new();
    lock.word().write(usize::MAX);
    lock.poison();
    assert_eq!(lock.word().load(), 3);
    assert_eq!(lock.word().try_write(usize::MAX), Acquire::Locked { from: 3, to: 5 });
}

#[test]
fn an_inner_lock_remembers_the_length_of_its_payload() {
    let inner = InnerRwLock::new(9);
    assert_eq!(inner.len, 9);
    assert!(!inner.lock.is_poisoned());
    assert_eq!(inner.lock.word().load(), 0);
}

#[test]
fn a_full_writer_count_is_an_overflow() {
    let lock = Lock::with_word(u32::MAX - 2);
    assert_eq!(lock.write(1), Acquire::Locked { from: u32::MAX - 2, to: u32::MAX });
    assert_eq!(lock.write(usize::MAX), Acquire::Overflow { seen: u32::MAX });
    assert_eq!(lock.try_write(usize::MAX), Acquire::Overflow { seen: u32::MAX });
    assert_eq!(lock.try_read_whole(usize::MAX), Acquire::WouldBlock { seen: u32::MAX });
    assert_eq!(lock.load(), u32::MAX);
    assert_eq!(
        lock.drop_writer(usize::MAX),
        Released::Done { from: u32::MAX, to: u32::MAX - 2, woke: false }
    );
}

#[test]
fn a_full_reader_count_is_an_overflow() {
    let lock = Lock::with_word(u32::MAX - 3);
    assert_eq!(lock.read_whole(1), Acquire::Locked { from: u32::MAX - 3, to: u32::MAX - 1 });
    assert_eq!(lock.read_whole(usize::MAX), Acquire::Overflow { seen: u32::MAX - 1 });
    assert_eq!(lock.try_read_whole(usize::MAX), Acquire::Overflow { seen: u32::MAX - 1 });
    assert_eq!(lock.try_write(usize::MAX), Acquire::WouldBlock { seen: u32::MAX - 1 });
    assert_eq!(lock.load(), u32::MAX - 1);
    assert_eq!(
        lock.drop_whole_reader(),
        Released::Done { from: u32::MAX - 1, to: u32::MAX - 3, woke: false }
    );
}

#[test]
fn a_lock_can_be_made_with_poison() {
    let lock = PoisonLock::with_lock(Lock::with_word(5), true);
    assert!(lock.is_poisoned());
    assert_eq!(lock.word().load(), 5);
    assert!(!PoisonLock::with_lock(Lock::new(), false).is_poisoned());
}
