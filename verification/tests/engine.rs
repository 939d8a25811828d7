use queued_rwlock::RawQueuedRwLock;

#[test]
fn readers_and_writers_take_turns() {
    let lock = RawQueuedRwLock::new();
    assert!(lock.read());
    lock.read_unlock();
    assert!(lock.write(lock.take_ticket()));
    lock.write_unlock();
    assert!(lock.read());
    assert!(lock.read());
    lock.read_unlock();
    lock.read_unlock();
    assert!(lock.write(lock.take_ticket()));
    lock.write_unlock();
}

#[test]
fn try_read_is_refused_while_a_writer_holds() {
    let lock = RawQueuedRwLock::new();
    assert!(lock.write(lock.take_ticket()));
    assert!(!lock.try_read());
    assert!(!lock.try_read());
    lock.write_unlock();
}

#[test]
fn skip_queue_is_refused_while_a_reader_holds() {
    let lock = RawQueuedRwLock::new();
    assert!(lock.read());
    assert!(!lock.try_write_skip_queue());
    lock.read_unlock();
}

#[test]
fn try_read_succeeds_after_the_writer_left() {
    let lock = RawQueuedRwLock::new();
    assert!(lock.write(lock.take_ticket()));
    assert!(!lock.try_read());
    lock.write_unlock();
    assert!(lock.try_read());
    lock.read_unlock();
}

#[test]
fn try_write_succeeds_after_the_reader_left() {
    let lock = RawQueuedRwLock::new();
    assert!(lock.read());
    assert!(!lock.try_write_skip_queue());
    lock.read_unlock();
    assert!(lock.try_write_skip_queue());
    assert!(!lock.try_read());
    lock.write_unlock();
    assert!(lock.try_read());
}

#[test]
fn tickets_are_issued_in_order() {
    let lock = RawQueuedRwLock::new();
    assert_eq!(lock.take_ticket(), 0);
    assert_eq!(lock.take_ticket(), 1);
    assert_eq!(lock.take_ticket(), 2);
    lock.abandon(0);
    lock.abandon(1);
    lock.abandon(2);
    assert_eq!(lock.take_ticket(), 3);
}

#[test]
fn skip_queue_counts_as_a_ticket() {
    let lock = RawQueuedRwLock::new();
    assert!(lock.try_write_skip_queue());
    lock.write_unlock();
    assert_eq!(lock.take_ticket(), 1);
}

#[test]
fn many_readers_share_the_lock() {
    let lock = RawQueuedRwLock::new();
    assert!(lock.read());
    assert!(lock.try_read());
    assert!(lock.read());
    assert!(!lock.try_write_skip_queue());
    lock.read_unlock();
    lock.read_unlock();
    assert!(!lock.try_write_skip_queue());
    lock.read_unlock();
    assert!(lock.try_write_skip_queue());
}

#[test]
fn second_writer_is_refused_while_the_first_holds() {
    let lock = RawQueuedRwLock::new();
    assert!(lock.try_write_skip_queue());
    assert!(!lock.try_write_skip_queue());
    lock.write_unlock();
    assert!(lock.try_write_skip_queue());
}

#[test]
fn queued_writer_does_not_hold_readers_back() {
    let lock = RawQueuedRwLock::new();
    let ticket = lock.take_ticket();
    assert!(lock.try_read());
    assert!(lock.read());
    lock.read_unlock();
    lock.read_unlock();
    assert!(lock.write(ticket));
    assert!(!lock.try_read());
    lock.write_unlock();
}

#[test]
fn skip_queue_is_refused_while_a_ticket_is_unclaimed() {
    let lock = RawQueuedRwLock::new();
    let ticket = lock.take_ticket();
    assert!(!lock.try_write_skip_queue());
    assert!(lock.write(ticket));
    assert!(!lock.try_write_skip_queue());
    lock.write_unlock();
    assert!(lock.try_write_skip_queue());
}

#[test]
fn abandoned_ticket_does_not_stall_the_queue() {
    let lock = RawQueuedRwLock::new();
    let first = lock.take_ticket();
    let second = lock.take_ticket();
    lock.abandon(first);
    // nothing is held after the ticket was given up
    assert!(lock.try_read());
    lock.read_unlock();
    // one ticket is still unclaimed
    assert!(!lock.try_write_skip_queue());
    assert!(lock.write(second));
    lock.write_unlock();
    assert!(lock.try_write_skip_queue());
}

#[test]
fn ticket_is_redeemed_at_once_when_no_writer_holds() {
    let lock = RawQueuedRwLock::new();
    let first = lock.take_ticket();
    let second = lock.take_ticket();
    assert!(lock.write(second));
    assert!(!lock.try_read());
    lock.write_unlock();
    assert!(lock.write(first));
    lock.write_unlock();
    assert!(lock.try_write_skip_queue());
}

#[test]
fn unbalanced_read_unlock_is_ignored() {
    let lock = RawQueuedRwLock::new();
    lock.read_unlock();
    assert!(lock.read());
    assert!(!lock.try_write_skip_queue());
    lock.read_unlock();
    assert!(lock.try_write_skip_queue());
}
