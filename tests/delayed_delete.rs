use reflector::DelayedDelete;

#[test]
fn drains_due_entries_in_order() {
    let mut queue: DelayedDelete<&str> = DelayedDelete::new(10);
    assert_eq!(queue.next_deadline(), None);
    queue.schedule_delete("a", 0);
    queue.schedule_delete("b", 0);
    queue.schedule_delete("c", 5);
    assert_eq!(queue.next_deadline(), Some(10));
    assert!(queue.perform(9).is_empty());
    assert_eq!(queue.perform(10), vec!["a", "b"]);
    assert_eq!(queue.next_deadline(), Some(15));
    assert_eq!(queue.perform(100), vec!["c"]);
    assert_eq!(queue.next_deadline(), None);
}

#[test]
fn clear_drops_everything() {
    let mut queue: DelayedDelete<u32> = DelayedDelete::new(1);
    queue.schedule_delete(1, 0);
    queue.schedule_delete(2, 3);
    queue.clear();
    assert_eq!(queue.next_deadline(), None);
    assert!(queue.perform(u64::MAX).is_empty());
}

#[test]
fn deadline_saturates_at_clock_end() {
    let mut queue: DelayedDelete<u32> = DelayedDelete::new(10);
    queue.schedule_delete(1, u64::MAX - 3);
    assert_eq!(queue.next_deadline(), Some(u64::MAX));
    assert!(queue.perform(u64::MAX - 1).is_empty());
    assert_eq!(queue.perform(u64::MAX), vec![1]);
}

#[test]
fn zero_delay_is_due_at_once() {
    let mut queue: DelayedDelete<u32> = DelayedDelete::new(0);
    queue.schedule_delete(7, 42);
    assert_eq!(queue.perform(42), vec![7]);
}
