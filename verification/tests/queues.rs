use axdevice::{
    DeviceEvent, DeviceId, PendingNotification, PollFlags, TransactionalNotificationQueue,
};

#[test]
fn test_pending_notification_ordering() {
    let n1 = PendingNotification::new(32, 100, DeviceId(1), 1000);
    let n2 = PendingNotification::new(33, 200, DeviceId(2), 1001);
    let n3 = PendingNotification::new(34, 100, DeviceId(3), 999);

    // Higher priority should come first
    assert!(n2 > n1);
    assert!(n2 > n3);

    // Same priority: earlier timestamp comes first
    assert!(n3 > n1);
}

#[test]
fn test_pending_notification_with_event() {
    let n = PendingNotification::with_event(32, 100, DeviceId(1), 1000, DeviceEvent::DataReady);
    assert_eq!(n.event, DeviceEvent::DataReady);
}

#[test]
fn test_transactional_queue_confirm() {
    let mut queue = TransactionalNotificationQueue::new();

    let n = PendingNotification::new(32, 100, DeviceId(1), 1000);

    // Push as pending
    let entry_id = queue.push_pending(n);
    assert_eq!(queue.len(), 0); // Not in confirmed yet
    assert_eq!(queue.pending_count(), 1);

    // Confirm
    queue.confirm(entry_id);
    assert_eq!(queue.len(), 1); // Now in confirmed
    assert_eq!(queue.pending_count(), 0);

    // Pop
    let popped = queue.pop().unwrap();
    assert_eq!(popped.irq, 32);
}

#[test]
fn test_transactional_queue_rollback() {
    let mut queue = TransactionalNotificationQueue::new();

    let n = PendingNotification::new(32, 100, DeviceId(1), 1000);

    // Push as pending
    let entry_id = queue.push_pending(n);
    assert_eq!(queue.pending_count(), 1);

    // Rollback
    queue.rollback(entry_id);
    assert_eq!(queue.pending_count(), 0);
    assert_eq!(queue.len(), 0); // Nothing in confirmed either
}

#[test]
fn test_transactional_queue_priority() {
    let mut queue = TransactionalNotificationQueue::new();

    // Add notifications with different priorities
    queue.push(PendingNotification::new(32, 100, DeviceId(1), 1000));
    queue.push(PendingNotification::new(33, 200, DeviceId(2), 1001));
    queue.push(PendingNotification::new(34, 50, DeviceId(3), 999));

    // Should pop in priority order (highest first)
    assert_eq!(queue.pop().unwrap().irq, 33); // priority 200
    assert_eq!(queue.pop().unwrap().irq, 32); // priority 100
    assert_eq!(queue.pop().unwrap().irq, 34); // priority 50
}

#[test]
fn test_transactional_queue_pop_order_ties() {
    // Equal priority pops in non-decreasing timestamp order.
    let mut queue = TransactionalNotificationQueue::new();
    queue.push(PendingNotification::new(10, 7, DeviceId(1), 30));
    queue.push(PendingNotification::new(11, 7, DeviceId(2), 10));
    queue.push(PendingNotification::new(12, 7, DeviceId(3), 20));

    assert_eq!(queue.pop().unwrap().timestamp, 10);
    assert_eq!(queue.pop().unwrap().timestamp, 20);
    assert_eq!(queue.pop().unwrap().timestamp, 30);
    assert!(queue.pop().is_none());
}

#[test]
fn test_transactional_queue_settles_once() {
    // An entry is settled at most once: a second confirm or rollback of the
    // same id changes nothing.
    let mut queue = TransactionalNotificationQueue::new();
    let n = PendingNotification::new(32, 100, DeviceId(1), 1000);
    let entry_id = queue.push_pending(n);

    queue.confirm(entry_id);
    assert_eq!(queue.len(), 1);
    queue.confirm(entry_id);
    assert_eq!(queue.len(), 1);
    queue.rollback(entry_id);
    assert_eq!(queue.len(), 1);
    assert_eq!(queue.pending_count(), 0);
}

#[test]
fn test_transactional_queue_clear_all() {
    let mut queue = TransactionalNotificationQueue::new();
    queue.push(PendingNotification::new(1, 1, DeviceId(1), 1));
    let _ = queue.push_pending(PendingNotification::new(2, 2, DeviceId(2), 2));
    assert_eq!(queue.len(), 1);
    assert_eq!(queue.pending_count(), 1);

    queue.clear_all();
    assert_eq!(queue.len(), 0);
    assert_eq!(queue.pending_count(), 0);
    assert!(queue.is_empty());
}

#[test]
fn test_queue_peek_matches_pop() {
    let mut queue = TransactionalNotificationQueue::new();
    queue.push(PendingNotification::new(5, 9, DeviceId(4), 100));
    queue.push(PendingNotification::new(6, 3, DeviceId(5), 50));

    let peeked = queue.peek().unwrap();
    let popped = queue.pop().unwrap();
    assert_eq!(peeked, popped);
    assert_eq!(popped.irq, 5);
}

#[test]
fn test_poll_flags_basic() {
    let mut poll = PollFlags::new();
    let device_id = DeviceId(1);

    // Register device
    poll.register(device_id);
    assert!(poll.contains(device_id));
    assert_eq!(poll.peek(device_id), 0);

    // Set flags
    poll.set(device_id, 0b0001);
    assert_eq!(poll.peek(device_id), 0b0001);

    // Set more flags (OR)
    poll.set(device_id, 0b0010);
    assert_eq!(poll.peek(device_id), 0b0011);

    // Check and clear
    let flags = poll.check_and_clear(device_id);
    assert_eq!(flags, 0b0011);
    assert_eq!(poll.peek(device_id), 0);

    // Unregister
    poll.unregister(device_id);
    assert!(!poll.contains(device_id));
}

#[test]
fn test_poll_flags_multiple_devices() {
    let mut poll = PollFlags::new();
    let device1 = DeviceId(1);
    let device2 = DeviceId(2);

    poll.register(device1);
    poll.register(device2);

    poll.set(device1, 0b0001);
    poll.set(device2, 0b0010);

    assert_eq!(poll.peek(device1), 0b0001);
    assert_eq!(poll.peek(device2), 0b0010);

    // Get all pending
    let pending = poll.get_all_pending();
    assert_eq!(pending.len(), 2);
}

#[test]
fn test_poll_flags_unregistered() {
    let mut poll = PollFlags::new();
    let device_id = DeviceId(999);

    // Operations on unregistered device should be safe
    assert_eq!(poll.peek(device_id), 0);
    assert_eq!(poll.check_and_clear(device_id), 0);
    poll.set(device_id, 0xFFFF);
    assert_eq!(poll.peek(device_id), 0); // Not registered, so no effect
}

#[test]
fn test_poll_flags_or_accumulation() {
    // set(m1), ..., set(mk) then check_and_clear returns m1 | ... | mk and
    // a later peek reports zero.
    let mut poll = PollFlags::new();
    let id = DeviceId(7);
    poll.register(id);

    let masks = [0x1u32, 0x8, 0x2, 0x8, 0x20];
    for m in masks {
        poll.set(id, m);
    }
    let expected = masks.iter().fold(0u32, |acc, m| acc | m);
    assert_eq!(poll.check_and_clear(id), expected);
    assert_eq!(poll.peek(id), 0);
}
