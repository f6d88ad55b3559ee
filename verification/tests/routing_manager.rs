use axdevice::{
    CpuAffinity, DeviceError, DeviceEvent, DeviceId, DeviceNotificationManager,
    DeviceNotifierImpl, InterruptConfig, IrqType, NotificationConfig, NotifyMethod, RoutingTable,
    TriggerMode,
};

fn create_test_interrupt_config(irq: u32, cpu: usize) -> InterruptConfig {
    InterruptConfig {
        primary_irq: irq,
        additional_irqs: vec![],
        trigger_mode: TriggerMode::Level,
        cpu_affinity: CpuAffinity::Fixed(cpu),
        priority: 100,
    }
}

fn create_test_notification_config(irq: u32, cpu: usize) -> NotificationConfig {
    NotificationConfig::interrupt(irq)
        .with_cpu_affinity(CpuAffinity::Fixed(cpu))
        .with_priority(100)
}

#[test]
fn test_routing_table_notification_config() {
    let mut table = RoutingTable::new();
    assert!(table.is_empty());

    let device_id = DeviceId(1);
    let config = create_test_notification_config(32, 0);

    // Register device
    table.register_notification(device_id, config).unwrap();
    assert_eq!(table.len(), 1);
    assert!(table.contains(device_id));

    // Get config
    let retrieved = table.get(device_id).unwrap();
    assert_eq!(retrieved.primary_irq, Some(32));
    assert_eq!(retrieved.method, NotifyMethod::Interrupt);

    // Unregister device
    table.unregister(device_id).unwrap();
    assert!(table.is_empty());
}

#[test]
fn test_routing_table_legacy_interrupt_config() {
    let mut table = RoutingTable::new();
    let device_id = DeviceId(1);
    let config = create_test_interrupt_config(32, 0);

    // Register using legacy API
    table.register(device_id, config).unwrap();

    // Get using new API
    let retrieved = table.get(device_id).unwrap();
    assert_eq!(retrieved.primary_irq, Some(32));
    assert_eq!(retrieved.method, NotifyMethod::Interrupt);

    // Get using legacy API
    let legacy = table.get_interrupt_config(device_id).unwrap();
    assert_eq!(legacy.primary_irq, 32);
}

#[test]
fn test_routing_table_poll_config() {
    let mut table = RoutingTable::new();
    let device_id = DeviceId(1);
    let config = NotificationConfig::poll();

    // Register poll-based device
    table.register_notification(device_id, config).unwrap();

    // Get config
    let retrieved = table.get(device_id).unwrap();
    assert_eq!(retrieved.method, NotifyMethod::Poll);
    assert_eq!(retrieved.primary_irq, None);

    // Legacy API should return None for poll-based devices
    assert!(table.get_interrupt_config(device_id).is_none());
}

#[test]
fn test_routing_table_duplicate_register() {
    let mut table = RoutingTable::new();
    let device_id = DeviceId(1);
    let config = create_test_notification_config(32, 0);

    table.register_notification(device_id, config.clone()).unwrap();
    let result = table.register_notification(device_id, config);
    assert!(result.is_err());
    assert_eq!(result, Err(DeviceError::AlreadyExists));
}

#[test]
fn test_routing_table_unregister_not_found() {
    let mut table = RoutingTable::new();
    let device_id = DeviceId(999);

    let result = table.unregister(device_id);
    assert!(result.is_err());
    assert_eq!(result, Err(DeviceError::NotFound));
}

#[test]
fn test_notification_manager_basic() {
    let mut manager = DeviceNotificationManager::new(2);
    let device_id = DeviceId(1);
    let config = create_test_notification_config(32, 0);

    // Register device
    manager.register_notification(device_id, config).unwrap();
    assert_eq!(manager.registered_device_count(), 1);

    // Inject notification
    manager.inject(device_id, DeviceEvent::DataReady).unwrap();
    assert_eq!(manager.pending_count(0), 1);

    // Pop notification
    let pending = manager.pop_pending(0).unwrap();
    assert_eq!(pending.irq, 32);
    assert_eq!(pending.device_id, device_id);
    assert_eq!(pending.event, DeviceEvent::DataReady);
    assert_eq!(manager.pending_count(0), 0);
}

#[test]
fn test_notification_manager_poll() {
    let mut manager = DeviceNotificationManager::new(1);
    let device_id = DeviceId(1);
    let config = NotificationConfig::poll();

    // Register device
    manager.register_notification(device_id, config).unwrap();

    // Inject poll notification
    manager.inject(device_id, DeviceEvent::DataReady).unwrap();
    manager.inject(device_id, DeviceEvent::SpaceAvailable).unwrap();

    // Check poll flags
    let flags = manager.check_poll(device_id);
    assert!(DeviceEvent::DataReady.is_set_in(flags));
    assert!(DeviceEvent::SpaceAvailable.is_set_in(flags));

    // Flags should be cleared after check
    assert_eq!(manager.peek_poll(device_id), 0);
}

#[test]
fn test_notification_manager_legacy_api() {
    let mut manager = DeviceNotificationManager::new(1);
    let device_id = DeviceId(1);
    let config = create_test_interrupt_config(32, 0);

    // Register using legacy API
    manager.register(device_id, config).unwrap();

    // Inject using legacy API
    manager.inject_irq(device_id, IrqType::Primary).unwrap();
    assert_eq!(manager.pending_count(0), 1);

    // Pop
    let pending = manager.pop_pending(0).unwrap();
    assert_eq!(pending.irq, 32);
}

#[test]
fn test_notification_manager_transactional() {
    let mut manager = DeviceNotificationManager::new(1);
    let device_id = DeviceId(1);
    let config = create_test_notification_config(32, 0);

    manager.register_notification(device_id, config).unwrap();

    // Inject in pending state
    let (cpu_id, entry_id) = manager.inject_pending(device_id, IrqType::Primary).unwrap();
    assert_eq!(cpu_id, 0);
    assert_eq!(manager.pending_count(0), 0);
    assert_eq!(manager.uncommitted_count(0), 1);

    // Confirm
    manager.confirm_pending(cpu_id, entry_id);
    assert_eq!(manager.pending_count(0), 1);
    assert_eq!(manager.uncommitted_count(0), 0);
}

#[test]
fn test_notification_manager_event() {
    let mut manager = DeviceNotificationManager::new(2);
    let device_id = DeviceId(1);
    let config = NotificationConfig::event().with_cpu_affinity(CpuAffinity::Fixed(1));

    manager.register_notification(device_id, config).unwrap();

    // Inject events
    manager.inject(device_id, DeviceEvent::DataReady).unwrap();
    manager.inject(device_id, DeviceEvent::SpaceAvailable).unwrap();

    // Drain events
    let events = manager.drain_events(1, 10);
    assert_eq!(events.len(), 2);
    assert_eq!(events[0].event, DeviceEvent::DataReady);
    assert_eq!(events[1].event, DeviceEvent::SpaceAvailable);
}

#[test]
fn test_notification_manager_additional_irq_bounds() {
    let mut manager = DeviceNotificationManager::new(1);
    let device_id = DeviceId(1);
    let mut config = create_test_notification_config(32, 0);
    config.additional_irqs = vec![33];

    manager.register_notification(device_id, config).unwrap();

    manager.inject(device_id, DeviceEvent::Irq(IrqType::Additional(0))).unwrap();
    assert_eq!(manager.pop_pending(0).unwrap().irq, 33);

    // An out-of-range additional index is rejected.
    let result = manager.inject(device_id, DeviceEvent::Irq(IrqType::Additional(1)));
    assert_eq!(result, Err(DeviceError::InvalidInput));
}

#[test]
fn test_notification_manager_not_registered() {
    let mut manager = DeviceNotificationManager::new(1);
    let result = manager.inject(DeviceId(5), DeviceEvent::DataReady);
    assert_eq!(result, Err(DeviceError::NotFound));
}

#[test]
fn test_notification_manager_missing_primary_irq() {
    let mut manager = DeviceNotificationManager::new(1);
    let device_id = DeviceId(1);
    // Interrupt delivery without a primary IRQ configured.
    let mut config = NotificationConfig::poll();
    config.method = NotifyMethod::Interrupt;
    manager.register_notification(device_id, config).unwrap();

    let result = manager.inject(device_id, DeviceEvent::DataReady);
    assert_eq!(result, Err(DeviceError::InvalidInput));
}

#[test]
fn test_notification_manager_round_robin() {
    let mut manager = DeviceNotificationManager::new(2);
    let device_id = DeviceId(1);
    let config = NotificationConfig::interrupt(40)
        .with_cpu_affinity(CpuAffinity::RoundRobin)
        .with_priority(10);
    manager.register_notification(device_id, config).unwrap();

    manager.inject(device_id, DeviceEvent::DataReady).unwrap();
    manager.inject(device_id, DeviceEvent::DataReady).unwrap();

    assert_eq!(manager.pending_count(0), 1);
    assert_eq!(manager.pending_count(1), 1);
}

#[test]
fn test_device_notifier_interrupt() {
    let mut manager = DeviceNotificationManager::new(1);
    let device_id = DeviceId(1);
    let config = create_test_notification_config(32, 0);

    // Register device
    manager.register_notification(device_id, config).unwrap();

    // Create notifier
    let notifier = DeviceNotifierImpl::new(device_id);
    assert_eq!(notifier.method(), NotifyMethod::Interrupt);

    // Notify
    notifier.notify(&mut manager, DeviceEvent::DataReady).unwrap();

    // Verify notification was injected
    assert_eq!(manager.pending_count(0), 1);
    let pending = manager.pop_pending(0).unwrap();
    assert_eq!(pending.irq, 32);
    assert_eq!(pending.device_id, device_id);
    assert_eq!(pending.event, DeviceEvent::DataReady);
}

#[test]
fn test_device_notifier_poll() {
    let mut manager = DeviceNotificationManager::new(1);
    let device_id = DeviceId(1);
    let config = NotificationConfig::poll();

    // Register device
    manager.register_notification(device_id, config).unwrap();

    // Create notifier with poll method
    let notifier = DeviceNotifierImpl::with_method(device_id, NotifyMethod::Poll);
    assert_eq!(notifier.method(), NotifyMethod::Poll);

    // Initially no pending
    assert!(!notifier.has_pending(&manager));

    // Notify
    notifier.notify(&mut manager, DeviceEvent::DataReady).unwrap();

    // Verify poll flag was set
    assert!(notifier.has_pending(&manager));
    let flags = manager.check_poll(device_id);
    assert!(DeviceEvent::DataReady.is_set_in(flags));

    // After check, no longer pending
    assert!(!notifier.has_pending(&manager));
}

#[test]
fn test_device_notifier_additional_irq() {
    let mut manager = DeviceNotificationManager::new(1);
    let device_id = DeviceId(1);

    let mut config = create_test_notification_config(32, 0);
    config.additional_irqs = vec![33, 34];

    manager.register_notification(device_id, config).unwrap();

    let notifier = DeviceNotifierImpl::new(device_id);

    // Trigger primary
    notifier.notify(&mut manager, DeviceEvent::Irq(IrqType::Primary)).unwrap();
    let p1 = manager.pop_pending(0).unwrap();
    assert_eq!(p1.irq, 32);

    // Trigger additional
    notifier.notify(&mut manager, DeviceEvent::Irq(IrqType::Additional(0))).unwrap();
    let p2 = manager.pop_pending(0).unwrap();
    assert_eq!(p2.irq, 33);

    notifier.notify(&mut manager, DeviceEvent::Irq(IrqType::Additional(1))).unwrap();
    let p3 = manager.pop_pending(0).unwrap();
    assert_eq!(p3.irq, 34);
}

#[test]
fn test_device_notifier_callback_is_local() {
    // A callback-method notifier never reaches the manager.
    let mut manager = DeviceNotificationManager::new(1);
    let device_id = DeviceId(1);
    manager
        .register_notification(device_id, create_test_notification_config(32, 0))
        .unwrap();

    let notifier = DeviceNotifierImpl::with_method(device_id, NotifyMethod::Callback);
    notifier.notify(&mut manager, DeviceEvent::DataReady).unwrap();
    assert_eq!(manager.pending_count(0), 0);

    notifier.clear(&mut manager, DeviceEvent::DataReady).unwrap();
    assert_eq!(manager.pending_count(0), 0);
}
