use axdevice::{DeviceLifecycle, DeviceState, StateAndCount};

#[test]
fn test_state_and_count_basic() {
    let sc = StateAndCount::new();
    assert_eq!(sc.state(), DeviceState::Active);
    assert_eq!(sc.count(), 0);
}

#[test]
fn test_state_and_count_acquire_release() {
    let mut sc = StateAndCount::new();

    // Acquire should succeed in Active state
    assert!(sc.try_acquire().is_ok());
    assert_eq!(sc.count(), 1);

    assert!(sc.try_acquire().is_ok());
    assert_eq!(sc.count(), 2);

    // Release
    sc.release();
    assert_eq!(sc.count(), 1);

    sc.release();
    assert_eq!(sc.count(), 0);
}

#[test]
fn test_state_and_count_removing() {
    let mut sc = StateAndCount::new();

    // Acquire some accesses
    assert!(sc.try_acquire().is_ok());
    assert!(sc.try_acquire().is_ok());
    assert_eq!(sc.count(), 2);

    // Set removing
    let count = sc.set_removing();
    assert_eq!(count, 2);
    assert_eq!(sc.state(), DeviceState::Removing);

    // New acquires should fail
    assert!(sc.try_acquire().is_err());
    assert_eq!(sc.count(), 2); // Count unchanged
}

#[test]
fn test_state_and_count_acquire_reports_state() {
    let mut sc = StateAndCount::new();
    let n = sc.set_removing();
    assert_eq!(n, 0);
    assert_eq!(sc.try_acquire(), Err(DeviceState::Removing));

    sc.set_removed();
    assert_eq!(sc.try_acquire(), Err(DeviceState::Removed));
    assert_eq!(sc.count(), 0);

    assert!(sc.reset_to_active());
    assert_eq!(sc.try_acquire(), Ok(()));
}

#[test]
fn test_state_and_count_reset_needs_removed() {
    let mut sc = StateAndCount::new();
    // Active with zero count is not resettable.
    assert!(!sc.reset_to_active());
    sc.set_removing();
    assert!(!sc.reset_to_active());
}

#[test]
fn test_lifecycle_initial_state() {
    let lifecycle = DeviceLifecycle::new();
    assert_eq!(lifecycle.state(), DeviceState::Active);
    assert_eq!(lifecycle.active_accesses(), 0);
}

#[test]
fn test_lifecycle_access_tracking() {
    let mut lifecycle = DeviceLifecycle::new();

    assert!(lifecycle.try_begin_access());
    assert_eq!(lifecycle.active_accesses(), 1);

    assert!(lifecycle.try_begin_access());
    assert_eq!(lifecycle.active_accesses(), 2);

    lifecycle.end_access();
    assert_eq!(lifecycle.active_accesses(), 1);

    lifecycle.end_access();
    assert_eq!(lifecycle.active_accesses(), 0);
}

#[test]
fn test_lifecycle_removal() {
    let mut lifecycle = DeviceLifecycle::new();

    // Start some accesses
    assert!(lifecycle.try_begin_access());
    assert!(lifecycle.try_begin_access());
    assert_eq!(lifecycle.active_accesses(), 2);

    // Begin removal
    assert!(lifecycle.begin_removal());
    assert_eq!(lifecycle.state(), DeviceState::Removing);

    // New accesses should be rejected
    assert!(!lifecycle.try_begin_access());
    assert_eq!(lifecycle.active_accesses(), 2); // Still 2 active

    // Complete existing accesses
    lifecycle.end_access();
    lifecycle.end_access();

    // Wait for idle
    lifecycle.wait_idle();
    assert_eq!(lifecycle.active_accesses(), 0);

    // Complete removal
    lifecycle.complete_removal();
    assert_eq!(lifecycle.state(), DeviceState::Removed);
}

#[test]
fn test_lifecycle_reset() {
    let mut lifecycle = DeviceLifecycle::new();

    // Remove device
    assert!(lifecycle.begin_removal());
    lifecycle.wait_idle();
    lifecycle.complete_removal();
    assert_eq!(lifecycle.state(), DeviceState::Removed);

    // Reset to active
    assert!(lifecycle.reset_to_active());
    assert_eq!(lifecycle.state(), DeviceState::Active);

    // Should be able to access again
    assert!(lifecycle.try_begin_access());
}

#[test]
fn test_lifecycle_double_removal() {
    let mut lifecycle = DeviceLifecycle::new();

    assert!(lifecycle.begin_removal());
    assert!(!lifecycle.begin_removal()); // Second attempt fails
}

#[test]
fn test_lifecycle_wait_idle_timeout() {
    let mut lifecycle = DeviceLifecycle::new();
    assert!(lifecycle.wait_idle_timeout(100));

    assert!(lifecycle.try_begin_access());
    assert!(!lifecycle.wait_idle_timeout(100));
    lifecycle.end_access();
    assert!(lifecycle.wait_idle_timeout(0));
}

#[test]
fn test_acquire_release_balance_sequence() {
    // Acquires minus releases gives the count, over a mixed sequence: two
    // acquires then one release, repeated.
    let mut sc = StateAndCount::new();
    for _round in 0..21 {
        assert!(sc.try_acquire().is_ok());
        assert!(sc.try_acquire().is_ok());
        sc.release();
    }
    let acquires: u32 = 42;
    let releases: u32 = 21;
    assert_eq!(sc.count(), acquires - releases);
}
