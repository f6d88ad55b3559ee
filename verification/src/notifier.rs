//! The notifier handle given to device backends.
//!
//! A backend raises events through its notifier without knowing how they are
//! delivered.  Callback-method notifiers run their callback synchronously at
//! the call site, before the manager is ever reached; every other method
//! delegates to the notification manager, addressed by device id.

use vstd::prelude::*;

use crate::base::{DeviceEvent, NotifyMethod};
use crate::errors::DeviceError;
use crate::manager::{inject_post, DeviceNotificationManager};
use crate::wrapper::DeviceId;

verus! {

/// Notifier handle issued to a device at registration.
///
/// The handle carries only the device's id and delivery method; delivery
/// itself goes through the notification manager passed to each call, so no
/// reference cycle between manager and devices exists.
#[derive(Debug, Clone, Copy, PartialEq, Eq, Structural)]
pub struct DeviceNotifierImpl {
    device_id: DeviceId,
    method: NotifyMethod,
}

impl DeviceNotifierImpl {
    /// The device id this notifier speaks for.
    pub closed spec fn spec_device_id(self) -> DeviceId {
        self.device_id
    }

    /// The delivery method of this notifier.
    pub closed spec fn spec_method(self) -> NotifyMethod {
        self.method
    }

    /// Creates a notifier with interrupt delivery.
    pub fn new(device_id: DeviceId) -> (r: Self)
        ensures
            r.spec_device_id() == device_id,
            r.spec_method() == NotifyMethod::Interrupt,
    {
        Self { device_id, method: NotifyMethod::Interrupt }
    }

    /// Creates a notifier with the given delivery method.
    pub fn with_method(device_id: DeviceId, method: NotifyMethod) -> (r: Self)
        ensures
            r.spec_device_id() == device_id,
            r.spec_method() == method,
    {
        Self { device_id, method }
    }

    /// The device id this notifier speaks for.
    pub fn device_id(&self) -> (r: DeviceId)
        ensures
            r == self.spec_device_id(),
    {
        self.device_id
    }

    /// The delivery method of this notifier.
    pub fn method(&self) -> (r: NotifyMethod)
        ensures
            r == self.spec_method(),
    {
        self.method
    }

    /// Raises an event towards the manager.
    ///
    /// A callback-method notifier does nothing here: its callback runs
    /// synchronously at the caller, before the manager is reached.  Every
    /// other method injects through the manager.
    pub fn notify(&self, manager: &mut DeviceNotificationManager, event: DeviceEvent)
        -> (r: Result<(), DeviceError>)
        requires
            old(manager).wf(),
        ensures
            final(manager).wf(),
            self.spec_method() == NotifyMethod::Callback
                ==> r is Ok && *final(manager) == *old(manager),
            self.spec_method() != NotifyMethod::Callback
                ==> inject_post(*old(manager), *final(manager), self.spec_device_id(), event, r),
    {
        match self.method {
            NotifyMethod::Callback => Ok(()),
            _ => manager.inject(self.device_id, event),
        }
    }

    /// Deasserts a level-triggered notification.
    ///
    /// Deassert has no effect in this design: nothing is queued per level,
    /// so there is nothing to retract.
    pub fn clear(&self, manager: &mut DeviceNotificationManager, event: DeviceEvent)
        -> (r: Result<(), DeviceError>)
        requires
            old(manager).wf(),
        ensures
            final(manager).wf(),
            r is Ok,
            *final(manager) == *old(manager),
    {
        let _ = event;
        Ok(())
    }

    /// Tests whether this notifier's device has pending poll flags.
    ///
    /// Only poll-method notifiers can have pending flags.
    pub fn has_pending(&self, manager: &DeviceNotificationManager) -> (r: bool)
        requires
            manager.wf(),
        ensures
            self.spec_method() != NotifyMethod::Poll ==> r == false,
            self.spec_method() == NotifyMethod::Poll ==> r == (
                manager.polls().dom().contains(self.spec_device_id())
                    && manager.polls()[self.spec_device_id()] != 0
            ),
    {
        if self.method == NotifyMethod::Poll {
            manager.peek_poll(self.device_id) != 0
        } else {
            false
        }
    }
}

} // verus!
