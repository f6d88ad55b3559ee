//! Error taxonomy for device management operations.

use vstd::prelude::*;

verus! {

/// Errors returned by the device-management core.
///
/// No allocation happens on the error path: every variant is a plain tag.
#[derive(Clone, Copy, Debug, PartialEq, Eq, Structural)]
pub enum DeviceError {
    /// The address has no registered device.
    NotFound,
    /// The device exists but is Removing or Removed, or a removal was
    /// attempted on a non-Active device.
    BadState,
    /// Malformed configuration, a non-aligned channel size, or a missing
    /// primary IRQ for an interrupt notification.
    InvalidInput,
    /// The feature is not supported in this configuration.
    Unsupported,
    /// The channel range allocator is exhausted.
    NoMemory,
    /// A notification registration for an already-registered device id,
    /// or an address range conflict on registration.
    AlreadyExists,
    /// A stub device rejected an unsupported access width.
    BadAddress,
}

} // verus!
