//! The backend contract every emulated device implements.

use vstd::prelude::*;

use crate::base::{AccessWidth, AddrRange, NotificationConfig};
use crate::errors::DeviceError;
use crate::notifier::DeviceNotifierImpl;
use crate::region::{RegionDescriptor, RegionHit, MAX_REGIONS_PER_DEVICE};

verus! {

/// Classification tag of an emulated device, matched against the device
/// configuration list at construction.
#[derive(Debug, Clone, Copy, PartialEq, Eq, Structural)]
pub enum EmuDeviceType {
    /// Architectural interrupt controller.
    InterruptController,
    /// Partial-passthrough redistributor block, one per vCPU.
    GPPTRedistributor,
    /// Partial-passthrough distributor.
    GPPTDistributor,
    /// Partial-passthrough interrupt translation service.
    GPPTITS,
    /// Partial-passthrough platform-level interrupt controller.
    PPPTGlobal,
    /// Inter-VM shared-memory channel allocator.
    IVCChannel,
    /// Serial console.
    Console,
    /// VirtIO block device.
    VirtioBlk,
    /// VirtIO network device.
    VirtioNet,
    /// VirtIO console device.
    VirtioConsole,
    /// Fallback stub device.
    Dummy,
    /// A type this core does not recognise; skipped at construction.
    Other,
}

/// The backend contract: what a device must provide to be registered.
///
/// Backends are driven strictly serially by the wrapper's access protocol,
/// so `handle_read` and `handle_write` take the device exclusively.
pub trait BaseDeviceOps: Sized {
    /// Classification tag of the device.
    fn emu_type(&self) -> EmuDeviceType;

    /// The disjoint address ranges the device claims in its class's address
    /// space; a registrable device claims at least one.
    fn address_ranges(&self) -> Vec<AddrRange>;

    /// Handles a read of the given width at an absolute guest address.
    ///
    /// Only widths the device advertises need to succeed; others may fail
    /// with `BadAddress`.
    fn handle_read(&mut self, addr: usize, width: AccessWidth)
        -> Result<usize, DeviceError>;

    /// Handles a write of the given width at an absolute guest address.
    fn handle_write(&mut self, addr: usize, width: AccessWidth, val: usize)
        -> Result<(), DeviceError>;

    /// Optional multi-region metadata, consumed once at registration.
    fn region_descriptor(&self) -> (r: Option<RegionDescriptor>)
        ensures
            r is Some ==> r->Some_0.spec_regions().len() <= MAX_REGIONS_PER_DEVICE,
    ;

    /// Optional fast-path region lookup for devices with fixed layouts.
    fn region_lookup(&self, addr: usize) -> Option<RegionHit>;

    /// Optional notification configuration; a device that returns one is
    /// handed a notifier after successful registration.
    fn notification_config(&self) -> Option<NotificationConfig>;

    /// Receives the manager-issued notifier after successful registration.
    fn set_notifier(&mut self, notifier: DeviceNotifierImpl);
}

} // verus!
