//! Emulated-device management core for a type-1 hypervisor.
//!
//! The crate intercepts guest MMIO, system-register and port-I/O traps,
//! dispatches them to emulated device backends, manages device lifecycle
//! (hot-plug and hot-unplug) and routes device-originated notifications
//! (interrupts, poll flags, event queues) to virtual CPUs.

mod base;
mod blocks;
mod device_cell;
mod devops;
mod errors;
mod facade;
mod ivc;
mod kv;
mod lifecycle;
mod manager;
mod notifier;
mod poll;
mod queue;
mod region;
mod registry;
mod routing;
mod stubs;
mod wrapper;

pub use base::{
    AccessWidth, AddrRange, CpuAffinity, DeviceEvent, InterruptConfig, IrqType,
    NotificationConfig, NotifyMethod, TriggerMode,
};
pub use blocks::{block_spans, BlockSpan, SECTOR_SIZE};
pub use device_cell::DeviceCell;
pub use devops::{BaseDeviceOps, EmuDeviceType};
pub use errors::DeviceError;
pub use facade::{
    new_dummy_clint_device, new_dummy_uart_device, new_dummy_virtio_device, AxVmDeviceConfig,
    AxVmDevices, ConsoleInputHandler, ConsoleRouter, EmulatedDeviceConfig, VmDevice,
};
pub use ivc::IvcAllocator;
pub use lifecycle::{DeviceLifecycle, DeviceState, StateAndCount, WaitQueue};
pub use manager::DeviceNotificationManager;
pub use notifier::DeviceNotifierImpl;
pub use poll::PollFlags;
pub use registry::DeviceRegistry;
pub use routing::RoutingTable;
pub use queue::{EntryId, PendingNotification, TransactionalNotificationQueue};
pub use region::{
    CachedRegions, DeviceRegion, Permissions, RegionDescriptor, RegionHit, RegionType,
    MAX_REGIONS_PER_DEVICE, REGION_CONFIG, REGION_CONTROL, REGION_DATA, REGION_STATUS,
};
pub use stubs::{DummyClintDevice, DummyUartDevice, DummyUartState, DummyVirtioDevice, DummyVirtioState};
pub use wrapper::{DeviceId, DeviceStats, DeviceWrapper};
