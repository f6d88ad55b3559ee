//! The VM-devices façade: three address-class registries, the channel
//! allocator and the notification manager behind one object, built from a
//! device configuration list.

use vstd::prelude::*;

use crate::base::{AccessWidth, AddrRange};
use crate::devops::{BaseDeviceOps, EmuDeviceType};
use crate::errors::DeviceError;
use crate::ivc::{IvcAllocator, IVC_ALIGN};
use crate::lifecycle::DeviceState;
use crate::manager::{DeviceNotificationManager, PASSTHROUGH_PRIORITY};
use crate::notifier::DeviceNotifierImpl;
use crate::queue::PendingNotification;
use crate::registry::{read_dispatch_post, route, write_dispatch_post, DeviceRegistry};
use crate::stubs::{
    DummyClintDevice, DummyUartDevice, DummyUartState, DummyVirtioDevice, DummyVirtioState,
    CLINT_DEFAULT_SIZE, STUB_DEFAULT_SIZE, UART_LSR_TX_EMPTY, VIRTIO_MAGIC, VIRTIO_VERSION,
};
use crate::wrapper::{DeviceId, PASSTHROUGH_BASE};

verus! {

/// One entry of the emulated-device configuration list.
pub struct EmulatedDeviceConfig {
    /// Human-readable device name.
    pub name: String,
    /// Device classification driving construction.
    pub emu_type: EmuDeviceType,
    /// First guest address of the device window.
    pub base_addr: usize,
    /// Length of the device window in bytes.
    pub length: usize,
    /// Type-specific extra parameters.
    pub cfg_list: Vec<usize>,
}

/// The device configuration handed to the façade constructor.
pub struct AxVmDeviceConfig {
    /// The emulated-device configuration list.
    pub emu_configs: Vec<EmulatedDeviceConfig>,
}

impl AxVmDeviceConfig {
    /// Wraps a configuration list.
    pub fn new(emu_configs: Vec<EmulatedDeviceConfig>) -> (r: Self)
        ensures
            r.emu_configs == emu_configs,
    {
        Self { emu_configs }
    }
}

/// A device installed by the façade constructor: one of the stub backends.
pub enum VmDevice {
    /// The VirtIO MMIO header stub.
    Virtio(DummyVirtioDevice),
    /// The 16550 UART stub.
    Uart(DummyUartDevice),
    /// The CLINT-style stub.
    Clint(DummyClintDevice),
}

impl BaseDeviceOps for VmDevice {
    fn emu_type(&self) -> EmuDeviceType {
        match self {
            VmDevice::Virtio(d) => d.emu_type(),
            VmDevice::Uart(d) => d.emu_type(),
            VmDevice::Clint(d) => d.emu_type(),
        }
    }

    fn address_ranges(&self) -> Vec<AddrRange> {
        match self {
            VmDevice::Virtio(d) => d.address_ranges(),
            VmDevice::Uart(d) => d.address_ranges(),
            VmDevice::Clint(d) => d.address_ranges(),
        }
    }

    fn handle_read(&mut self, addr: usize, width: AccessWidth)
        -> Result<usize, DeviceError> {
        match self {
            VmDevice::Virtio(d) => d.handle_read(addr, width),
            VmDevice::Uart(d) => d.handle_read(addr, width),
            VmDevice::Clint(d) => d.handle_read(addr, width),
        }
    }

    fn handle_write(&mut self, addr: usize, width: AccessWidth, val: usize)
        -> Result<(), DeviceError> {
        match self {
            VmDevice::Virtio(d) => d.handle_write(addr, width, val),
            VmDevice::Uart(d) => d.handle_write(addr, width, val),
            VmDevice::Clint(d) => d.handle_write(addr, width, val),
        }
    }

    fn region_descriptor(&self) -> (r: Option<crate::region::RegionDescriptor>) {
        match self {
            VmDevice::Virtio(d) => d.region_descriptor(),
            VmDevice::Uart(d) => d.region_descriptor(),
            VmDevice::Clint(d) => d.region_descriptor(),
        }
    }

    fn region_lookup(&self, addr: usize) -> Option<crate::region::RegionHit> {
        match self {
            VmDevice::Virtio(d) => d.region_lookup(addr),
            VmDevice::Uart(d) => d.region_lookup(addr),
            VmDevice::Clint(d) => d.region_lookup(addr),
        }
    }

    fn notification_config(&self) -> Option<crate::base::NotificationConfig> {
        match self {
            VmDevice::Virtio(d) => d.notification_config(),
            VmDevice::Uart(d) => d.notification_config(),
            VmDevice::Clint(d) => d.notification_config(),
        }
    }

    fn set_notifier(&mut self, notifier: DeviceNotifierImpl) {
        match self {
            VmDevice::Virtio(d) => d.set_notifier(notifier),
            VmDevice::Uart(d) => d.set_notifier(notifier),
            VmDevice::Clint(d) => d.set_notifier(notifier),
        }
    }
}

/// Creates a VirtIO MMIO stub, in reset state, ready for registration.
pub fn new_dummy_virtio_device(base: usize, size: Option<usize>) -> (r: VmDevice)
    requires
        base + (if size is Some { size->Some_0 } else { STUB_DEFAULT_SIZE }) <= usize::MAX,
    ensures
        r is Virtio,
        r->Virtio_0.spec_range().start == base,
        r->Virtio_0.spec_range().end == base
            + if size is Some { size->Some_0 as int } else { STUB_DEFAULT_SIZE as int },
        r->Virtio_0.spec_state() == (DummyVirtioState {
            magic: VIRTIO_MAGIC,
            version: VIRTIO_VERSION,
            device_id: 0,
            vendor: 0,
            features: 0,
            driver_features: 0,
            queue_sel: 0,
            queue_size: 0,
            queue_ready: 0,
            queue_notification: 0,
            status: 0,
        }),
{
    VmDevice::Virtio(DummyVirtioDevice::new(base, size))
}

/// Creates a 16550 UART stub, in reset state, ready for registration.
pub fn new_dummy_uart_device(base: usize, size: Option<usize>) -> (r: VmDevice)
    requires
        base + (if size is Some { size->Some_0 } else { STUB_DEFAULT_SIZE }) <= usize::MAX,
    ensures
        r is Uart,
        r->Uart_0.spec_range().start == base,
        r->Uart_0.spec_range().end == base
            + if size is Some { size->Some_0 as int } else { STUB_DEFAULT_SIZE as int },
        r->Uart_0.spec_state() == (DummyUartState {
            rhr_thr: 0,
            ier: 0,
            fcr: 0,
            lcr: 0,
            lsr: UART_LSR_TX_EMPTY,
        }),
{
    VmDevice::Uart(DummyUartDevice::new(base, size))
}

/// Creates a CLINT-style stub ready for registration.
pub fn new_dummy_clint_device(base: usize, size: Option<usize>) -> (r: VmDevice)
    requires
        base + (if size is Some { size->Some_0 } else { CLINT_DEFAULT_SIZE }) <= usize::MAX,
    ensures
        r is Clint,
        r->Clint_0.spec_range().start == base,
        r->Clint_0.spec_range().end == base
            + if size is Some { size->Some_0 as int } else { CLINT_DEFAULT_SIZE as int },
{
    VmDevice::Clint(DummyClintDevice::new(base, size))
}

/// The devices of one VM: an MMIO registry, a system-register registry, a
/// port registry, an optional channel allocator and an optional
/// notification manager.
pub struct AxVmDevices<D: BaseDeviceOps> {
    mmio: DeviceRegistry<D>,
    sys_regs: DeviceRegistry<D>,
    ports: DeviceRegistry<D>,
    ivc: Option<IvcAllocator>,
    manager: Option<DeviceNotificationManager>,
}

impl<D: BaseDeviceOps> AxVmDevices<D> {
    /// The MMIO registry.
    pub closed spec fn spec_mmio(self) -> DeviceRegistry<D> {
        self.mmio
    }

    /// The system-register registry.
    pub closed spec fn spec_sys_regs(self) -> DeviceRegistry<D> {
        self.sys_regs
    }

    /// The port registry.
    pub closed spec fn spec_ports(self) -> DeviceRegistry<D> {
        self.ports
    }

    /// The channel allocator, if one is configured.
    pub closed spec fn spec_ivc(self) -> Option<IvcAllocator> {
        self.ivc
    }

    /// The notification manager, if one is installed.
    pub closed spec fn spec_manager(self) -> Option<DeviceNotificationManager> {
        self.manager
    }

    /// Well-formedness of the façade and all its parts.
    pub open spec fn wf(self) -> bool {
        &&& self.spec_mmio().wf()
        &&& self.spec_sys_regs().wf()
        &&& self.spec_ports().wf()
        &&& self.spec_ivc() is Some ==> self.spec_ivc()->Some_0.wf()
        &&& self.spec_manager() is Some ==> self.spec_manager()->Some_0.wf()
    }

    /// Creates a façade with no devices, no channel allocator and no
    /// notification manager.
    pub fn new_empty() -> (r: Self)
        ensures
            r.wf(),
            r.spec_ivc() is None,
            r.spec_manager() is None,
            r.spec_mmio().device_map() =~= Map::<DeviceId, crate::wrapper::DeviceWrapper<D>>::empty(),
            r.spec_mmio().ranges() =~= Seq::<(AddrRange, DeviceId)>::empty(),
            r.spec_sys_regs().device_map() =~= Map::<DeviceId, crate::wrapper::DeviceWrapper<D>>::empty(),
            r.spec_ports().device_map() =~= Map::<DeviceId, crate::wrapper::DeviceWrapper<D>>::empty(),
    {
        Self {
            mmio: DeviceRegistry::new(),
            sys_regs: DeviceRegistry::new(),
            ports: DeviceRegistry::new(),
            ivc: None,
            manager: None,
        }
    }

    /// Installs the notification manager for `cpu_count` vCPUs.
    ///
    /// Must precede registration of devices that declare a notification
    /// configuration.
    pub fn init_interrupt_manager(&mut self, cpu_count: usize)
        requires
            old(self).wf(),
            cpu_count >= 1,
        ensures
            final(self).wf(),
            final(self).spec_manager() is Some,
            final(self).spec_manager()->Some_0.spec_cpu_count() == cpu_count,
            final(self).spec_mmio() == old(self).spec_mmio(),
            final(self).spec_sys_regs() == old(self).spec_sys_regs(),
            final(self).spec_ports() == old(self).spec_ports(),
            final(self).spec_ivc() == old(self).spec_ivc(),
    {
        self.manager = Some(DeviceNotificationManager::new(cpu_count));
    }

    /// Registers a device with the MMIO registry; when the device declares a
    /// notification configuration and a manager is installed, the
    /// configuration is registered and the device receives its notifier.
    ///
    /// A registration that fails anywhere is rolled back completely.
    pub fn try_add_mmio_dev(&mut self, device: D) -> (r: Result<DeviceId, DeviceError>)
        requires
            old(self).wf(),
            old(self).spec_mmio().spec_next_id() < PASSTHROUGH_BASE,
        ensures
            final(self).wf(),
            final(self).spec_sys_regs() == old(self).spec_sys_regs(),
            final(self).spec_ports() == old(self).spec_ports(),
            final(self).spec_ivc() == old(self).spec_ivc(),
            old(self).spec_manager() is None
                ==> final(self).spec_manager() == old(self).spec_manager(),
            r is Err ==> final(self).spec_mmio().device_map().dom()
                == old(self).spec_mmio().device_map().dom()
                && old(self).spec_mmio().spec_next_id()
                    <= final(self).spec_mmio().spec_next_id()
                    <= old(self).spec_mmio().spec_next_id() + 1,
            old(self).spec_manager() is Some && r is Err ==> final(self).spec_manager() is Some
                && final(self).spec_manager()->Some_0.routing()
                    == old(self).spec_manager()->Some_0.routing(),
            r is Ok ==> {
                let id = DeviceId(old(self).spec_mmio().spec_next_id());
                &&& r == Ok::<DeviceId, DeviceError>(id)
                &&& final(self).spec_mmio().device_map().dom()
                    == old(self).spec_mmio().device_map().dom().insert(id)
                &&& final(self).spec_mmio().spec_next_id()
                    == old(self).spec_mmio().spec_next_id() + 1
                &&& old(self).spec_manager() is Some ==> final(self).spec_manager() is Some
                    && {
                    let routing0 = old(self).spec_manager()->Some_0.routing();
                    let routing1 = final(self).spec_manager()->Some_0.routing();
                    routing1.dom() == routing0.dom()
                        || routing1.dom() == routing0.dom().insert(id)
                }
            },
    {
        let config = device.notification_config();
        let id = match self.mmio.add_device(device) {
            Ok(id) => id,
            Err(e) => {
                return Err(e);
            }
        };
        if let Some(config) = config {
            let method = config.method;
            match &mut self.manager {
                Some(manager) => {
                    match manager.register_notification(id, config) {
                        Ok(()) => {
                            let _ = self.mmio.set_device_notifier(
                                id,
                                DeviceNotifierImpl::with_method(id, method),
                            );
                        }
                        Err(e) => {
                            // Roll the registration back completely.
                            let removed = self.mmio.remove_device(id);
                            proof {
                                assert(removed is Ok);
                                assert(self.mmio.device_map()
                                    =~= old(self).spec_mmio().device_map());
                                assert(self.mmio.device_map().dom()
                                    =~= old(self).spec_mmio().device_map().dom());
                            }
                            return Err(e);
                        }
                    }
                }
                None => {}
            }
        }
        Ok(id)
    }

    /// Registers a device with the system-register registry.
    pub fn try_add_sys_reg_dev(&mut self, device: D) -> (r: Result<DeviceId, DeviceError>)
        requires
            old(self).wf(),
            old(self).spec_sys_regs().spec_next_id() < PASSTHROUGH_BASE,
        ensures
            final(self).wf(),
            final(self).spec_mmio() == old(self).spec_mmio(),
            final(self).spec_ports() == old(self).spec_ports(),
            final(self).spec_ivc() == old(self).spec_ivc(),
            final(self).spec_manager() == old(self).spec_manager(),
            r is Err ==> final(self).spec_sys_regs() == old(self).spec_sys_regs(),
            r is Ok ==> {
                let id = DeviceId(old(self).spec_sys_regs().spec_next_id());
                &&& r == Ok::<DeviceId, DeviceError>(id)
                &&& final(self).spec_sys_regs().spec_next_id()
                    == old(self).spec_sys_regs().spec_next_id() + 1
                &&& final(self).spec_sys_regs().device_map().dom()
                    == old(self).spec_sys_regs().device_map().dom().insert(id)
            },
    {
        self.sys_regs.add_device(device)
    }

    /// Registers a device with the port registry.
    pub fn try_add_port_dev(&mut self, device: D) -> (r: Result<DeviceId, DeviceError>)
        requires
            old(self).wf(),
            old(self).spec_ports().spec_next_id() < PASSTHROUGH_BASE,
        ensures
            final(self).wf(),
            final(self).spec_mmio() == old(self).spec_mmio(),
            final(self).spec_sys_regs() == old(self).spec_sys_regs(),
            final(self).spec_ivc() == old(self).spec_ivc(),
            final(self).spec_manager() == old(self).spec_manager(),
            r is Err ==> final(self).spec_ports() == old(self).spec_ports(),
            r is Ok ==> {
                let id = DeviceId(old(self).spec_ports().spec_next_id());
                &&& r == Ok::<DeviceId, DeviceError>(id)
                &&& final(self).spec_ports().spec_next_id()
                    == old(self).spec_ports().spec_next_id() + 1
                &&& final(self).spec_ports().device_map().dom()
                    == old(self).spec_ports().device_map().dom().insert(id)
            },
    {
        self.ports.add_device(device)
    }

    /// Removes a device from the MMIO registry, dropping its notification
    /// registration first; a missing notification registration is not an
    /// error.
    pub fn remove_mmio_dev(&mut self, id: DeviceId) -> (r: Result<(), DeviceError>)
        requires
            old(self).wf(),
        ensures
            final(self).wf(),
            final(self).spec_sys_regs() == old(self).spec_sys_regs(),
            final(self).spec_ports() == old(self).spec_ports(),
            final(self).spec_ivc() == old(self).spec_ivc(),
            r is Ok ==> final(self).spec_mmio().device_map()
                == old(self).spec_mmio().device_map().remove(id)
                && (forall|addr: usize| route(old(self).spec_mmio().ranges(), addr) == Some(id)
                    ==> route(final(self).spec_mmio().ranges(), addr) is None),
            r is Err ==> final(self).spec_mmio() == old(self).spec_mmio(),
            !old(self).spec_mmio().device_map().dom().contains(id)
                ==> r == Err::<(), DeviceError>(DeviceError::NotFound),
            old(self).spec_mmio().device_map().dom().contains(id) ==> {
                let w = old(self).spec_mmio().device_map()[id];
                &&& w.spec_state() == DeviceState::Active ==> r is Ok
                &&& w.spec_state() != DeviceState::Active
                    ==> r == Err::<(), DeviceError>(DeviceError::BadState)
            },
            old(self).spec_manager() is None
                ==> final(self).spec_manager() == old(self).spec_manager(),
            old(self).spec_manager() is Some ==> final(self).spec_manager() is Some && {
                let pre = old(self).spec_manager()->Some_0;
                let post = final(self).spec_manager()->Some_0;
                &&& post.polls() == pre.polls().remove(id)
                &&& post.routing() =~= pre.routing().remove(id)
                &&& post.spec_cpu_count() == pre.spec_cpu_count()
                &&& forall|c: int| 0 <= c < pre.spec_cpu_count()
                    ==> post.interrupts(c) == pre.interrupts(c)
                        && post.uncommitted(c) == pre.uncommitted(c)
                        && post.events(c) == pre.events(c)
            },
    {
        match &mut self.manager {
            Some(manager) => {
                // Best effort: an unregistered id is fine.
                let removed = manager.unregister(id);
                proof {
                    if removed is Err {
                        assert(manager.routing() =~= old(
                            self,
                        ).spec_manager()->Some_0.routing().remove(id));
                    }
                }
            }
            None => {}
        }
        self.mmio.remove_device(id)
    }

    /// Removes a device from the system-register registry, dropping its
    /// notification registration first; a missing notification registration
    /// is not an error.
    pub fn remove_sys_reg_dev(&mut self, id: DeviceId) -> (r: Result<(), DeviceError>)
        requires
            old(self).wf(),
        ensures
            final(self).wf(),
            final(self).spec_mmio() == old(self).spec_mmio(),
            final(self).spec_ports() == old(self).spec_ports(),
            final(self).spec_ivc() == old(self).spec_ivc(),
            r is Ok ==> final(self).spec_sys_regs().device_map()
                == old(self).spec_sys_regs().device_map().remove(id)
                && (forall|addr: usize| route(old(self).spec_sys_regs().ranges(), addr)
                    == Some(id)
                    ==> route(final(self).spec_sys_regs().ranges(), addr) is None),
            r is Err ==> final(self).spec_sys_regs() == old(self).spec_sys_regs(),
            !old(self).spec_sys_regs().device_map().dom().contains(id)
                ==> r == Err::<(), DeviceError>(DeviceError::NotFound),
            old(self).spec_sys_regs().device_map().dom().contains(id) ==> {
                let w = old(self).spec_sys_regs().device_map()[id];
                &&& w.spec_state() == DeviceState::Active ==> r is Ok
                &&& w.spec_state() != DeviceState::Active
                    ==> r == Err::<(), DeviceError>(DeviceError::BadState)
            },
            old(self).spec_manager() is None
                ==> final(self).spec_manager() == old(self).spec_manager(),
            old(self).spec_manager() is Some ==> final(self).spec_manager() is Some && {
                let pre = old(self).spec_manager()->Some_0;
                let post = final(self).spec_manager()->Some_0;
                &&& post.polls() == pre.polls().remove(id)
                &&& post.routing() =~= pre.routing().remove(id)
            },
    {
        match &mut self.manager {
            Some(manager) => {
                // Best effort: an unregistered id is fine.
                let removed = manager.unregister(id);
                proof {
                    if removed is Err {
                        assert(manager.routing() =~= old(
                            self,
                        ).spec_manager()->Some_0.routing().remove(id));
                    }
                }
            }
            None => {}
        }
        self.sys_regs.remove_device(id)
    }

    /// Removes a device from the port registry, dropping its notification
    /// registration first; a missing notification registration is not an
    /// error.
    pub fn remove_port_dev(&mut self, id: DeviceId) -> (r: Result<(), DeviceError>)
        requires
            old(self).wf(),
        ensures
            final(self).wf(),
            final(self).spec_mmio() == old(self).spec_mmio(),
            final(self).spec_sys_regs() == old(self).spec_sys_regs(),
            final(self).spec_ivc() == old(self).spec_ivc(),
            r is Ok ==> final(self).spec_ports().device_map()
                == old(self).spec_ports().device_map().remove(id)
                && (forall|addr: usize| route(old(self).spec_ports().ranges(), addr) == Some(id)
                    ==> route(final(self).spec_ports().ranges(), addr) is None),
            r is Err ==> final(self).spec_ports() == old(self).spec_ports(),
            !old(self).spec_ports().device_map().dom().contains(id)
                ==> r == Err::<(), DeviceError>(DeviceError::NotFound),
            old(self).spec_ports().device_map().dom().contains(id) ==> {
                let w = old(self).spec_ports().device_map()[id];
                &&& w.spec_state() == DeviceState::Active ==> r is Ok
                &&& w.spec_state() != DeviceState::Active
                    ==> r == Err::<(), DeviceError>(DeviceError::BadState)
            },
            old(self).spec_manager() is None
                ==> final(self).spec_manager() == old(self).spec_manager(),
            old(self).spec_manager() is Some ==> final(self).spec_manager() is Some && {
                let pre = old(self).spec_manager()->Some_0;
                let post = final(self).spec_manager()->Some_0;
                &&& post.polls() == pre.polls().remove(id)
                &&& post.routing() =~= pre.routing().remove(id)
            },
    {
        match &mut self.manager {
            Some(manager) => {
                // Best effort: an unregistered id is fine.
                let removed = manager.unregister(id);
                proof {
                    if removed is Err {
                        assert(manager.routing() =~= old(
                            self,
                        ).spec_manager()->Some_0.routing().remove(id));
                    }
                }
            }
            None => {}
        }
        self.ports.remove_device(id)
    }

    /// Handles an MMIO read by delegating to the MMIO registry.
    pub fn handle_mmio_read(&mut self, addr: usize, width: AccessWidth)
        -> (r: Result<usize, DeviceError>)
        requires
            old(self).wf(),
        ensures
            final(self).wf(),
            read_dispatch_post(old(self).spec_mmio(), final(self).spec_mmio(), addr, r),
            final(self).spec_sys_regs() == old(self).spec_sys_regs(),
            final(self).spec_ports() == old(self).spec_ports(),
            final(self).spec_ivc() == old(self).spec_ivc(),
            final(self).spec_manager() == old(self).spec_manager(),
    {
        self.mmio.handle_read(addr, width)
    }

    /// Handles an MMIO write by delegating to the MMIO registry.
    pub fn handle_mmio_write(&mut self, addr: usize, width: AccessWidth, val: usize)
        -> (r: Result<(), DeviceError>)
        requires
            old(self).wf(),
        ensures
            final(self).wf(),
            write_dispatch_post(old(self).spec_mmio(), final(self).spec_mmio(), addr, r),
            final(self).spec_sys_regs() == old(self).spec_sys_regs(),
            final(self).spec_ports() == old(self).spec_ports(),
            final(self).spec_ivc() == old(self).spec_ivc(),
            final(self).spec_manager() == old(self).spec_manager(),
    {
        self.mmio.handle_write(addr, width, val)
    }

    /// Handles a system-register read by delegating to the system-register
    /// registry.
    pub fn handle_sys_reg_read(&mut self, addr: usize, width: AccessWidth)
        -> (r: Result<usize, DeviceError>)
        requires
            old(self).wf(),
        ensures
            final(self).wf(),
            read_dispatch_post(old(self).spec_sys_regs(), final(self).spec_sys_regs(), addr, r),
            final(self).spec_mmio() == old(self).spec_mmio(),
            final(self).spec_ports() == old(self).spec_ports(),
            final(self).spec_ivc() == old(self).spec_ivc(),
            final(self).spec_manager() == old(self).spec_manager(),
    {
        self.sys_regs.handle_read(addr, width)
    }

    /// Handles a system-register write by delegating to the system-register
    /// registry.
    pub fn handle_sys_reg_write(&mut self, addr: usize, width: AccessWidth, val: usize)
        -> (r: Result<(), DeviceError>)
        requires
            old(self).wf(),
        ensures
            final(self).wf(),
            write_dispatch_post(old(self).spec_sys_regs(), final(self).spec_sys_regs(), addr, r),
            final(self).spec_mmio() == old(self).spec_mmio(),
            final(self).spec_ports() == old(self).spec_ports(),
            final(self).spec_ivc() == old(self).spec_ivc(),
            final(self).spec_manager() == old(self).spec_manager(),
    {
        self.sys_regs.handle_write(addr, width, val)
    }

    /// Handles a port read by delegating to the port registry.
    pub fn handle_port_read(&mut self, addr: usize, width: AccessWidth)
        -> (r: Result<usize, DeviceError>)
        requires
            old(self).wf(),
        ensures
            final(self).wf(),
            read_dispatch_post(old(self).spec_ports(), final(self).spec_ports(), addr, r),
            final(self).spec_mmio() == old(self).spec_mmio(),
            final(self).spec_sys_regs() == old(self).spec_sys_regs(),
            final(self).spec_ivc() == old(self).spec_ivc(),
            final(self).spec_manager() == old(self).spec_manager(),
    {
        self.ports.handle_read(addr, width)
    }

    /// Handles a port write by delegating to the port registry.
    pub fn handle_port_write(&mut self, addr: usize, width: AccessWidth, val: usize)
        -> (r: Result<(), DeviceError>)
        requires
            old(self).wf(),
        ensures
            final(self).wf(),
            write_dispatch_post(old(self).spec_ports(), final(self).spec_ports(), addr, r),
            final(self).spec_mmio() == old(self).spec_mmio(),
            final(self).spec_sys_regs() == old(self).spec_sys_regs(),
            final(self).spec_ivc() == old(self).spec_ivc(),
            final(self).spec_manager() == old(self).spec_manager(),
    {
        self.ports.handle_write(addr, width, val)
    }

    /// Handles a legacy port-I/O read: the access size in bytes is mapped
    /// to a width and the result is truncated to 32 bits.
    ///
    /// Fails with `InvalidInput` when the access size is not 1, 2, 4 or 8.
    pub fn handle_pio_read(&mut self, port: u16, access_size: u8)
        -> (r: Result<u32, DeviceError>)
        requires
            old(self).wf(),
        ensures
            final(self).wf(),
            final(self).spec_mmio() == old(self).spec_mmio(),
            final(self).spec_sys_regs() == old(self).spec_sys_regs(),
            final(self).spec_ivc() == old(self).spec_ivc(),
            final(self).spec_manager() == old(self).spec_manager(),
            AccessWidth::spec_from_size(access_size as usize) is None
                ==> r == Err::<u32, DeviceError>(DeviceError::InvalidInput)
                    && final(self).spec_ports() == old(self).spec_ports(),
            AccessWidth::spec_from_size(access_size as usize) is Some ==> {
                exists|v: Result<usize, DeviceError>| {
                    &&& read_dispatch_post(
                        old(self).spec_ports(),
                        final(self).spec_ports(),
                        port as usize,
                        v,
                    )
                    &&& v is Ok ==> r == Ok::<u32, DeviceError>(
                        (v->Ok_0 & 0xFFFF_FFFF) as u32,
                    )
                    &&& v is Err ==> r == Err::<u32, DeviceError>(v->Err_0)
                }
            },
    {
        let width = match AccessWidth::from_size(access_size as usize) {
            Some(width) => width,
            None => {
                return Err(DeviceError::InvalidInput);
            }
        };
        let v = self.ports.handle_read(port as usize, width);
        match v {
            Ok(value) => {
                proof {
                    assert(read_dispatch_post(
                        old(self).spec_ports(),
                        self.spec_ports(),
                        port as usize,
                        Ok::<usize, DeviceError>(value),
                    ));
                }
                Ok((value & 0xFFFF_FFFF) as u32)
            }
            Err(e) => {
                proof {
                    assert(read_dispatch_post(
                        old(self).spec_ports(),
                        self.spec_ports(),
                        port as usize,
                        Err::<usize, DeviceError>(e),
                    ));
                }
                Err(e)
            }
        }
    }

    /// Handles a legacy port-I/O write: the access size in bytes is mapped
    /// to a width.
    ///
    /// Fails with `InvalidInput` when the access size is not 1, 2, 4 or 8.
    pub fn handle_pio_write(&mut self, port: u16, access_size: u8, value: u32)
        -> (r: Result<(), DeviceError>)
        requires
            old(self).wf(),
        ensures
            final(self).wf(),
            final(self).spec_mmio() == old(self).spec_mmio(),
            final(self).spec_sys_regs() == old(self).spec_sys_regs(),
            final(self).spec_ivc() == old(self).spec_ivc(),
            final(self).spec_manager() == old(self).spec_manager(),
            AccessWidth::spec_from_size(access_size as usize) is None
                ==> r == Err::<(), DeviceError>(DeviceError::InvalidInput)
                    && final(self).spec_ports() == old(self).spec_ports(),
            AccessWidth::spec_from_size(access_size as usize) is Some
                ==> write_dispatch_post(
                    old(self).spec_ports(),
                    final(self).spec_ports(),
                    port as usize,
                    r,
                ),
    {
        let width = match AccessWidth::from_size(access_size as usize) {
            Some(width) => width,
            None => {
                return Err(DeviceError::InvalidInput);
            }
        };
        self.ports.handle_write(port as usize, width, value as usize)
    }

    /// Finds the MMIO device owning an address.
    pub fn find_dev(&self, addr: usize) -> (r: Option<&crate::wrapper::DeviceWrapper<D>>)
        requires
            self.wf(),
        ensures
            r is Some <==> route(self.spec_mmio().ranges(), addr) is Some,
            r is Some ==> *r->Some_0 == self.spec_mmio().device_map()[route(
                self.spec_mmio().ranges(),
                addr,
            )->Some_0],
    {
        self.mmio.get_device_by_addr(addr)
    }

    /// Allocates an inter-VM channel of the given size.
    ///
    /// Fails with `Unsupported` when no allocator is configured; otherwise
    /// the allocator's contract applies: `InvalidInput` for a zero or
    /// unaligned size, `NoMemory` exactly when no gap can hold the size.
    pub fn alloc_ivc_channel(&mut self, size: usize) -> (r: Result<usize, DeviceError>)
        requires
            old(self).wf(),
        ensures
            final(self).wf(),
            final(self).spec_mmio() == old(self).spec_mmio(),
            final(self).spec_sys_regs() == old(self).spec_sys_regs(),
            final(self).spec_ports() == old(self).spec_ports(),
            final(self).spec_manager() == old(self).spec_manager(),
            old(self).spec_ivc() is None ==> r == Err::<usize, DeviceError>(
                DeviceError::Unsupported,
            ) && *final(self) == *old(self),
            old(self).spec_ivc() is Some ==> {
                let pre = old(self).spec_ivc()->Some_0;
                &&& final(self).spec_ivc() is Some
                &&& size == 0 || size % IVC_ALIGN != 0 ==> r == Err::<usize, DeviceError>(
                    DeviceError::InvalidInput,
                ) && final(self).spec_ivc() == old(self).spec_ivc()
                &&& size >= 1 && size % IVC_ALIGN == 0 && r is Ok ==> {
                    let post = final(self).spec_ivc()->Some_0;
                    &&& crate::ivc::placement_ok(
                        pre.spec_base(),
                        pre.spec_length(),
                        pre.allocations(),
                        r->Ok_0,
                        size,
                    )
                    &&& post.allocations().to_multiset()
                        == pre.allocations().to_multiset().insert((r->Ok_0, size))
                }
                &&& size >= 1 && size % IVC_ALIGN == 0 && r is Err ==> {
                    &&& r == Err::<usize, DeviceError>(DeviceError::NoMemory)
                    &&& final(self).spec_ivc() == old(self).spec_ivc()
                    &&& forall|addr: usize| !crate::ivc::placement_ok(
                        pre.spec_base(),
                        pre.spec_length(),
                        pre.allocations(),
                        addr,
                        size,
                    )
                }
            },
    {
        match &mut self.ivc {
            Some(allocator) => allocator.allocate(size),
            None => Err(DeviceError::Unsupported),
        }
    }

    /// Releases an inter-VM channel that matches a prior allocation exactly.
    ///
    /// Fails with `Unsupported` when no allocator is configured and with
    /// `InvalidInput` when no live allocation matches.
    pub fn release_ivc_channel(&mut self, addr: usize, size: usize)
        -> (r: Result<(), DeviceError>)
        requires
            old(self).wf(),
        ensures
            final(self).wf(),
            final(self).spec_mmio() == old(self).spec_mmio(),
            final(self).spec_sys_regs() == old(self).spec_sys_regs(),
            final(self).spec_ports() == old(self).spec_ports(),
            final(self).spec_manager() == old(self).spec_manager(),
            old(self).spec_ivc() is None ==> r == Err::<(), DeviceError>(
                DeviceError::Unsupported,
            ) && *final(self) == *old(self),
            old(self).spec_ivc() is Some ==> {
                let pre = old(self).spec_ivc()->Some_0;
                &&& final(self).spec_ivc() is Some
                &&& !pre.allocations().contains((addr, size)) ==> r == Err::<(), DeviceError>(
                    DeviceError::InvalidInput,
                ) && final(self).spec_ivc() == old(self).spec_ivc()
                &&& pre.allocations().contains((addr, size)) ==> {
                    let post = final(self).spec_ivc()->Some_0;
                    &&& r is Ok
                    &&& post.allocations().to_multiset()
                        == pre.allocations().to_multiset().remove((addr, size))
                }
            },
    {
        match &mut self.ivc {
            Some(allocator) => allocator.release(addr, size),
            None => Err(DeviceError::Unsupported),
        }
    }

    /// Pops the highest-priority pending interrupt for a vCPU; `None` when
    /// no manager is installed.
    pub fn pop_pending_interrupt(&mut self, cpu_id: usize) -> (r: Option<PendingNotification>)
        requires
            old(self).wf(),
        ensures
            final(self).wf(),
            final(self).spec_mmio() == old(self).spec_mmio(),
            final(self).spec_sys_regs() == old(self).spec_sys_regs(),
            final(self).spec_ports() == old(self).spec_ports(),
            final(self).spec_ivc() == old(self).spec_ivc(),
            old(self).spec_manager() is None ==> r is None && *final(self) == *old(self),
            old(self).spec_manager() is Some ==> {
                let pre = old(self).spec_manager()->Some_0;
                &&& final(self).spec_manager() is Some
                &&& cpu_id < pre.spec_cpu_count() && pre.interrupts(cpu_id as int).len() > 0
                    ==> r is Some && {
                    let m = r->Some_0;
                    let post = final(self).spec_manager()->Some_0;
                    &&& pre.interrupts(cpu_id as int).count(m) > 0
                    &&& post.interrupts(cpu_id as int)
                        == pre.interrupts(cpu_id as int).remove(m)
                    &&& forall|x: PendingNotification| post.interrupts(cpu_id as int).count(x)
                        > 0 ==> crate::queue::pops_before_eq(m, x)
                }
                &&& cpu_id < pre.spec_cpu_count() && pre.interrupts(cpu_id as int).len() == 0
                    ==> r is None
                &&& cpu_id >= pre.spec_cpu_count() ==> r is None
            },
    {
        match &mut self.manager {
            Some(manager) => manager.pop_pending(cpu_id),
            None => None,
        }
    }

    /// The number of pending interrupts queued for a vCPU; zero when no
    /// manager is installed.
    pub fn pending_interrupt_count(&self, cpu_id: usize) -> (r: usize)
        requires
            self.wf(),
        ensures
            self.spec_manager() is None ==> r == 0,
            self.spec_manager() is Some ==> {
                let m = self.spec_manager()->Some_0;
                &&& cpu_id < m.spec_cpu_count() ==> r == m.interrupts(cpu_id as int).len()
                &&& cpu_id >= m.spec_cpu_count() ==> r == 0
            },
    {
        match &self.manager {
            Some(manager) => manager.pending_count(cpu_id),
            None => 0,
        }
    }

    /// Injects a passthrough interrupt at the fixed passthrough priority.
    ///
    /// Fails with `Unsupported` when no manager is installed and with
    /// `InvalidInput` when the vCPU index is out of range.
    pub fn inject_passthrough_interrupt(&mut self, irq: u32, cpu_id: usize)
        -> (r: Result<(), DeviceError>)
        requires
            old(self).wf(),
            PASSTHROUGH_BASE + irq <= usize::MAX,
        ensures
            final(self).wf(),
            final(self).spec_mmio() == old(self).spec_mmio(),
            final(self).spec_sys_regs() == old(self).spec_sys_regs(),
            final(self).spec_ports() == old(self).spec_ports(),
            final(self).spec_ivc() == old(self).spec_ivc(),
            old(self).spec_manager() is None ==> r == Err::<(), DeviceError>(
                DeviceError::Unsupported,
            ) && *final(self) == *old(self),
            old(self).spec_manager() is Some ==> {
                let pre = old(self).spec_manager()->Some_0;
                &&& cpu_id >= pre.spec_cpu_count() ==> r == Err::<(), DeviceError>(
                    DeviceError::InvalidInput,
                )
                &&& cpu_id < pre.spec_cpu_count() ==> r is Ok && {
                    let post = final(self).spec_manager()->Some_0;
                    post.interrupts(cpu_id as int) == pre.interrupts(cpu_id as int).insert(
                        PendingNotification {
                            irq,
                            priority: PASSTHROUGH_PRIORITY,
                            device_id: DeviceId((PASSTHROUGH_BASE + irq) as usize),
                            timestamp: pre.spec_timestamp(),
                            event: crate::base::DeviceEvent::Irq(crate::base::IrqType::Primary),
                        },
                    )
                }
            },
    {
        match &mut self.manager {
            Some(manager) => manager.inject_raw(irq, cpu_id, PASSTHROUGH_PRIORITY),
            None => Err(DeviceError::Unsupported),
        }
    }

    /// Clears every vCPU's pending interrupts, pending entries and events;
    /// poll flags stay.
    pub fn clear_all_pending_interrupts(&mut self)
        requires
            old(self).wf(),
        ensures
            final(self).wf(),
            final(self).spec_mmio() == old(self).spec_mmio(),
            final(self).spec_sys_regs() == old(self).spec_sys_regs(),
            final(self).spec_ports() == old(self).spec_ports(),
            final(self).spec_ivc() == old(self).spec_ivc(),
            old(self).spec_manager() is None ==> *final(self) == *old(self),
            old(self).spec_manager() is Some ==> {
                let pre = old(self).spec_manager()->Some_0;
                let post = final(self).spec_manager()->Some_0;
                &&& final(self).spec_manager() is Some
                &&& post.polls() == pre.polls()
                &&& forall|c: int| 0 <= c < pre.spec_cpu_count()
                    ==> post.interrupts(c).len() == 0 && post.uncommitted_size(c) == 0
                        && post.events(c).len() == 0
            },
    {
        match &mut self.manager {
            Some(manager) => manager.clear_all_pending(),
            None => {}
        }
    }
}

/// Whether a configuration entry declares a usable inter-VM channel region:
/// the channel type with a non-empty window that fits the address space.
pub open spec fn ivc_config_entry(c: EmulatedDeviceConfig) -> bool {
    &&& c.emu_type == EmuDeviceType::IVCChannel
    &&& c.length >= 1
    &&& c.base_addr + c.length <= usize::MAX
}

impl AxVmDevices<VmDevice> {
    /// Builds the VM's devices from the configuration list.
    ///
    /// Recognised stub types are installed in the MMIO registry; a channel
    /// entry installs the allocator over its window, keeping the first when
    /// several are declared.  Entries that fail to install, and unrecognised
    /// or unsupported types, are skipped: bulk construction tolerates
    /// per-entry errors.
    pub fn new(config: AxVmDeviceConfig) -> (r: Self)
        ensures
            r.wf(),
            r.spec_manager() is None,
            r.spec_ivc() is Some <==> exists|i: int| 0 <= i < config.emu_configs@.len()
                && ivc_config_entry(#[trigger] config.emu_configs@[i]),
            r.spec_ivc() is Some ==> exists|i: int| {
                &&& 0 <= i < config.emu_configs@.len()
                &&& ivc_config_entry(#[trigger] config.emu_configs@[i])
                &&& forall|j: int| 0 <= j < i ==> !ivc_config_entry(config.emu_configs@[j])
                &&& r.spec_ivc()->Some_0.spec_base() == config.emu_configs@[i].base_addr
                &&& r.spec_ivc()->Some_0.spec_length() == config.emu_configs@[i].length
                &&& r.spec_ivc()->Some_0.allocations() =~= Seq::<(usize, usize)>::empty()
            },
    {
        let mut this = Self::new_empty();
        let n = config.emu_configs.len();
        let mut i: usize = 0;
        while i < n
            invariant
                n == config.emu_configs@.len(),
                i <= n,
                this.wf(),
                this.spec_manager() is None,
                this.spec_ivc() is Some <==> exists|j: int| 0 <= j < i
                    && ivc_config_entry(#[trigger] config.emu_configs@[j]),
                this.spec_ivc() is Some ==> exists|j: int| {
                    &&& 0 <= j < i
                    &&& ivc_config_entry(#[trigger] config.emu_configs@[j])
                    &&& forall|k: int| 0 <= k < j
                        ==> !ivc_config_entry(config.emu_configs@[k])
                    &&& this.spec_ivc()->Some_0.spec_base()
                        == config.emu_configs@[j].base_addr
                    &&& this.spec_ivc()->Some_0.spec_length()
                        == config.emu_configs@[j].length
                    &&& this.spec_ivc()->Some_0.allocations() =~= Seq::<(usize, usize)>::empty()
                },
            decreases n - i,
        {
            let entry = &config.emu_configs[i];
            let base = entry.base_addr;
            let length = entry.length;
            let in_bounds = usize::MAX - base >= length && length > 0;
            match entry.emu_type {
                EmuDeviceType::IVCChannel => {
                    if in_bounds && this.ivc.is_none() {
                        this.ivc = Some(IvcAllocator::new(base, length));
                    }
                }
                EmuDeviceType::Console => {
                    if in_bounds && this.mmio.can_assign_id() {
                        let dev = VmDevice::Uart(DummyUartDevice::new(base, Some(length)));
                        let _ = this.try_add_mmio_dev(dev);
                    }
                }
                EmuDeviceType::VirtioBlk | EmuDeviceType::VirtioNet
                | EmuDeviceType::VirtioConsole => {
                    if in_bounds && this.mmio.can_assign_id() {
                        let dev = VmDevice::Virtio(DummyVirtioDevice::new(base, Some(length)));
                        let _ = this.try_add_mmio_dev(dev);
                    }
                }
                EmuDeviceType::Dummy => {
                    if in_bounds && this.mmio.can_assign_id() {
                        let dev = VmDevice::Clint(DummyClintDevice::new(base, Some(length)));
                        let _ = this.try_add_mmio_dev(dev);
                    }
                }
                _ => {
                    // Architectural controllers are external collaborators;
                    // unrecognised types are skipped.
                }
            }
            i = i + 1;
        }
        this
    }
}

/// A sink for host console input: a console device implements it to accept
/// bytes forwarded from the host UART into the guest's receive queue.
pub trait ConsoleInputHandler {
    /// Forwards pending host input to the guest; returns the number of
    /// bytes forwarded.
    fn forward_input(&mut self) -> usize;
}

/// Routes host console input to a registered console device.
///
/// Registration sticks: only the first handler is kept.
pub struct ConsoleRouter<H: ConsoleInputHandler> {
    handler: Option<H>,
}

impl<H: ConsoleInputHandler> ConsoleRouter<H> {
    /// Whether a handler is registered.
    pub closed spec fn has_handler(self) -> bool {
        self.handler is Some
    }

    /// Creates a router with no registered handler.
    pub fn new() -> (r: Self)
        ensures
            !r.has_handler(),
    {
        Self { handler: None }
    }

    /// Registers the console handler; a handler registered earlier stays.
    pub fn register_console_handler(&mut self, handler: H)
        ensures
            final(self).has_handler(),
            old(self).has_handler() ==> *final(self) == *old(self),
    {
        if self.handler.is_none() {
            self.handler = Some(handler);
        }
    }

    /// Forwards pending host console input to the registered handler.
    ///
    /// Returns the number of bytes forwarded; zero when no handler is
    /// registered.
    pub fn forward_console_input(&mut self) -> (r: usize)
        ensures
            final(self).has_handler() == old(self).has_handler(),
            !old(self).has_handler() ==> r == 0,
    {
        match &mut self.handler {
            Some(handler) => handler.forward_input(),
            None => 0,
        }
    }
}

} // verus!
