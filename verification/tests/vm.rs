use axdevice::{
    AccessWidth, AddrRange, AxVmDeviceConfig, AxVmDevices, BaseDeviceOps, CpuAffinity,
    DeviceError, DeviceEvent, DeviceId, DeviceNotificationManager, DeviceNotifierImpl,
    EmuDeviceType, EmulatedDeviceConfig, IrqType, NotificationConfig, RegionDescriptor,
    RegionHit, VmDevice,
};

/// A test device that returns a fixed value on reads and records the last
/// write as `(offset, value)`.
struct RecordingDevice {
    range: AddrRange,
    last_write: Option<(usize, usize)>,
}

impl RecordingDevice {
    fn new(base: usize, len: usize) -> Self {
        Self { range: AddrRange::from_start_size(base, len), last_write: None }
    }
}

impl BaseDeviceOps for RecordingDevice {
    fn emu_type(&self) -> EmuDeviceType {
        EmuDeviceType::IVCChannel
    }

    fn address_ranges(&self) -> Vec<AddrRange> {
        vec![self.range]
    }

    fn handle_read(&mut self, _addr: usize, _width: AccessWidth) -> Result<usize, DeviceError> {
        Ok(0xDEAD_BEEF)
    }

    fn handle_write(
        &mut self,
        addr: usize,
        _width: AccessWidth,
        val: usize,
    ) -> Result<(), DeviceError> {
        self.last_write = Some((addr - self.range.start, val));
        Ok(())
    }

    fn region_descriptor(&self) -> Option<RegionDescriptor> {
        None
    }

    fn region_lookup(&self, _addr: usize) -> Option<RegionHit> {
        None
    }

    fn notification_config(&self) -> Option<NotificationConfig> {
        None
    }

    fn set_notifier(&mut self, _notifier: DeviceNotifierImpl) {}
}

#[test]
fn test_mmio_dispatch_functionality() {
    let mut devices: AxVmDevices<RecordingDevice> = AxVmDevices::new_empty();

    let base_addr = 0x1000_0000;
    let dev_size = 0x1000;
    let mock_dev = RecordingDevice::new(base_addr, dev_size);

    devices.try_add_mmio_dev(mock_dev).expect("registration failed");

    let write_offset = 0x40;
    let target_addr = base_addr + write_offset;
    let write_val = 0x1234_5678;

    let width = AccessWidth::from_size(4).unwrap();

    devices
        .handle_mmio_write(target_addr, width, write_val)
        .expect("MMIO write failed");

    let wrapper = devices.find_dev(target_addr).expect("device not found");
    let last = wrapper.inner().last_write;
    assert!(last.is_some(), "Device did not receive write command");
    let (off, val) = last.unwrap();
    assert_eq!(off, write_offset, "Write offset mismatch");
    assert_eq!(val, write_val, "Write value mismatch");

    let read_result = devices
        .handle_mmio_read(target_addr, width)
        .expect("MMIO read failed");

    assert_eq!(read_result, 0xDEAD_BEEF, "Read value mismatch");
}

#[test]
fn test_mmio_missing_device_not_found() {
    let mut devices: AxVmDevices<RecordingDevice> = AxVmDevices::new_empty();
    let invalid_addr = 0x9999_9999;
    let width = AccessWidth::from_size(4).unwrap();

    let result = devices.handle_mmio_read(invalid_addr, width);
    assert_eq!(result, Err(DeviceError::NotFound));
}

#[test]
fn test_scenario_interrupt_round_trip() {
    // A device with primary IRQ 32, priority 100, fixed to vCPU 0 on a
    // 2-vCPU manager: an injected event pops back exactly once.
    let mut manager = DeviceNotificationManager::new(2);
    let device_id = DeviceId(1);
    let config = NotificationConfig::interrupt(32)
        .with_priority(100)
        .with_cpu_affinity(CpuAffinity::Fixed(0));
    manager.register_notification(device_id, config).unwrap();

    manager.inject(device_id, DeviceEvent::DataReady).unwrap();

    let pending = manager.pop_pending(0).unwrap();
    assert_eq!(pending.irq, 32);
    assert_eq!(pending.priority, 100);
    assert_eq!(pending.event, DeviceEvent::DataReady);
    assert!(manager.pop_pending(0).is_none());
}

#[test]
fn test_scenario_poll_flags() {
    // A poll-method device: two data-ready events and one space-available
    // event accumulate into one flag word, and checking clears it.
    let mut manager = DeviceNotificationManager::new(1);
    let device_id = DeviceId(1);
    manager.register_notification(device_id, NotificationConfig::poll()).unwrap();

    manager.inject(device_id, DeviceEvent::DataReady).unwrap();
    manager.inject(device_id, DeviceEvent::DataReady).unwrap();
    manager.inject(device_id, DeviceEvent::SpaceAvailable).unwrap();

    let flags = manager.check_poll(device_id);
    assert_eq!(
        flags,
        DeviceEvent::DataReady.as_flag() | DeviceEvent::SpaceAvailable.as_flag()
    );
    assert_eq!(manager.check_poll(device_id), 0);
}

#[test]
fn test_scenario_transactional_commit_and_rollback() {
    let mut manager = DeviceNotificationManager::new(1);
    let device_id = DeviceId(1);
    let config = NotificationConfig::interrupt(32)
        .with_priority(100)
        .with_cpu_affinity(CpuAffinity::Fixed(0));
    manager.register_notification(device_id, config).unwrap();

    // Phase one, then confirm.
    let (cpu, entry) = manager.inject_pending(device_id, IrqType::Primary).unwrap();
    assert_eq!(manager.uncommitted_count(cpu), 1);
    assert_eq!(manager.pending_count(cpu), 0);

    manager.confirm_pending(cpu, entry);
    assert_eq!(manager.uncommitted_count(cpu), 0);
    assert_eq!(manager.pending_count(cpu), 1);
    let popped = manager.pop_pending(cpu).unwrap();
    assert_eq!(popped.irq, 32);

    // Phase one again, then roll back.
    let (cpu, entry) = manager.inject_pending(device_id, IrqType::Primary).unwrap();
    assert_eq!(manager.uncommitted_count(cpu), 1);
    manager.rollback_pending(cpu, entry);
    assert_eq!(manager.uncommitted_count(cpu), 0);
    assert_eq!(manager.pending_count(cpu), 0);
    assert!(manager.pop_pending(cpu).is_none());
}

#[test]
fn test_scenario_unplug_under_traffic() {
    // A stream of reads against a device interleaved with its removal:
    // every read either completed while the device was Active or reports an
    // error, and after the remover finishes the address is unowned.
    let mut devices: AxVmDevices<RecordingDevice> = AxVmDevices::new_empty();
    let base = 0x4000_0000;
    let id = devices
        .try_add_mmio_dev(RecordingDevice::new(base, 0x1000))
        .unwrap();
    let width = AccessWidth::Dword;

    assert_eq!(devices.handle_mmio_read(base + 0x10, width), Ok(0xDEAD_BEEF));
    assert_eq!(devices.handle_mmio_read(base + 0x20, width), Ok(0xDEAD_BEEF));

    devices.remove_mmio_dev(id).unwrap();

    assert_eq!(devices.handle_mmio_read(base + 0x10, width), Err(DeviceError::NotFound));
    assert!(devices.find_dev(base + 0x10).is_none());
}

#[test]
fn test_remove_mmio_dev_not_found() {
    let mut devices: AxVmDevices<RecordingDevice> = AxVmDevices::new_empty();
    assert_eq!(devices.remove_mmio_dev(DeviceId(5)), Err(DeviceError::NotFound));
}

#[test]
fn test_ivc_alloc_and_release() {
    let mut devices: AxVmDevices<VmDevice> = AxVmDevices::new(AxVmDeviceConfig::new(vec![
        EmulatedDeviceConfig {
            name: String::from("ivc"),
            emu_type: EmuDeviceType::IVCChannel,
            base_addr: 0x8000_0000,
            length: 0x4000,
            cfg_list: vec![],
        },
    ]));

    // An allocation lies inside the configured range.
    let a = devices.alloc_ivc_channel(0x1000).unwrap();
    assert!((0x8000_0000..0x8000_4000).contains(&a));

    // Distinct allocations never overlap.
    let b = devices.alloc_ivc_channel(0x2000).unwrap();
    assert!(a + 0x1000 <= b || b + 0x2000 <= a);

    // A zero or unaligned size is rejected.
    assert_eq!(devices.alloc_ivc_channel(0), Err(DeviceError::InvalidInput));
    assert_eq!(devices.alloc_ivc_channel(0x800), Err(DeviceError::InvalidInput));

    // Exhaustion reports no memory.
    let c = devices.alloc_ivc_channel(0x1000).unwrap();
    assert_eq!(devices.alloc_ivc_channel(0x1000), Err(DeviceError::NoMemory));

    // Releasing a channel lets an equal-sized allocation succeed again.
    devices.release_ivc_channel(b, 0x2000).unwrap();
    let d = devices.alloc_ivc_channel(0x2000).unwrap();
    assert!(a + 0x1000 <= d || d + 0x2000 <= a);
    assert!(c + 0x1000 <= d || d + 0x2000 <= c);

    // A release must match a prior allocation exactly.
    assert_eq!(
        devices.release_ivc_channel(d + 0x10, 0x2000),
        Err(DeviceError::InvalidInput)
    );
}

#[test]
fn test_ivc_unconfigured_is_unsupported() {
    let mut devices: AxVmDevices<VmDevice> = AxVmDevices::new_empty();
    assert_eq!(devices.alloc_ivc_channel(0x1000), Err(DeviceError::Unsupported));
    assert_eq!(
        devices.release_ivc_channel(0x8000_0000, 0x1000),
        Err(DeviceError::Unsupported)
    );
}

#[test]
fn test_facade_constructs_stubs_from_config() {
    let config = AxVmDeviceConfig::new(vec![
        EmulatedDeviceConfig {
            name: String::from("uart"),
            emu_type: EmuDeviceType::Console,
            base_addr: 0x0900_0000,
            length: 0x1000,
            cfg_list: vec![],
        },
        EmulatedDeviceConfig {
            name: String::from("virtio"),
            emu_type: EmuDeviceType::VirtioBlk,
            base_addr: 0x0a00_0000,
            length: 0x200,
            cfg_list: vec![],
        },
        EmulatedDeviceConfig {
            name: String::from("clint"),
            emu_type: EmuDeviceType::Dummy,
            base_addr: 0x0200_0000,
            length: 0x10000,
            cfg_list: vec![],
        },
        EmulatedDeviceConfig {
            name: String::from("gic"),
            emu_type: EmuDeviceType::InterruptController,
            base_addr: 0x0800_0000,
            length: 0x10000,
            cfg_list: vec![],
        },
    ]);
    let mut devices = AxVmDevices::new(config);

    // The UART stub reports the transmitter empty at the line-status
    // register.
    let lsr = devices.handle_mmio_read(0x0900_0005, AccessWidth::Byte).unwrap();
    assert_eq!(lsr, 0x60);

    // The VirtIO stub answers its magic at offset zero, 4-byte access.
    let magic = devices.handle_mmio_read(0x0a00_0000, AccessWidth::Dword).unwrap();
    assert_eq!(magic, 0x7472_6976);

    // The CLINT stub reads as zero.
    let zero = devices.handle_mmio_read(0x0200_0008, AccessWidth::Qword).unwrap();
    assert_eq!(zero, 0);

    // The architectural interrupt controller is an external collaborator
    // and is skipped.
    assert_eq!(
        devices.handle_mmio_read(0x0800_0000, AccessWidth::Dword),
        Err(DeviceError::NotFound)
    );
}

#[test]
fn test_passthrough_interrupt_injection() {
    let mut devices: AxVmDevices<VmDevice> = AxVmDevices::new_empty();

    // No manager installed yet.
    assert_eq!(
        devices.inject_passthrough_interrupt(77, 0),
        Err(DeviceError::Unsupported)
    );

    devices.init_interrupt_manager(2);
    devices.inject_passthrough_interrupt(77, 1).unwrap();
    assert_eq!(devices.pending_interrupt_count(1), 1);

    let pending = devices.pop_pending_interrupt(1).unwrap();
    assert_eq!(pending.irq, 77);
    assert_eq!(pending.priority, 50);
    assert!(pending.device_id.is_passthrough());
    assert!(devices.pop_pending_interrupt(1).is_none());

    // An out-of-range vCPU is rejected.
    assert_eq!(
        devices.inject_passthrough_interrupt(78, 9),
        Err(DeviceError::InvalidInput)
    );
}

#[test]
fn test_clear_all_pending_interrupts() {
    let mut devices: AxVmDevices<VmDevice> = AxVmDevices::new_empty();
    devices.init_interrupt_manager(1);
    devices.inject_passthrough_interrupt(10, 0).unwrap();
    devices.inject_passthrough_interrupt(11, 0).unwrap();
    assert_eq!(devices.pending_interrupt_count(0), 2);

    devices.clear_all_pending_interrupts();
    assert_eq!(devices.pending_interrupt_count(0), 0);
}

#[test]
fn test_pio_access_size_mapping() {
    let mut devices: AxVmDevices<RecordingDevice> = AxVmDevices::new_empty();
    devices
        .try_add_port_dev(RecordingDevice::new(0x60, 0x10))
        .unwrap();

    let v = devices.handle_pio_read(0x64, 4).unwrap();
    assert_eq!(v, 0xDEAD_BEEF);

    devices.handle_pio_write(0x64, 2, 0xBEEF).unwrap();
    let wrapper = devices.find_dev(0x9999_9999);
    assert!(wrapper.is_none());

    // An unsupported access size is rejected.
    assert_eq!(devices.handle_pio_read(0x64, 3), Err(DeviceError::InvalidInput));
    assert_eq!(
        devices.handle_pio_write(0x64, 5, 0),
        Err(DeviceError::InvalidInput)
    );
}

#[test]
fn test_remove_sys_reg_and_port_devs() {
    let mut devices: AxVmDevices<RecordingDevice> = AxVmDevices::new_empty();
    let width = AccessWidth::Dword;

    let sys_id = devices
        .try_add_sys_reg_dev(RecordingDevice::new(0x100, 0x10))
        .unwrap();
    let port_id = devices
        .try_add_port_dev(RecordingDevice::new(0x60, 0x10))
        .unwrap();

    assert_eq!(devices.handle_sys_reg_read(0x104, width), Ok(0xDEAD_BEEF));
    assert_eq!(devices.handle_port_read(0x64, width), Ok(0xDEAD_BEEF));

    devices.remove_sys_reg_dev(sys_id).unwrap();
    devices.remove_port_dev(port_id).unwrap();

    assert_eq!(devices.handle_sys_reg_read(0x104, width), Err(DeviceError::NotFound));
    assert_eq!(devices.handle_port_read(0x64, width), Err(DeviceError::NotFound));
    assert_eq!(devices.remove_port_dev(port_id), Err(DeviceError::NotFound));
}
