use axdevice::{
    AccessWidth, AddrRange, BaseDeviceOps, CachedRegions, DeviceCell, DeviceError, DeviceId,
    DeviceNotifierImpl, DeviceRegion, DeviceRegistry, DeviceWrapper, EmuDeviceType,
    NotificationConfig, Permissions, RegionDescriptor, RegionHit, RegionType, REGION_CONTROL,
    REGION_DATA,
};

#[test]
fn test_device_cell_basic() {
    let mut cell = DeviceCell::new(42);
    assert_eq!(*cell.get(), 42);
    *cell.get_mut() = 100;
    assert_eq!(*cell.get(), 100);
}

#[test]
fn test_device_cell_replace() {
    let mut cell = DeviceCell::new(1);
    let old = cell.replace(2);
    assert_eq!(old, 1);
    assert_eq!(*cell.get(), 2);
}

#[test]
fn test_device_cell_into_inner() {
    let cell = DeviceCell::new(42);
    assert_eq!(cell.into_inner(), 42);
}

#[test]
fn test_cached_regions_basic() {
    let desc = RegionDescriptor::new()
        .with_region(
            DeviceRegion::new(REGION_CONTROL, "control", 0x1000, 0x100)
                .with_type(RegionType::Control),
        )
        .with_region(
            DeviceRegion::new(REGION_DATA, "data", 0x2000, 0x1000)
                .with_type(RegionType::Data)
                .with_permissions(Permissions::ReadOnly),
        );

    let cached = CachedRegions::from_descriptor(&desc);
    assert_eq!(cached.len(), 2);

    // Test lookup in control region
    let hit = cached.lookup(0x1050).unwrap();
    assert_eq!(hit.region_id, REGION_CONTROL);
    assert_eq!(hit.offset, 0x50);
    assert_eq!(hit.region_type, RegionType::Control);

    // Test lookup in data region
    let hit = cached.lookup(0x2500).unwrap();
    assert_eq!(hit.region_id, REGION_DATA);
    assert_eq!(hit.offset, 0x500);
    assert_eq!(hit.permissions, Permissions::ReadOnly);

    // Test lookup miss
    assert!(cached.lookup(0x500).is_none());
    assert!(cached.lookup(0x3000).is_none());
}

#[test]
fn test_cached_regions_update() {
    let desc1 = RegionDescriptor::new()
        .with_region(DeviceRegion::new(REGION_CONTROL, "control", 0x1000, 0x100));

    let mut cached = CachedRegions::from_descriptor(&desc1);
    assert_eq!(cached.len(), 1);
    assert_eq!(cached.version(), 0);

    // Update with new descriptor
    let desc2 = RegionDescriptor::new()
        .with_region(DeviceRegion::new(REGION_CONTROL, "control", 0x2000, 0x100))
        .with_region(DeviceRegion::new(REGION_DATA, "data", 0x3000, 0x200));

    cached.update(&desc2);
    assert_eq!(cached.len(), 2);
    assert_eq!(cached.version(), 1);

    // Old address should no longer hit
    assert!(cached.lookup(0x1050).is_none());

    // New address should hit
    let hit = cached.lookup(0x2050).unwrap();
    assert_eq!(hit.region_id, REGION_CONTROL);
}

struct MockDevice {
    ranges: Vec<AddrRange>,
}

impl BaseDeviceOps for MockDevice {
    fn emu_type(&self) -> EmuDeviceType {
        EmuDeviceType::Console
    }

    fn address_ranges(&self) -> Vec<AddrRange> {
        self.ranges.clone()
    }

    fn handle_read(&mut self, _addr: usize, _width: AccessWidth) -> Result<usize, DeviceError> {
        Ok(0x42)
    }

    fn handle_write(
        &mut self,
        _addr: usize,
        _width: AccessWidth,
        _val: usize,
    ) -> Result<(), DeviceError> {
        Ok(())
    }

    fn region_descriptor(&self) -> Option<RegionDescriptor> {
        None
    }

    fn region_lookup(&self, _addr: usize) -> Option<RegionHit> {
        None
    }

    fn notification_config(&self) -> Option<NotificationConfig> {
        None
    }

    fn set_notifier(&mut self, _notifier: DeviceNotifierImpl) {}
}

#[test]
fn test_wrapper_basic_access() {
    let device = MockDevice { ranges: vec![AddrRange::from_start_size(0x1000, 0x100)] };
    let mut wrapper = DeviceWrapper::new(DeviceId(1), device);

    // Test read
    let result = wrapper.try_access_for_read(0x1000, AccessWidth::Dword);
    assert!(result.is_ok());
    assert_eq!(result.unwrap(), 0x42);
    assert_eq!(wrapper.stats().reads(), 1);

    // Test write
    let result = wrapper.try_access_for_write(0x1000, AccessWidth::Dword, 100);
    assert!(result.is_ok());
    assert_eq!(wrapper.stats().writes(), 1);
}

#[test]
fn test_wrapper_removal() {
    let device = MockDevice { ranges: vec![AddrRange::from_start_size(0x1000, 0x100)] };
    let mut wrapper = DeviceWrapper::new(DeviceId(1), device);

    assert!(wrapper.is_active());

    // Begin removal
    assert!(wrapper.begin_removal());
    assert!(wrapper.is_removing());

    // Access should be denied
    let result = wrapper.try_access_for_read(0x1000, AccessWidth::Dword);
    assert!(result.is_err());
    assert_eq!(wrapper.stats().errors(), 1);

    // Complete removal
    wrapper.wait_idle();
    wrapper.complete_removal();
    assert!(wrapper.is_removed());
}

#[test]
fn test_registry_add_and_lookup() {
    let mut registry = DeviceRegistry::new();

    let device = MockDevice { ranges: vec![AddrRange::from_start_size(0x1000, 0x100)] };

    let _id = registry.add_device(device).unwrap();
    assert_eq!(registry.device_count(), 1);

    // Test read
    let result = registry.handle_read(0x1050, AccessWidth::Dword);
    assert!(result.is_ok());
    assert_eq!(result.unwrap(), 0x42);

    // Test write
    let result = registry.handle_write(0x1050, AccessWidth::Dword, 100);
    assert!(result.is_ok());

    // Test out of range
    let result = registry.handle_read(0x2000, AccessWidth::Dword);
    assert!(result.is_err());
}

#[test]
fn test_registry_removal() {
    let mut registry = DeviceRegistry::new();

    let device = MockDevice { ranges: vec![AddrRange::from_start_size(0x1000, 0x100)] };

    let id = registry.add_device(device).unwrap();
    assert_eq!(registry.device_count(), 1);

    // Remove device
    registry.remove_device(id).unwrap();
    assert_eq!(registry.device_count(), 0);

    // Access should fail
    let result = registry.handle_read(0x1050, AccessWidth::Dword);
    assert!(result.is_err());
}

#[test]
fn test_registry_multi_range_device() {
    let mut registry = DeviceRegistry::new();

    let device = MockDevice {
        ranges: vec![
            AddrRange::from_start_size(0x1000, 0x100),
            AddrRange::from_start_size(0x2000, 0x100),
        ],
    };

    registry.add_device(device).unwrap();

    // Both ranges should work
    assert!(registry.handle_read(0x1050, AccessWidth::Dword).is_ok());
    assert!(registry.handle_read(0x2050, AccessWidth::Dword).is_ok());

    // Between ranges should fail
    assert!(registry.handle_read(0x1800, AccessWidth::Dword).is_err());
}

#[test]
fn test_registry_rejects_overlap() {
    let mut registry = DeviceRegistry::new();

    let first = MockDevice { ranges: vec![AddrRange::from_start_size(0x1000, 0x100)] };
    registry.add_device(first).unwrap();

    let second = MockDevice { ranges: vec![AddrRange::from_start_size(0x1080, 0x100)] };
    let result = registry.add_device(second);
    assert_eq!(result, Err(DeviceError::AlreadyExists));
    assert_eq!(registry.device_count(), 1);
}

#[test]
fn test_registry_rejects_empty_ranges() {
    let mut registry = DeviceRegistry::new();
    let device = MockDevice { ranges: vec![] };
    let result = registry.add_device(device);
    assert_eq!(result, Err(DeviceError::InvalidInput));
}

#[test]
fn test_registry_stats_and_listing() {
    let mut registry = DeviceRegistry::new();
    let device = MockDevice { ranges: vec![AddrRange::from_start_size(0x1000, 0x100)] };
    let id = registry.add_device(device).unwrap();

    registry.handle_read(0x1000, AccessWidth::Dword).unwrap();
    registry.handle_read(0x1004, AccessWidth::Dword).unwrap();
    registry.handle_write(0x1008, AccessWidth::Dword, 7).unwrap();

    let (reads, writes, errors) = registry.get_device_stats(id).unwrap();
    assert_eq!((reads, writes, errors), (2, 1, 0));

    let listed = registry.list_devices();
    assert_eq!(listed, vec![id]);
}
