use axdevice::{
    AccessWidth, DeviceError, DummyClintDevice, DummyUartDevice, DummyUartState,
    DummyVirtioDevice, DummyVirtioState,
};

#[test]
fn test_virtio_stub_header_registers() {
    let device = DummyVirtioDevice::new(0x0a00_0000, Some(0x200));

    // Magic "virt", version 2, reserved device id, vendor 0: 4-byte reads.
    assert_eq!(device.handle_virtio_read(0x000, AccessWidth::Dword), Ok(0x7472_6976));
    assert_eq!(device.handle_virtio_read(0x004, AccessWidth::Dword), Ok(2));
    assert_eq!(device.handle_virtio_read(0x008, AccessWidth::Dword), Ok(0));
    assert_eq!(device.handle_virtio_read(0x00c, AccessWidth::Dword), Ok(0));

    // Architectural offsets reject other widths.
    assert_eq!(
        device.handle_virtio_read(0x000, AccessWidth::Word),
        Err(DeviceError::BadAddress)
    );
    assert_eq!(
        device.handle_virtio_read(0x070, AccessWidth::Byte),
        Err(DeviceError::BadAddress)
    );

    // Unknown offsets read as zero for 4- and 8-byte accesses.
    assert_eq!(device.handle_virtio_read(0x0fc, AccessWidth::Dword), Ok(0));
    assert_eq!(device.handle_virtio_read(0x0fc, AccessWidth::Qword), Ok(0));
    assert_eq!(
        device.handle_virtio_read(0x0fc, AccessWidth::Byte),
        Err(DeviceError::BadAddress)
    );
}

#[test]
fn test_virtio_stub_driver_features_halves() {
    let mut device = DummyVirtioDevice::new(0x0a00_0000, None);

    device.handle_virtio_write(0x020, AccessWidth::Dword, 0x1234_5678).unwrap();
    device.handle_virtio_write(0x024, AccessWidth::Dword, 0x9abc_def0).unwrap();

    assert_eq!(device.handle_virtio_read(0x020, AccessWidth::Dword), Ok(0x1234_5678));
    assert_eq!(device.handle_virtio_read(0x024, AccessWidth::Dword), Ok(0x9abc_def0));

    // Status and queue registers store their written values.
    device.handle_virtio_write(0x070, AccessWidth::Dword, 0xf).unwrap();
    assert_eq!(device.handle_virtio_read(0x070, AccessWidth::Dword), Ok(0xf));
    device.handle_virtio_write(0x030, AccessWidth::Dword, 1).unwrap();
    assert_eq!(device.handle_virtio_read(0x030, AccessWidth::Dword), Ok(1));

    // Writes to unknown offsets are silently swallowed.
    device.handle_virtio_write(0x0fc, AccessWidth::Byte, 0xff).unwrap();
    assert_eq!(device.handle_virtio_read(0x0fc, AccessWidth::Dword), Ok(0));

    // A wrong width on a writable architectural register is rejected.
    assert_eq!(
        device.handle_virtio_write(0x070, AccessWidth::Word, 1),
        Err(DeviceError::BadAddress)
    );
}

#[test]
fn test_uart_stub_read_defaults() {
    let device = DummyUartDevice::new(0x0900_0000, None);

    // IIR: no interrupt pending; MCR: auxiliary output set; LSR:
    // transmitter empty; MSR: carrier, data-set-ready and clear-to-send.
    assert_eq!(device.handle_uart_read(0x2, AccessWidth::Byte), Ok(0x01));
    assert_eq!(device.handle_uart_read(0x4, AccessWidth::Byte), Ok(0x08));
    assert_eq!(device.handle_uart_read(0x5, AccessWidth::Byte), Ok(0x60));
    assert_eq!(device.handle_uart_read(0x6, AccessWidth::Byte), Ok(0xB0));
    assert_eq!(device.handle_uart_read(0x7, AccessWidth::Byte), Ok(0));
}

#[test]
fn test_uart_stub_write_stores_registers() {
    let mut device = DummyUartDevice::new(0x0900_0000, None);

    device.handle_uart_write(0x0, AccessWidth::Byte, 0x41).unwrap();
    device.handle_uart_write(0x1, AccessWidth::Byte, 0x0d).unwrap();
    device.handle_uart_write(0x3, AccessWidth::Byte, 0x03).unwrap();

    assert_eq!(device.handle_uart_read(0x0, AccessWidth::Byte), Ok(0x41));
    assert_eq!(device.handle_uart_read(0x1, AccessWidth::Byte), Ok(0x0d));
    assert_eq!(device.handle_uart_read(0x3, AccessWidth::Byte), Ok(0x03));

    // Writes to other registers are discarded.
    device.handle_uart_write(0x5, AccessWidth::Byte, 0x00).unwrap();
    assert_eq!(device.handle_uart_read(0x5, AccessWidth::Byte), Ok(0x60));
}

#[test]
fn test_clint_stub_reads_zero_swallows_writes() {
    let mut device = DummyClintDevice::new(0x0200_0000, None);

    assert_eq!(device.handle_clint_read(0x0, AccessWidth::Qword), Ok(0));
    assert_eq!(device.handle_clint_read(0x4000, AccessWidth::Byte), Ok(0));
    device.handle_clint_write(0x0, AccessWidth::Qword, 0x1234).unwrap();
    assert_eq!(device.handle_clint_read(0x0, AccessWidth::Qword), Ok(0));
}

#[test]
fn test_stub_states_reset_values() {
    let v = DummyVirtioState::new();
    assert_eq!(v.magic, 0x7472_6976);
    assert_eq!(v.version, 2);
    assert_eq!(v.device_id, 0);
    assert_eq!(v.status, 0);

    let u = DummyUartState::new();
    assert_eq!(u.lsr, 0x60);
    assert_eq!(u.ier, 0);
}

#[test]
fn test_access_width_sizes() {
    assert_eq!(AccessWidth::from_size(1), Some(AccessWidth::Byte));
    assert_eq!(AccessWidth::from_size(2), Some(AccessWidth::Word));
    assert_eq!(AccessWidth::from_size(4), Some(AccessWidth::Dword));
    assert_eq!(AccessWidth::from_size(8), Some(AccessWidth::Qword));
    assert_eq!(AccessWidth::from_size(3), None);
    assert_eq!(AccessWidth::Dword.size(), 4);
}
