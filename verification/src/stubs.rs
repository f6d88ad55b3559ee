//! Fallback MMIO responders that satisfy probing guests when no real
//! backend is wired in: a VirtIO MMIO header stub, a 16550 UART stub and a
//! CLINT-style stub.

use vstd::prelude::*;

use crate::base::{AccessWidth, AddrRange, NotificationConfig};
use crate::device_cell::DeviceCell;
use crate::devops::{BaseDeviceOps, EmuDeviceType};
use crate::errors::DeviceError;
use crate::notifier::DeviceNotifierImpl;
use crate::region::{RegionDescriptor, RegionHit};

verus! {

/// The VirtIO MMIO magic value, "virt" in little endian.
pub const VIRTIO_MAGIC: u32 = 0x7472_6976;

/// The VirtIO MMIO interface version exposed by the stub.
pub const VIRTIO_VERSION: u32 = 2;

/// Register state of the VirtIO MMIO stub.
///
/// The device id stays 0 (reserved), so a probing guest skips the slot
/// without crashing.
#[derive(Debug, Clone, Copy, PartialEq, Eq, Structural)]
pub struct DummyVirtioState {
    /// Magic value register.
    pub magic: u32,
    /// Interface version register.
    pub version: u32,
    /// Device id register; 0 means reserved.
    pub device_id: u32,
    /// Vendor id register.
    pub vendor: u32,
    /// Device feature bits.
    pub features: u64,
    /// Driver feature bits, written by the guest.
    pub driver_features: u64,
    /// Queue selector.
    pub queue_sel: u32,
    /// Queue size.
    pub queue_size: u32,
    /// Queue-ready flag.
    pub queue_ready: u32,
    /// Queue-notify doorbell.
    pub queue_notification: u32,
    /// Device status.
    pub status: u32,
}

impl DummyVirtioState {
    /// Creates the reset state of the VirtIO MMIO stub.
    pub fn new() -> (r: Self)
        ensures
            r == (DummyVirtioState {
                magic: VIRTIO_MAGIC,
                version: VIRTIO_VERSION,
                device_id: 0,
                vendor: 0,
                features: 0,
                driver_features: 0,
                queue_sel: 0,
                queue_size: 0,
                queue_ready: 0,
                queue_notification: 0,
                status: 0,
            }),
    {
        Self {
            magic: VIRTIO_MAGIC,
            version: VIRTIO_VERSION,
            device_id: 0,
            vendor: 0,
            features: 0,
            driver_features: 0,
            queue_sel: 0,
            queue_size: 0,
            queue_ready: 0,
            queue_notification: 0,
            status: 0,
        }
    }
}

/// What a VirtIO MMIO stub read returns: the architectural registers honour
/// 4-byte accesses only and other widths fail with `BadAddress`; unknown
/// offsets read as zero for 4- and 8-byte accesses.
pub open spec fn virtio_read_spec(s: DummyVirtioState, offset: usize, width: AccessWidth)
    -> Result<usize, DeviceError>
{
    if offset == 0x000 || offset == 0x004 || offset == 0x008 || offset == 0x00c
        || offset == 0x010 || offset == 0x014 || offset == 0x020 || offset == 0x024
        || offset == 0x030 || offset == 0x034 || offset == 0x044 || offset == 0x050
        || offset == 0x070 {
        if width != AccessWidth::Dword {
            Err(DeviceError::BadAddress)
        } else if offset == 0x000 {
            Ok(s.magic as usize)
        } else if offset == 0x004 {
            Ok(s.version as usize)
        } else if offset == 0x008 {
            Ok(s.device_id as usize)
        } else if offset == 0x00c {
            Ok(s.vendor as usize)
        } else if offset == 0x010 {
            Ok((s.features & 0xFFFF_FFFF) as usize)
        } else if offset == 0x014 {
            Ok((s.features >> 32u64) as usize)
        } else if offset == 0x020 {
            Ok((s.driver_features & 0xFFFF_FFFF) as usize)
        } else if offset == 0x024 {
            Ok((s.driver_features >> 32u64) as usize)
        } else if offset == 0x030 {
            Ok(s.queue_sel as usize)
        } else if offset == 0x034 {
            Ok(s.queue_size as usize)
        } else if offset == 0x044 {
            Ok(s.queue_ready as usize)
        } else if offset == 0x050 {
            Ok(s.queue_notification as usize)
        } else {
            Ok(s.status as usize)
        }
    } else if width == AccessWidth::Dword || width == AccessWidth::Qword {
        Ok(0)
    } else {
        Err(DeviceError::BadAddress)
    }
}

/// What a VirtIO MMIO stub write does: the writable architectural registers
/// honour 4-byte accesses only and other widths fail with `BadAddress`;
/// writes to any other offset are silently swallowed.
pub open spec fn virtio_write_spec(
    s: DummyVirtioState,
    offset: usize,
    width: AccessWidth,
    val: usize,
) -> Result<DummyVirtioState, DeviceError> {
    if offset == 0x020 || offset == 0x024 || offset == 0x030 || offset == 0x038
        || offset == 0x044 || offset == 0x050 || offset == 0x070 {
        if width != AccessWidth::Dword {
            Err(DeviceError::BadAddress)
        } else if offset == 0x020 {
            Ok(DummyVirtioState {
                driver_features: (s.driver_features & 0xFFFF_FFFF_0000_0000)
                    | ((val as u64) & 0xFFFF_FFFF),
                ..s
            })
        } else if offset == 0x024 {
            Ok(DummyVirtioState {
                driver_features: (s.driver_features & 0xFFFF_FFFF)
                    | ((((val as u64) & 0xFFFF_FFFF) << 32u64) as u64),
                ..s
            })
        } else if offset == 0x030 {
            Ok(DummyVirtioState { queue_sel: val as u32, ..s })
        } else if offset == 0x038 {
            // Guest-physical queue address: ignored by the stub.
            Ok(s)
        } else if offset == 0x044 {
            Ok(DummyVirtioState { queue_ready: val as u32, ..s })
        } else if offset == 0x050 {
            Ok(DummyVirtioState { queue_notification: val as u32, ..s })
        } else {
            Ok(DummyVirtioState { status: val as u32, ..s })
        }
    } else {
        Ok(s)
    }
}

/// A VirtIO MMIO stub device.
///
/// It answers the VirtIO MMIO register map at the well-known offsets with a
/// reserved device id, so a probing guest walks past the slot.
pub struct DummyVirtioDevice {
    range: AddrRange,
    state: DeviceCell<DummyVirtioState>,
}

/// Default MMIO window size of the VirtIO and UART stubs.
pub const STUB_DEFAULT_SIZE: usize = 0x1000;

/// Default MMIO window size of the CLINT stub.
pub const CLINT_DEFAULT_SIZE: usize = 0x10000;

impl DummyVirtioDevice {
    /// The stub's MMIO range.
    pub closed spec fn spec_range(self) -> AddrRange {
        self.range
    }

    /// The stub's register state.
    pub closed spec fn spec_state(self) -> DummyVirtioState {
        self.state.spec_value()
    }

    /// Creates a VirtIO MMIO stub at a base address; the window size
    /// defaults to one page.
    pub fn new(base: usize, size: Option<usize>) -> (r: Self)
        requires
            base + (if size is Some { size->Some_0 } else { STUB_DEFAULT_SIZE }) <= usize::MAX,
        ensures
            r.spec_range().start == base,
            r.spec_range().end == base
                + if size is Some { size->Some_0 as int } else { STUB_DEFAULT_SIZE as int },
            r.spec_state() == (DummyVirtioState {
                magic: VIRTIO_MAGIC,
                version: VIRTIO_VERSION,
                device_id: 0,
                vendor: 0,
                features: 0,
                driver_features: 0,
                queue_sel: 0,
                queue_size: 0,
                queue_ready: 0,
                queue_notification: 0,
                status: 0,
            }),
    {
        let len = match size {
            Some(s) => s,
            None => STUB_DEFAULT_SIZE,
        };
        Self {
            range: AddrRange::from_start_size(base, len),
            state: DeviceCell::new(DummyVirtioState::new()),
        }
    }

    /// Reads a VirtIO MMIO stub register by offset.
    pub fn handle_virtio_read(&self, offset: usize, width: AccessWidth)
        -> (r: Result<usize, DeviceError>)
        ensures
            r == virtio_read_spec(self.spec_state(), offset, width),
    {
        let s = self.state.get();
        match offset {
            0x000 => if width == AccessWidth::Dword {
                Ok(s.magic as usize)
            } else {
                Err(DeviceError::BadAddress)
            },
            0x004 => if width == AccessWidth::Dword {
                Ok(s.version as usize)
            } else {
                Err(DeviceError::BadAddress)
            },
            0x008 => if width == AccessWidth::Dword {
                Ok(s.device_id as usize)
            } else {
                Err(DeviceError::BadAddress)
            },
            0x00c => if width == AccessWidth::Dword {
                Ok(s.vendor as usize)
            } else {
                Err(DeviceError::BadAddress)
            },
            0x010 => if width == AccessWidth::Dword {
                Ok((s.features & 0xFFFF_FFFF) as usize)
            } else {
                Err(DeviceError::BadAddress)
            },
            0x014 => if width == AccessWidth::Dword {
                Ok((s.features >> 32u64) as usize)
            } else {
                Err(DeviceError::BadAddress)
            },
            0x020 => if width == AccessWidth::Dword {
                Ok((s.driver_features & 0xFFFF_FFFF) as usize)
            } else {
                Err(DeviceError::BadAddress)
            },
            0x024 => if width == AccessWidth::Dword {
                Ok((s.driver_features >> 32u64) as usize)
            } else {
                Err(DeviceError::BadAddress)
            },
            0x030 => if width == AccessWidth::Dword {
                Ok(s.queue_sel as usize)
            } else {
                Err(DeviceError::BadAddress)
            },
            0x034 => if width == AccessWidth::Dword {
                Ok(s.queue_size as usize)
            } else {
                Err(DeviceError::BadAddress)
            },
            0x044 => if width == AccessWidth::Dword {
                Ok(s.queue_ready as usize)
            } else {
                Err(DeviceError::BadAddress)
            },
            0x050 => if width == AccessWidth::Dword {
                Ok(s.queue_notification as usize)
            } else {
                Err(DeviceError::BadAddress)
            },
            0x070 => if width == AccessWidth::Dword {
                Ok(s.status as usize)
            } else {
                Err(DeviceError::BadAddress)
            },
            _ => match width {
                AccessWidth::Dword => Ok(0),
                AccessWidth::Qword => Ok(0),
                _ => Err(DeviceError::BadAddress),
            },
        }
    }

    /// Writes a VirtIO MMIO stub register by offset.
    pub fn handle_virtio_write(&mut self, offset: usize, width: AccessWidth, val: usize)
        -> (r: Result<(), DeviceError>)
        ensures
            virtio_write_spec(old(self).spec_state(), offset, width, val) is Ok ==> r is Ok
                && final(self).spec_state()
                    == virtio_write_spec(old(self).spec_state(), offset, width, val)->Ok_0,
            virtio_write_spec(old(self).spec_state(), offset, width, val) is Err ==> {
                &&& r == Err::<(), DeviceError>(
                    virtio_write_spec(old(self).spec_state(), offset, width, val)->Err_0,
                )
                &&& final(self).spec_state() == old(self).spec_state()
            },
            final(self).spec_range() == old(self).spec_range(),
    {
        let s = self.state.get_mut();
        match offset {
            0x020 => if width == AccessWidth::Dword {
                s.driver_features = (s.driver_features & 0xFFFF_FFFF_0000_0000)
                    | ((val as u64) & 0xFFFF_FFFF);
                Ok(())
            } else {
                Err(DeviceError::BadAddress)
            },
            0x024 => if width == AccessWidth::Dword {
                s.driver_features = (s.driver_features & 0xFFFF_FFFF)
                    | (((val as u64) & 0xFFFF_FFFF) << 32u64);
                Ok(())
            } else {
                Err(DeviceError::BadAddress)
            },
            0x030 => if width == AccessWidth::Dword {
                s.queue_sel = val as u32;
                Ok(())
            } else {
                Err(DeviceError::BadAddress)
            },
            0x038 => if width == AccessWidth::Dword {
                // Guest-physical queue address: ignored by the stub.
                Ok(())
            } else {
                Err(DeviceError::BadAddress)
            },
            0x044 => if width == AccessWidth::Dword {
                s.queue_ready = val as u32;
                Ok(())
            } else {
                Err(DeviceError::BadAddress)
            },
            0x050 => if width == AccessWidth::Dword {
                s.queue_notification = val as u32;
                Ok(())
            } else {
                Err(DeviceError::BadAddress)
            },
            0x070 => if width == AccessWidth::Dword {
                s.status = val as u32;
                Ok(())
            } else {
                Err(DeviceError::BadAddress)
            },
            _ => Ok(()),
        }
    }
}

impl BaseDeviceOps for DummyVirtioDevice {
    fn emu_type(&self) -> EmuDeviceType {
        EmuDeviceType::VirtioBlk
    }

    fn address_ranges(&self) -> Vec<AddrRange> {
        let mut ranges: Vec<AddrRange> = Vec::new();
        ranges.push(self.range);
        ranges
    }

    fn handle_read(&mut self, addr: usize, width: AccessWidth)
        -> Result<usize, DeviceError> {
        if addr < self.range.start {
            return Err(DeviceError::BadAddress);
        }
        let offset = addr - self.range.start;
        self.handle_virtio_read(offset, width)
    }

    fn handle_write(&mut self, addr: usize, width: AccessWidth, val: usize)
        -> Result<(), DeviceError> {
        if addr < self.range.start {
            return Err(DeviceError::BadAddress);
        }
        let offset = addr - self.range.start;
        self.handle_virtio_write(offset, width, val)
    }

    fn region_descriptor(&self) -> (r: Option<RegionDescriptor>) {
        None
    }

    fn region_lookup(&self, addr: usize) -> Option<RegionHit> {
        let _ = addr;
        None
    }

    fn notification_config(&self) -> Option<NotificationConfig> {
        None
    }

    fn set_notifier(&mut self, notifier: DeviceNotifierImpl) {
        let _ = notifier;
    }
}

/// Register state of the 16550 UART stub.
#[derive(Debug, Clone, Copy, PartialEq, Eq, Structural)]
pub struct DummyUartState {
    /// Receive/transmit holding register.
    pub rhr_thr: u8,
    /// Interrupt enable register.
    pub ier: u8,
    /// FIFO control register.
    pub fcr: u8,
    /// Line control register.
    pub lcr: u8,
    /// Line status register.
    pub lsr: u8,
}

/// Line-status reset value: transmit holding and shift registers empty, so
/// the guest's driver always finds the UART ready to accept output.
pub const UART_LSR_TX_EMPTY: u8 = 0x60;

/// Interrupt-identification value meaning no interrupt pending.
pub const UART_IIR_NONE: u8 = 0x01;

/// Modem-control value with the auxiliary output set, enabling the IRQ line.
pub const UART_MCR_OUT2: u8 = 0x08;

/// Modem-status value with carrier detect, data set ready and clear to
/// send, so the guest's tty layer does not block waiting for a carrier.
pub const UART_MSR_READY: u8 = 0xB0;

impl DummyUartState {
    /// Creates the reset state of the UART stub.
    pub fn new() -> (r: Self)
        ensures
            r == (DummyUartState { rhr_thr: 0, ier: 0, fcr: 0, lcr: 0, lsr: UART_LSR_TX_EMPTY }),
    {
        Self { rhr_thr: 0, ier: 0, fcr: 0, lcr: 0, lsr: UART_LSR_TX_EMPTY }
    }
}

/// What a UART stub read returns, by register offset; unknown offsets read
/// as zero.
pub open spec fn uart_read_spec(s: DummyUartState, offset: usize) -> usize {
    if offset == 0x0 {
        s.rhr_thr as usize
    } else if offset == 0x1 {
        s.ier as usize
    } else if offset == 0x2 {
        UART_IIR_NONE as usize
    } else if offset == 0x3 {
        s.lcr as usize
    } else if offset == 0x4 {
        UART_MCR_OUT2 as usize
    } else if offset == 0x5 {
        s.lsr as usize
    } else if offset == 0x6 {
        UART_MSR_READY as usize
    } else {
        0
    }
}

/// What a UART stub write does: the holding, interrupt-enable, FIFO-control
/// and line-control registers are stored, all others are discarded.
pub open spec fn uart_write_spec(s: DummyUartState, offset: usize, val: usize)
    -> DummyUartState
{
    if offset == 0x0 {
        DummyUartState { rhr_thr: val as u8, ..s }
    } else if offset == 0x1 {
        DummyUartState { ier: val as u8, ..s }
    } else if offset == 0x2 {
        DummyUartState { fcr: val as u8, ..s }
    } else if offset == 0x3 {
        DummyUartState { lcr: val as u8, ..s }
    } else {
        s
    }
}

/// A 16550 UART stub device.
///
/// Reads return plausible defaults — no interrupt pending, transmitter
/// empty, carrier present — so guest drivers neither block nor crash;
/// output written to the holding register is silently consumed.
pub struct DummyUartDevice {
    range: AddrRange,
    state: DeviceCell<DummyUartState>,
}

impl DummyUartDevice {
    /// The stub's MMIO range.
    pub closed spec fn spec_range(self) -> AddrRange {
        self.range
    }

    /// The stub's register state.
    pub closed spec fn spec_state(self) -> DummyUartState {
        self.state.spec_value()
    }

    /// Creates a UART stub at a base address; the window size defaults to
    /// one page.
    pub fn new(base: usize, size: Option<usize>) -> (r: Self)
        requires
            base + (if size is Some { size->Some_0 } else { STUB_DEFAULT_SIZE }) <= usize::MAX,
        ensures
            r.spec_range().start == base,
            r.spec_range().end == base
                + if size is Some { size->Some_0 as int } else { STUB_DEFAULT_SIZE as int },
            r.spec_state() == (DummyUartState {
                rhr_thr: 0,
                ier: 0,
                fcr: 0,
                lcr: 0,
                lsr: UART_LSR_TX_EMPTY,
            }),
    {
        let len = match size {
            Some(s) => s,
            None => STUB_DEFAULT_SIZE,
        };
        Self {
            range: AddrRange::from_start_size(base, len),
            state: DeviceCell::new(DummyUartState::new()),
        }
    }

    /// Reads a UART stub register by offset; every width is honoured.
    pub fn handle_uart_read(&self, offset: usize, width: AccessWidth)
        -> (r: Result<usize, DeviceError>)
        ensures
            r == Ok::<usize, DeviceError>(uart_read_spec(self.spec_state(), offset)),
    {
        let _ = width;
        let s = self.state.get();
        let val: usize = match offset {
            0x0 => s.rhr_thr as usize,
            0x1 => s.ier as usize,
            0x2 => UART_IIR_NONE as usize,
            0x3 => s.lcr as usize,
            0x4 => UART_MCR_OUT2 as usize,
            0x5 => s.lsr as usize,
            0x6 => UART_MSR_READY as usize,
            _ => 0,
        };
        Ok(val)
    }

    /// Writes a UART stub register by offset; every width is honoured.
    pub fn handle_uart_write(&mut self, offset: usize, width: AccessWidth, val: usize)
        -> (r: Result<(), DeviceError>)
        ensures
            r is Ok,
            final(self).spec_state() == uart_write_spec(old(self).spec_state(), offset, val),
            final(self).spec_range() == old(self).spec_range(),
    {
        let _ = width;
        let s = self.state.get_mut();
        match offset {
            0x0 => {
                s.rhr_thr = val as u8;
            }
            0x1 => {
                s.ier = val as u8;
            }
            0x2 => {
                s.fcr = val as u8;
            }
            0x3 => {
                s.lcr = val as u8;
            }
            _ => {}
        }
        Ok(())
    }
}

impl BaseDeviceOps for DummyUartDevice {
    fn emu_type(&self) -> EmuDeviceType {
        EmuDeviceType::Console
    }

    fn address_ranges(&self) -> Vec<AddrRange> {
        let mut ranges: Vec<AddrRange> = Vec::new();
        ranges.push(self.range);
        ranges
    }

    fn handle_read(&mut self, addr: usize, width: AccessWidth)
        -> Result<usize, DeviceError> {
        if addr < self.range.start {
            return Err(DeviceError::BadAddress);
        }
        let offset = addr - self.range.start;
        self.handle_uart_read(offset, width)
    }

    fn handle_write(&mut self, addr: usize, width: AccessWidth, val: usize)
        -> Result<(), DeviceError> {
        if addr < self.range.start {
            return Err(DeviceError::BadAddress);
        }
        let offset = addr - self.range.start;
        self.handle_uart_write(offset, width, val)
    }

    fn region_descriptor(&self) -> (r: Option<RegionDescriptor>) {
        None
    }

    fn region_lookup(&self, addr: usize) -> Option<RegionHit> {
        let _ = addr;
        None
    }

    fn notification_config(&self) -> Option<NotificationConfig> {
        None
    }

    fn set_notifier(&mut self, notifier: DeviceNotifierImpl) {
        let _ = notifier;
    }
}

/// A CLINT-style stub device: reads return zero and writes are discarded,
/// so guest probes of the timer block do not abort.
pub struct DummyClintDevice {
    range: AddrRange,
}

impl DummyClintDevice {
    /// The stub's MMIO range.
    pub closed spec fn spec_range(self) -> AddrRange {
        self.range
    }

    /// Creates a CLINT stub at a base address; the window size defaults to
    /// 64 KiB.
    pub fn new(base: usize, size: Option<usize>) -> (r: Self)
        requires
            base + (if size is Some { size->Some_0 } else { CLINT_DEFAULT_SIZE }) <= usize::MAX,
        ensures
            r.spec_range().start == base,
            r.spec_range().end == base
                + if size is Some { size->Some_0 as int } else { CLINT_DEFAULT_SIZE as int },
    {
        let len = match size {
            Some(s) => s,
            None => CLINT_DEFAULT_SIZE,
        };
        Self { range: AddrRange::from_start_size(base, len) }
    }

    /// Reads a CLINT stub register: always zero.
    pub fn handle_clint_read(&self, offset: usize, width: AccessWidth)
        -> (r: Result<usize, DeviceError>)
        ensures
            r == Ok::<usize, DeviceError>(0usize),
    {
        let _ = offset;
        let _ = width;
        Ok(0)
    }

    /// Writes a CLINT stub register: always discarded.
    pub fn handle_clint_write(&mut self, offset: usize, width: AccessWidth, val: usize)
        -> (r: Result<(), DeviceError>)
        ensures
            r is Ok,
            *final(self) == *old(self),
    {
        let _ = offset;
        let _ = width;
        let _ = val;
        Ok(())
    }
}

impl BaseDeviceOps for DummyClintDevice {
    fn emu_type(&self) -> EmuDeviceType {
        EmuDeviceType::Dummy
    }

    fn address_ranges(&self) -> Vec<AddrRange> {
        let mut ranges: Vec<AddrRange> = Vec::new();
        ranges.push(self.range);
        ranges
    }

    fn handle_read(&mut self, addr: usize, width: AccessWidth)
        -> Result<usize, DeviceError> {
        if addr < self.range.start {
            return Err(DeviceError::BadAddress);
        }
        let offset = addr - self.range.start;
        self.handle_clint_read(offset, width)
    }

    fn handle_write(&mut self, addr: usize, width: AccessWidth, val: usize)
        -> Result<(), DeviceError> {
        if addr < self.range.start {
            return Err(DeviceError::BadAddress);
        }
        let offset = addr - self.range.start;
        self.handle_clint_write(offset, width, val)
    }

    fn region_descriptor(&self) -> (r: Option<RegionDescriptor>) {
        None
    }

    fn region_lookup(&self, addr: usize) -> Option<RegionHit> {
        let _ = addr;
        None
    }

    fn notification_config(&self) -> Option<NotificationConfig> {
        None
    }

    fn set_notifier(&mut self, notifier: DeviceNotifierImpl) {
        let _ = notifier;
    }
}

} // verus!
