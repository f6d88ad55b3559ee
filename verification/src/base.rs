//! Shared data types of the device core: access widths, address ranges,
//! device events and notification configuration.

use vstd::prelude::*;

verus! {

/// Width of a guest access.
#[derive(Debug, Clone, Copy, PartialEq, Eq, Structural)]
pub enum AccessWidth {
    /// A 1-byte access.
    Byte,
    /// A 2-byte access.
    Word,
    /// A 4-byte access.
    Dword,
    /// An 8-byte access.
    Qword,
}

impl AccessWidth {
    /// The access width for a size in bytes, if the size is one of 1, 2, 4, 8.
    pub open spec fn spec_from_size(size: usize) -> Option<AccessWidth> {
        if size == 1 {
            Some(AccessWidth::Byte)
        } else if size == 2 {
            Some(AccessWidth::Word)
        } else if size == 4 {
            Some(AccessWidth::Dword)
        } else if size == 8 {
            Some(AccessWidth::Qword)
        } else {
            None
        }
    }

    /// Converts a size in bytes to an access width.
    pub fn from_size(size: usize) -> (r: Option<AccessWidth>)
        ensures
            r == AccessWidth::spec_from_size(size),
    {
        if size == 1 {
            Some(AccessWidth::Byte)
        } else if size == 2 {
            Some(AccessWidth::Word)
        } else if size == 4 {
            Some(AccessWidth::Dword)
        } else if size == 8 {
            Some(AccessWidth::Qword)
        } else {
            None
        }
    }

    /// The size in bytes of this access width.
    pub open spec fn spec_size(self) -> usize {
        match self {
            AccessWidth::Byte => 1,
            AccessWidth::Word => 2,
            AccessWidth::Dword => 4,
            AccessWidth::Qword => 8,
        }
    }

    /// Gets the size in bytes of this access width.
    pub fn size(&self) -> (r: usize)
        ensures
            r == self.spec_size(),
    {
        match self {
            AccessWidth::Byte => 1,
            AccessWidth::Word => 2,
            AccessWidth::Dword => 4,
            AccessWidth::Qword => 8,
        }
    }
}

/// A half-open guest address range `[start, end)`.
#[derive(Debug, Clone, Copy, PartialEq, Eq, Structural)]
pub struct AddrRange {
    /// First address of the range.
    pub start: usize,
    /// First address past the range.
    pub end: usize,
}

impl AddrRange {
    /// Whether the range contains an address.
    pub open spec fn spec_contains(self, addr: usize) -> bool {
        self.start <= addr < self.end
    }

    /// Whether two ranges share at least one address.
    pub open spec fn spec_overlaps(self, other: AddrRange) -> bool {
        self.start < other.end && other.start < self.end
            && self.start < self.end && other.start < other.end
    }

    /// Creates a range from its bounds.
    pub fn new(start: usize, end: usize) -> (r: Self)
        ensures
            r.start == start,
            r.end == end,
    {
        Self { start, end }
    }

    /// Creates a range from a start address and a size.
    pub fn from_start_size(start: usize, size: usize) -> (r: Self)
        requires
            start + size <= usize::MAX,
        ensures
            r.start == start,
            r.end == start + size,
    {
        Self { start, end: start + size }
    }

    /// Tests whether the range contains an address.
    pub fn contains(&self, addr: usize) -> (r: bool)
        ensures
            r == self.spec_contains(addr),
    {
        self.start <= addr && addr < self.end
    }

    /// Tests whether this range shares at least one address with another.
    pub fn overlaps(&self, other: &AddrRange) -> (r: bool)
        ensures
            r == self.spec_overlaps(*other),
    {
        self.start < other.end && other.start < self.end
            && self.start < self.end && other.start < other.end
    }
}

/// Which interrupt line of a device fires.
#[derive(Debug, Clone, Copy, PartialEq, Eq, Structural)]
pub enum IrqType {
    /// The device's primary interrupt.
    Primary,
    /// An additional interrupt, by its index in the configured list.
    Additional(u8),
}

/// An event a device raises towards its notifier.
#[derive(Debug, Clone, Copy, PartialEq, Eq, Structural)]
pub enum DeviceEvent {
    /// An interrupt request on one of the device's lines.
    Irq(IrqType),
    /// Data became available to the guest.
    DataReady,
    /// Buffer space became available to the guest.
    SpaceAvailable,
    /// The device configuration changed.
    ConfigChanged,
    /// A device-specific event code.
    Custom(u16),
}

/// Poll-flag bit assigned to `DeviceEvent::DataReady`.
pub const FLAG_DATA_READY: u32 = 0x1;

/// Poll-flag bit assigned to `DeviceEvent::SpaceAvailable`.
pub const FLAG_SPACE_AVAILABLE: u32 = 0x2;

/// Poll-flag bit assigned to `DeviceEvent::ConfigChanged`.
pub const FLAG_CONFIG_CHANGED: u32 = 0x4;

/// Poll-flag bit assigned to `DeviceEvent::Irq`.
pub const FLAG_IRQ: u32 = 0x8;

/// Poll-flag bit assigned to `DeviceEvent::Custom`.
pub const FLAG_CUSTOM: u32 = 0x10;

impl DeviceEvent {
    /// The poll-flag bit derived from the event variant.
    pub open spec fn spec_flag(self) -> u32 {
        match self {
            DeviceEvent::DataReady => FLAG_DATA_READY,
            DeviceEvent::SpaceAvailable => FLAG_SPACE_AVAILABLE,
            DeviceEvent::ConfigChanged => FLAG_CONFIG_CHANGED,
            DeviceEvent::Irq(_) => FLAG_IRQ,
            DeviceEvent::Custom(_) => FLAG_CUSTOM,
        }
    }

    /// Derives the poll-flag bit for this event.
    pub fn as_flag(&self) -> (r: u32)
        ensures
            r == self.spec_flag(),
    {
        match self {
            DeviceEvent::DataReady => FLAG_DATA_READY,
            DeviceEvent::SpaceAvailable => FLAG_SPACE_AVAILABLE,
            DeviceEvent::ConfigChanged => FLAG_CONFIG_CHANGED,
            DeviceEvent::Irq(_) => FLAG_IRQ,
            DeviceEvent::Custom(_) => FLAG_CUSTOM,
        }
    }

    /// Tests whether this event's flag bit is set in a flag word.
    pub fn is_set_in(&self, flags: u32) -> (r: bool)
        ensures
            r == ((flags & self.spec_flag()) != 0),
    {
        (flags & self.as_flag()) != 0
    }
}

/// How a device's notifications are delivered.
#[derive(Debug, Clone, Copy, PartialEq, Eq, Structural)]
pub enum NotifyMethod {
    /// Interrupt injection through the per-vCPU priority queue.
    Interrupt,
    /// An atomic poll flag checked by the vCPU loop.
    Poll,
    /// A per-vCPU FIFO event queue.
    Event,
    /// A synchronous callback run by the notifier before the manager is
    /// reached.
    Callback,
}

/// Edge- or level-triggered interrupt semantics.
#[derive(Debug, Clone, Copy, PartialEq, Eq, Structural)]
pub enum TriggerMode {
    /// Edge triggered.
    Edge,
    /// Level triggered.
    Level,
}

/// How a target vCPU is selected for a notification.
#[derive(Debug, Clone, Copy, PartialEq, Eq, Structural)]
pub enum CpuAffinity {
    /// Always the given vCPU (modulo the vCPU count).
    Fixed(usize),
    /// Rotate over the vCPUs.
    RoundRobin,
    /// The vCPU with the shortest interrupt queue; ties go to the lowest
    /// index.
    LoadBalance,
    /// Delivery for broadcast-configured devices; this implementation
    /// degrades broadcast to a single target, vCPU 0.
    Broadcast,
}

/// Notification configuration of a device.
#[derive(Debug, Clone)]
pub struct NotificationConfig {
    /// Delivery method.
    pub method: NotifyMethod,
    /// Primary IRQ number, required for interrupt delivery.
    pub primary_irq: Option<u32>,
    /// Additional IRQ numbers, addressed by `IrqType::Additional`.
    pub additional_irqs: Vec<u32>,
    /// Trigger mode of the interrupt lines.
    pub trigger_mode: TriggerMode,
    /// Target-vCPU selection strategy.
    pub cpu_affinity: CpuAffinity,
    /// Notification priority; higher pops first.
    pub priority: u8,
    /// Whether duplicate notifications may be coalesced.
    pub coalesce: bool,
}

/// Mathematical view of a `NotificationConfig`.
pub struct ConfigView {
    /// Delivery method.
    pub method: NotifyMethod,
    /// Primary IRQ number.
    pub primary_irq: Option<u32>,
    /// Additional IRQ numbers.
    pub additional_irqs: Seq<u32>,
    /// Trigger mode.
    pub trigger_mode: TriggerMode,
    /// Target-vCPU selection strategy.
    pub cpu_affinity: CpuAffinity,
    /// Notification priority.
    pub priority: u8,
    /// Whether coalescing is allowed.
    pub coalesce: bool,
}

impl View for NotificationConfig {
    type V = ConfigView;

    open spec fn view(&self) -> ConfigView {
        ConfigView {
            method: self.method,
            primary_irq: self.primary_irq,
            additional_irqs: self.additional_irqs@,
            trigger_mode: self.trigger_mode,
            cpu_affinity: self.cpu_affinity,
            priority: self.priority,
            coalesce: self.coalesce,
        }
    }
}

impl NotificationConfig {
    /// A configuration that injects the given primary IRQ.
    pub fn interrupt(irq: u32) -> (r: Self)
        ensures
            r@ == (ConfigView {
                method: NotifyMethod::Interrupt,
                primary_irq: Some(irq),
                additional_irqs: Seq::<u32>::empty(),
                trigger_mode: TriggerMode::Edge,
                cpu_affinity: CpuAffinity::Fixed(0),
                priority: 0,
                coalesce: false,
            }),
    {
        let r = Self {
            method: NotifyMethod::Interrupt,
            primary_irq: Some(irq),
            additional_irqs: Vec::new(),
            trigger_mode: TriggerMode::Edge,
            cpu_affinity: CpuAffinity::Fixed(0),
            priority: 0,
            coalesce: false,
        };
        proof {
            assert(r@.additional_irqs =~= Seq::<u32>::empty());
        }
        r
    }

    /// A configuration that sets a poll flag.
    pub fn poll() -> (r: Self)
        ensures
            r@.method == NotifyMethod::Poll,
            r@.primary_irq is None,
            r@.additional_irqs =~= Seq::<u32>::empty(),
            r@.priority == 0,
            r@.cpu_affinity == CpuAffinity::Fixed(0usize),
    {
        Self {
            method: NotifyMethod::Poll,
            primary_irq: None,
            additional_irqs: Vec::new(),
            trigger_mode: TriggerMode::Edge,
            cpu_affinity: CpuAffinity::Fixed(0),
            priority: 0,
            coalesce: false,
        }
    }

    /// A configuration that enqueues onto the per-vCPU event queue.
    pub fn event() -> (r: Self)
        ensures
            r@.method == NotifyMethod::Event,
            r@.primary_irq is None,
            r@.additional_irqs =~= Seq::<u32>::empty(),
            r@.priority == 0,
            r@.cpu_affinity == CpuAffinity::Fixed(0usize),
    {
        Self {
            method: NotifyMethod::Event,
            primary_irq: None,
            additional_irqs: Vec::new(),
            trigger_mode: TriggerMode::Edge,
            cpu_affinity: CpuAffinity::Fixed(0),
            priority: 0,
            coalesce: false,
        }
    }

    /// Replaces the priority.
    pub fn with_priority(self, priority: u8) -> (r: Self)
        ensures
            r@ == (ConfigView { priority, ..self@ }),
    {
        Self { priority, ..self }
    }

    /// Replaces the CPU-affinity strategy.
    pub fn with_cpu_affinity(self, cpu_affinity: CpuAffinity) -> (r: Self)
        ensures
            r@ == (ConfigView { cpu_affinity, ..self@ }),
    {
        Self { cpu_affinity, ..self }
    }

    /// Replaces the coalescing flag.
    pub fn with_coalesce(self, coalesce: bool) -> (r: Self)
        ensures
            r@ == (ConfigView { coalesce, ..self@ }),
    {
        Self { coalesce, ..self }
    }

    /// Produces a value-identical copy.
    pub fn duplicate(&self) -> (r: Self)
        ensures
            r@ == self@,
    {
        let mut irqs: Vec<u32> = Vec::new();
        let mut i: usize = 0;
        while i < self.additional_irqs.len()
            invariant
                i <= self.additional_irqs.len(),
                irqs@ =~= self.additional_irqs@.take(i as int),
            decreases self.additional_irqs.len() - i,
        {
            irqs.push(self.additional_irqs[i]);
            i = i + 1;
        }
        proof {
            assert(irqs@ =~= self.additional_irqs@);
        }
        let r = Self {
            method: self.method,
            primary_irq: self.primary_irq,
            additional_irqs: irqs,
            trigger_mode: self.trigger_mode,
            cpu_affinity: self.cpu_affinity,
            priority: self.priority,
            coalesce: self.coalesce,
        };
        r
    }

    /// Builds a notification configuration from a legacy interrupt
    /// configuration.
    pub fn from_interrupt_config(config: &InterruptConfig) -> (r: Self)
        ensures
            r@.method == NotifyMethod::Interrupt,
            r@.primary_irq == Some(config.primary_irq),
            r@.additional_irqs == config.additional_irqs@,
            r@.trigger_mode == config.trigger_mode,
            r@.cpu_affinity == config.cpu_affinity,
            r@.priority == config.priority,
            r@.coalesce == false,
    {
        let mut irqs: Vec<u32> = Vec::new();
        let mut i: usize = 0;
        while i < config.additional_irqs.len()
            invariant
                i <= config.additional_irqs.len(),
                irqs@ =~= config.additional_irqs@.take(i as int),
            decreases config.additional_irqs.len() - i,
        {
            irqs.push(config.additional_irqs[i]);
            i = i + 1;
        }
        proof {
            assert(irqs@ =~= config.additional_irqs@);
        }
        Self {
            method: NotifyMethod::Interrupt,
            primary_irq: Some(config.primary_irq),
            additional_irqs: irqs,
            trigger_mode: config.trigger_mode,
            cpu_affinity: config.cpu_affinity,
            priority: config.priority,
            coalesce: false,
        }
    }

    /// Extracts the legacy interrupt configuration, when this configuration
    /// uses interrupt delivery with a primary IRQ; `None` otherwise.
    pub fn to_interrupt_config(&self) -> (r: Option<InterruptConfig>)
        ensures
            (self@.method == NotifyMethod::Interrupt && self@.primary_irq is Some) <==> r is Some,
            r is Some ==> {
                let c = r->Some_0;
                c.primary_irq == self@.primary_irq->Some_0
                    && c.additional_irqs@ == self@.additional_irqs
                    && c.trigger_mode == self@.trigger_mode
                    && c.cpu_affinity == self@.cpu_affinity
                    && c.priority == self@.priority
            },
    {
        if self.method != NotifyMethod::Interrupt {
            return None;
        }
        match self.primary_irq {
            None => None,
            Some(irq) => {
                let mut irqs: Vec<u32> = Vec::new();
                let mut i: usize = 0;
                while i < self.additional_irqs.len()
                    invariant
                        i <= self.additional_irqs.len(),
                        irqs@ =~= self.additional_irqs@.take(i as int),
                    decreases self.additional_irqs.len() - i,
                {
                    irqs.push(self.additional_irqs[i]);
                    i = i + 1;
                }
                proof {
                    assert(irqs@ =~= self.additional_irqs@);
                }
                Some(InterruptConfig {
                    primary_irq: irq,
                    additional_irqs: irqs,
                    trigger_mode: self.trigger_mode,
                    cpu_affinity: self.cpu_affinity,
                    priority: self.priority,
                })
            }
        }
    }
}

/// Legacy interrupt configuration of a device.
#[derive(Debug, Clone)]
pub struct InterruptConfig {
    /// Primary IRQ number.
    pub primary_irq: u32,
    /// Additional IRQ numbers.
    pub additional_irqs: Vec<u32>,
    /// Trigger mode of the interrupt lines.
    pub trigger_mode: TriggerMode,
    /// Target-vCPU selection strategy.
    pub cpu_affinity: CpuAffinity,
    /// Notification priority.
    pub priority: u8,
}

} // verus!
