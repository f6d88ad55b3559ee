//! Central notification manager: routing, CPU selection and queueing.
//!
//! The manager routes a device event by the device's configured method:
//! interrupt delivery pushes onto the target vCPU's priority queue, poll
//! delivery ORs the event's bit into the device's poll flag, event delivery
//! appends to the target vCPU's FIFO event queue, and callback delivery is
//! handled at the notifier before the manager is reached.

use vstd::prelude::*;
use vstd::multiset::Multiset;
use vstd::pervasive::VecAdditionalExecFns;

use crate::base::{ConfigView, CpuAffinity, DeviceEvent, InterruptConfig, IrqType,
    NotificationConfig, NotifyMethod};
use crate::errors::DeviceError;
use crate::poll::{poll_set_step, PollFlags};
use crate::queue::{pops_before_eq, EntryId, PendingNotification, TransactionalNotificationQueue};
use crate::routing::RoutingTable;
use crate::wrapper::{DeviceId, PASSTHROUGH_BASE};

verus! {

/// Priority used for raw passthrough injections.
pub const PASSTHROUGH_PRIORITY: u8 = 50;

/// A 64-bit counter bumped by one, wrapping at its maximum.
pub open spec fn wrap_bump(t: u64) -> u64 {
    if t == u64::MAX {
        0u64
    } else {
        (t + 1) as u64
    }
}

/// The IRQ number an event resolves to under a configuration: an additional
/// interrupt resolves by its index into the additional list, every other
/// event resolves to the primary IRQ; `None` means the configuration lacks
/// the needed IRQ.
pub open spec fn resolve_irq(cfg: ConfigView, event: DeviceEvent) -> Option<u32> {
    match event {
        DeviceEvent::Irq(IrqType::Additional(idx)) => if (idx as int)
            < cfg.additional_irqs.len() {
            Some(cfg.additional_irqs[idx as int])
        } else {
            None
        },
        _ => cfg.primary_irq,
    }
}

/// The lowest index of a queue with minimal confirmed length among the first
/// `n` queues.
pub open spec fn best_queue_upto(qs: Seq<TransactionalNotificationQueue>, n: int) -> int
    decreases n,
{
    if n <= 1 {
        0
    } else {
        let b = best_queue_upto(qs, n - 1);
        if qs[n - 1].confirmed_ms().len() < qs[b].confirmed_ms().len() {
            n - 1
        } else {
            b
        }
    }
}

/// The minimal-length choice lies in range, has minimal length, and is the
/// lowest index with that length.
pub proof fn lemma_best_queue_upto(qs: Seq<TransactionalNotificationQueue>, n: int)
    requires
        1 <= n <= qs.len(),
    ensures
        0 <= best_queue_upto(qs, n) < n,
        forall|i: int| 0 <= i < n ==> qs[best_queue_upto(qs, n)].confirmed_ms().len()
            <= (#[trigger] qs[i]).confirmed_ms().len(),
        forall|i: int| 0 <= i < best_queue_upto(qs, n)
            ==> (#[trigger] qs[i]).confirmed_ms().len()
                > qs[best_queue_upto(qs, n)].confirmed_ms().len(),
    decreases n,
{
    if n > 1 {
        lemma_best_queue_upto(qs, n - 1);
    }
}

/// What an interrupt-delivery injection does.  When no IRQ resolves, the
/// call fails with `InvalidInput` and changes nothing; otherwise the freshly
/// stamped notification is pushed onto the selected vCPU's priority queue
/// and the timestamp advances.
pub open spec fn interrupt_inject_post(
    pre: DeviceNotificationManager,
    post: DeviceNotificationManager,
    device_id: DeviceId,
    cfg: ConfigView,
    event: DeviceEvent,
    r: Result<(), DeviceError>,
) -> bool {
    &&& post.routing() == pre.routing()
    &&& post.polls() == pre.polls()
    &&& post.spec_cpu_count() == pre.spec_cpu_count()
    &&& forall|c: int| 0 <= c < pre.spec_cpu_count()
        ==> post.uncommitted(c) == pre.uncommitted(c)
            && post.uncommitted_size(c) == pre.uncommitted_size(c)
            && post.events(c) == pre.events(c)
    &&& resolve_irq(cfg, event) is None
        ==> r == Err::<(), DeviceError>(DeviceError::InvalidInput) && post == pre
    &&& resolve_irq(cfg, event) is Some ==> {
        let cpu = pre.spec_select(cfg.cpu_affinity);
        let note = PendingNotification {
            irq: resolve_irq(cfg, event)->Some_0,
            priority: cfg.priority,
            device_id,
            timestamp: pre.spec_timestamp(),
            event,
        };
        &&& r is Ok
        &&& post.interrupts(cpu) == pre.interrupts(cpu).insert(note)
        &&& forall|c: int| 0 <= c < pre.spec_cpu_count() && c != cpu
            ==> post.interrupts(c) == pre.interrupts(c)
        &&& post.spec_timestamp() == wrap_bump(pre.spec_timestamp())
        &&& cfg.cpu_affinity == CpuAffinity::RoundRobin
            ==> post.spec_next_cpu() == wrap_bump(pre.spec_next_cpu())
        &&& cfg.cpu_affinity != CpuAffinity::RoundRobin
            ==> post.spec_next_cpu() == pre.spec_next_cpu()
    }
}

/// What an event-delivery injection does: the freshly stamped notification,
/// carrying the primary IRQ or zero when none is configured, is appended to
/// the selected vCPU's FIFO event queue and the timestamp advances.
pub open spec fn event_inject_post(
    pre: DeviceNotificationManager,
    post: DeviceNotificationManager,
    device_id: DeviceId,
    cfg: ConfigView,
    event: DeviceEvent,
    r: Result<(), DeviceError>,
) -> bool {
    &&& post.routing() == pre.routing()
    &&& post.polls() == pre.polls()
    &&& post.spec_cpu_count() == pre.spec_cpu_count()
    &&& forall|c: int| 0 <= c < pre.spec_cpu_count()
        ==> post.interrupts(c) == pre.interrupts(c)
            && post.uncommitted(c) == pre.uncommitted(c)
            && post.uncommitted_size(c) == pre.uncommitted_size(c)
    &&& {
        let cpu = pre.spec_select(cfg.cpu_affinity);
        let irq = if cfg.primary_irq is Some {
            cfg.primary_irq->Some_0
        } else {
            0u32
        };
        let note = PendingNotification {
            irq,
            priority: cfg.priority,
            device_id,
            timestamp: pre.spec_timestamp(),
            event,
        };
        &&& r is Ok
        &&& post.events(cpu) == pre.events(cpu).push(note)
        &&& forall|c: int| 0 <= c < pre.spec_cpu_count() && c != cpu
            ==> post.events(c) == pre.events(c)
        &&& post.spec_timestamp() == wrap_bump(pre.spec_timestamp())
        &&& cfg.cpu_affinity == CpuAffinity::RoundRobin
            ==> post.spec_next_cpu() == wrap_bump(pre.spec_next_cpu())
        &&& cfg.cpu_affinity != CpuAffinity::RoundRobin
            ==> post.spec_next_cpu() == pre.spec_next_cpu()
    }
}

/// What `inject` does, by the registered configuration's delivery method.
/// An unregistered device fails with `NotFound`; interrupt delivery follows
/// `interrupt_inject_post`, poll delivery ORs the event's flag bit into the
/// device's slot, event delivery follows `event_inject_post`, and callback
/// delivery changes nothing here.
pub open spec fn inject_post(
    pre: DeviceNotificationManager,
    post: DeviceNotificationManager,
    device_id: DeviceId,
    event: DeviceEvent,
    r: Result<(), DeviceError>,
) -> bool {
    &&& post.routing() == pre.routing()
    &&& post.spec_cpu_count() == pre.spec_cpu_count()
    &&& !pre.routing().dom().contains(device_id)
        ==> r == Err::<(), DeviceError>(DeviceError::NotFound) && post == pre
    &&& pre.routing().dom().contains(device_id) ==> {
        let cfg = pre.routing()[device_id]@;
        &&& cfg.method == NotifyMethod::Interrupt
            ==> interrupt_inject_post(pre, post, device_id, cfg, event, r)
        &&& cfg.method == NotifyMethod::Poll ==> {
            &&& r is Ok
            &&& post.polls() == poll_set_step(pre.polls(), device_id, event.spec_flag())
            &&& post.spec_timestamp() == pre.spec_timestamp()
            &&& post.spec_next_cpu() == pre.spec_next_cpu()
            &&& forall|c: int| 0 <= c < pre.spec_cpu_count()
                ==> post.interrupts(c) == pre.interrupts(c)
                    && post.uncommitted(c) == pre.uncommitted(c)
                    && post.uncommitted_size(c) == pre.uncommitted_size(c)
                    && post.events(c) == pre.events(c)
        }
        &&& cfg.method == NotifyMethod::Event
            ==> event_inject_post(pre, post, device_id, cfg, event, r)
        &&& cfg.method == NotifyMethod::Callback ==> r is Ok && post == pre
    }
}

/// Device notification manager.
///
/// Owns the routing table, one transactional interrupt queue and one FIFO
/// event queue per vCPU, the poll-flag table, and the shared counters for
/// round-robin selection and timestamps.
pub struct DeviceNotificationManager {
    routing_table: RoutingTable,
    interrupt_queues: Vec<TransactionalNotificationQueue>,
    poll_flags: PollFlags,
    event_queues: Vec<Vec<PendingNotification>>,
    next_cpu: u64,
    timestamp: u64,
    cpu_count: usize,
}

impl DeviceNotificationManager {
    /// The routing table contents.
    pub closed spec fn routing(self) -> Map<DeviceId, NotificationConfig> {
        self.routing_table.table()
    }

    /// The confirmed interrupt notifications queued for a vCPU.
    pub closed spec fn interrupts(self, cpu: int) -> Multiset<PendingNotification> {
        self.interrupt_queues@[cpu].confirmed_ms()
    }

    /// The uncommitted (pending) entries of a vCPU's interrupt queue.
    pub closed spec fn uncommitted(self, cpu: int) -> Map<EntryId, PendingNotification> {
        self.interrupt_queues@[cpu].pending_map()
    }

    /// The number of uncommitted entries of a vCPU's interrupt queue.
    pub closed spec fn uncommitted_size(self, cpu: int) -> nat {
        self.interrupt_queues@[cpu].pending_len()
    }

    /// The FIFO event queue of a vCPU, oldest first.
    pub closed spec fn events(self, cpu: int) -> Seq<PendingNotification> {
        self.event_queues@[cpu]@
    }

    /// The number of devices in the routing table.
    pub closed spec fn routing_len(self) -> nat {
        self.routing_table.spec_len()
    }

    /// The poll-flag words by device id.
    pub closed spec fn polls(self) -> Map<DeviceId, u32> {
        self.poll_flags.flags_map()
    }

    /// The number of vCPUs.
    pub closed spec fn spec_cpu_count(self) -> usize {
        self.cpu_count
    }

    /// The next timestamp to be stamped.
    pub closed spec fn spec_timestamp(self) -> u64 {
        self.timestamp
    }

    /// The round-robin counter.
    pub closed spec fn spec_next_cpu(self) -> u64 {
        self.next_cpu
    }

    /// The vCPU an affinity strategy selects in the current state.
    pub closed spec fn spec_select(self, affinity: CpuAffinity) -> int {
        match affinity {
            CpuAffinity::Fixed(c) => c as int % self.cpu_count as int,
            CpuAffinity::RoundRobin => (self.next_cpu as int) % (self.cpu_count as int),
            CpuAffinity::LoadBalance => best_queue_upto(
                self.interrupt_queues@,
                self.cpu_count as int,
            ),
            CpuAffinity::Broadcast => 0,
        }
    }

    /// Well-formedness: at least one vCPU, one interrupt and one event queue
    /// per vCPU, and well-formed parts.
    pub closed spec fn wf(self) -> bool {
        &&& self.cpu_count >= 1
        &&& self.interrupt_queues@.len() == self.cpu_count
        &&& self.event_queues@.len() == self.cpu_count
        &&& self.routing_table.wf()
        &&& self.poll_flags.wf()
        &&& forall|c: int| 0 <= c < self.cpu_count ==> (#[trigger] self.interrupt_queues@[c]).wf()
    }

    /// A selected vCPU index is always in range.
    pub proof fn lemma_select_in_range(self, affinity: CpuAffinity)
        requires
            self.wf(),
        ensures
            0 <= self.spec_select(affinity) < self.spec_cpu_count(),
    {
        match affinity {
            CpuAffinity::LoadBalance => {
                lemma_best_queue_upto(self.interrupt_queues@, self.cpu_count as int);
            }
            _ => {}
        }
    }

    /// Law: CPU selection follows the affinity strategy.  A fixed affinity
    /// targets that vCPU modulo the vCPU count, round robin targets the
    /// shared counter modulo the vCPU count, load balancing targets the
    /// vCPU with the fewest queued interrupts with ties to the lowest
    /// index, and broadcast degrades to vCPU 0.
    pub proof fn lemma_spec_select(self, affinity: CpuAffinity)
        requires
            self.wf(),
        ensures
            affinity matches CpuAffinity::Fixed(c)
                ==> self.spec_select(affinity) == c as int % self.spec_cpu_count() as int,
            affinity == CpuAffinity::RoundRobin ==> self.spec_select(affinity)
                == self.spec_next_cpu() as int % self.spec_cpu_count() as int,
            affinity == CpuAffinity::LoadBalance ==> {
                let t = self.spec_select(affinity);
                &&& 0 <= t < self.spec_cpu_count()
                &&& forall|c: int| 0 <= c < self.spec_cpu_count()
                    ==> self.interrupts(t).len() <= #[trigger] self.interrupts(c).len()
                &&& forall|c: int| 0 <= c < t
                    ==> #[trigger] self.interrupts(c).len() > self.interrupts(t).len()
            },
            affinity == CpuAffinity::Broadcast ==> self.spec_select(affinity) == 0,
    {
        match affinity {
            CpuAffinity::LoadBalance => {
                lemma_best_queue_upto(self.interrupt_queues@, self.cpu_count as int);
            }
            _ => {}
        }
    }

    /// Creates a manager with one interrupt queue and one event queue for
    /// each of `cpu_count` vCPUs.
    pub fn new(cpu_count: usize) -> (r: Self)
        requires
            cpu_count >= 1,
        ensures
            r.wf(),
            r.spec_cpu_count() == cpu_count,
            r.routing() =~= Map::<DeviceId, NotificationConfig>::empty(),
            r.polls() =~= Map::<DeviceId, u32>::empty(),
            forall|c: int| 0 <= c < cpu_count ==> r.interrupts(c)
                =~= Multiset::<PendingNotification>::empty(),
            forall|c: int| 0 <= c < cpu_count
                ==> r.uncommitted(c) =~= Map::<EntryId, PendingNotification>::empty(),
            forall|c: int| 0 <= c < cpu_count ==> r.uncommitted_size(c) == 0,
            forall|c: int| 0 <= c < cpu_count ==> r.events(c) =~= Seq::<PendingNotification>::empty(),
            r.spec_timestamp() == 0,
            r.spec_next_cpu() == 0,
    {
        let mut interrupt_queues: Vec<TransactionalNotificationQueue> = Vec::new();
        let mut event_queues: Vec<Vec<PendingNotification>> = Vec::new();
        let mut i: usize = 0;
        while i < cpu_count
            invariant
                i <= cpu_count,
                interrupt_queues@.len() == i,
                event_queues@.len() == i,
                forall|c: int| 0 <= c < i ==> (#[trigger] interrupt_queues@[c]).wf()
                    && interrupt_queues@[c].confirmed_ms() =~= Multiset::<
                    PendingNotification,
                >::empty()
                    && interrupt_queues@[c].pending_map() =~= Map::<
                    EntryId,
                    PendingNotification,
                >::empty()
                    && interrupt_queues@[c].pending_len() == 0,
                forall|c: int| 0 <= c < i ==> (#[trigger] event_queues@[c])@ =~= Seq::<
                    PendingNotification,
                >::empty(),
            decreases cpu_count - i,
        {
            interrupt_queues.push(TransactionalNotificationQueue::new());
            event_queues.push(Vec::new());
            i = i + 1;
        }
        Self {
            routing_table: RoutingTable::new(),
            interrupt_queues,
            poll_flags: PollFlags::new(),
            event_queues,
            next_cpu: 0,
            timestamp: 0,
            cpu_count,
        }
    }

    /// Selects the target vCPU for a notification by the affinity strategy,
    /// advancing the round-robin counter when that strategy is in use.
    fn select_target_cpu(&mut self, affinity: CpuAffinity) -> (r: usize)
        requires
            old(self).wf(),
        ensures
            final(self).wf(),
            r as int == old(self).spec_select(affinity),
            r < old(self).spec_cpu_count(),
            affinity == CpuAffinity::RoundRobin
                ==> final(self).spec_next_cpu() == wrap_bump(old(self).spec_next_cpu()),
            affinity != CpuAffinity::RoundRobin
                ==> final(self).spec_next_cpu() == old(self).spec_next_cpu(),
            final(self).routing() == old(self).routing(),
            final(self).polls() == old(self).polls(),
            final(self).spec_cpu_count() == old(self).spec_cpu_count(),
            final(self).spec_timestamp() == old(self).spec_timestamp(),
            forall|c: int| 0 <= c < old(self).spec_cpu_count()
                ==> final(self).interrupts(c) == old(self).interrupts(c)
                    && final(self).uncommitted(c) == old(self).uncommitted(c)
                    && final(self).uncommitted_size(c) == old(self).uncommitted_size(c)
                    && final(self).next_entry_id(c) == old(self).next_entry_id(c)
                    && final(self).events(c) == old(self).events(c),
    {
        match affinity {
            CpuAffinity::Fixed(cpu_id) => cpu_id % self.cpu_count,
            CpuAffinity::RoundRobin => {
                let cpu = self.next_cpu;
                if self.next_cpu == u64::MAX {
                    self.next_cpu = 0;
                } else {
                    self.next_cpu = self.next_cpu + 1;
                }
                (cpu % (self.cpu_count as u64)) as usize
            }
            CpuAffinity::LoadBalance => {
                let mut best: usize = 0;
                let mut i: usize = 1;
                while i < self.cpu_count
                    invariant
                        self.wf(),
                        1 <= i <= self.cpu_count,
                        best < i,
                        best as int == best_queue_upto(self.interrupt_queues@, i as int),
                    decreases self.cpu_count - i,
                {
                    if self.interrupt_queues[i].len() < self.interrupt_queues[best].len() {
                        best = i;
                    }
                    i = i + 1;
                }
                best
            }
            CpuAffinity::Broadcast => {
                // Broadcast is degraded to a single target here: vCPU 0.
                0
            }
        }
    }

    /// The next entry id a vCPU's interrupt queue will hand out.
    pub closed spec fn next_entry_id(self, cpu: int) -> u64 {
        self.interrupt_queues@[cpu].spec_next_id()
    }

    /// Bumps the shared timestamp counter and returns the stamp to use.
    fn bump_timestamp(&mut self) -> (r: u64)
        ensures
            r == old(self).spec_timestamp(),
            final(self).spec_timestamp() == wrap_bump(old(self).spec_timestamp()),
            final(self).wf() == old(self).wf(),
            final(self).routing() == old(self).routing(),
            final(self).polls() == old(self).polls(),
            final(self).spec_cpu_count() == old(self).spec_cpu_count(),
            final(self).spec_next_cpu() == old(self).spec_next_cpu(),
            forall|c: int| final(self).interrupts(c) == old(self).interrupts(c)
                && final(self).uncommitted(c) == old(self).uncommitted(c)
                && final(self).uncommitted_size(c) == old(self).uncommitted_size(c)
                && final(self).next_entry_id(c) == old(self).next_entry_id(c)
                && final(self).events(c) == old(self).events(c),
            forall|a: CpuAffinity| final(self).spec_select(a) == old(self).spec_select(a),
    {
        let t = self.timestamp;
        if self.timestamp == u64::MAX {
            self.timestamp = 0;
        } else {
            self.timestamp = self.timestamp + 1;
        }
        t
    }

    /// Pushes a notification onto a vCPU's interrupt queue.
    fn push_interrupt(&mut self, cpu_id: usize, note: PendingNotification)
        requires
            old(self).wf(),
            cpu_id < old(self).spec_cpu_count(),
        ensures
            final(self).wf(),
            final(self).routing() == old(self).routing(),
            final(self).polls() == old(self).polls(),
            final(self).spec_cpu_count() == old(self).spec_cpu_count(),
            final(self).spec_timestamp() == old(self).spec_timestamp(),
            final(self).spec_next_cpu() == old(self).spec_next_cpu(),
            final(self).interrupts(cpu_id as int)
                == old(self).interrupts(cpu_id as int).insert(note),
            forall|c: int| 0 <= c < old(self).spec_cpu_count() && c != cpu_id
                ==> final(self).interrupts(c) == old(self).interrupts(c),
            forall|c: int| 0 <= c < old(self).spec_cpu_count()
                ==> final(self).uncommitted(c) == old(self).uncommitted(c)
                    && final(self).uncommitted_size(c) == old(self).uncommitted_size(c)
                    && final(self).next_entry_id(c) == old(self).next_entry_id(c)
                    && final(self).events(c) == old(self).events(c),
    {
        let mut q = TransactionalNotificationQueue::new();
        self.interrupt_queues.set_and_swap(cpu_id, &mut q);
        q.push(note);
        self.interrupt_queues.set(cpu_id, q);
    }

    /// Injects a notification for a device, routing it by the device's
    /// configured method.
    ///
    /// Fails with `NotFound` when the device is not registered, and with
    /// `InvalidInput` when interrupt delivery cannot resolve an IRQ number.
    pub fn inject(&mut self, device_id: DeviceId, event: DeviceEvent)
        -> (r: Result<(), DeviceError>)
        requires
            old(self).wf(),
        ensures
            final(self).wf(),
            inject_post(*old(self), *final(self), device_id, event, r),
    {
        let config = match self.routing_table.get(device_id) {
            Some(c) => c,
            None => {
                return Err(DeviceError::NotFound);
            }
        };
        match config.method {
            NotifyMethod::Interrupt => self.inject_interrupt(device_id, &config, event),
            NotifyMethod::Poll => {
                let _ = self.poll_flags.set(device_id, event.as_flag());
                Ok(())
            }
            NotifyMethod::Event => self.inject_event(device_id, &config, event),
            NotifyMethod::Callback => {
                // Callback delivery runs at the notifier, before the manager.
                Ok(())
            }
        }
    }

    /// Injects an interrupt for a device by its legacy IRQ line selector.
    pub fn inject_irq(&mut self, device_id: DeviceId, irq_type: IrqType)
        -> (r: Result<(), DeviceError>)
        requires
            old(self).wf(),
        ensures
            final(self).wf(),
            inject_post(*old(self), *final(self), device_id, DeviceEvent::Irq(irq_type), r),
    {
        self.inject(device_id, DeviceEvent::Irq(irq_type))
    }

    /// Injects an interrupt-delivery notification.
    fn inject_interrupt(
        &mut self,
        device_id: DeviceId,
        config: &NotificationConfig,
        event: DeviceEvent,
    ) -> (r: Result<(), DeviceError>)
        requires
            old(self).wf(),
            config@.method == NotifyMethod::Interrupt,
        ensures
            final(self).wf(),
            interrupt_inject_post(*old(self), *final(self), device_id, config@, event, r),
    {
        let irq_opt: Option<u32> = match event {
            DeviceEvent::Irq(IrqType::Additional(idx)) => {
                if (idx as usize) < config.additional_irqs.len() {
                    Some(config.additional_irqs[idx as usize])
                } else {
                    None
                }
            }
            _ => config.primary_irq,
        };
        let irq = match irq_opt {
            Some(irq) => irq,
            None => {
                return Err(DeviceError::InvalidInput);
            }
        };
        proof {
            old(self).lemma_select_in_range(config@.cpu_affinity);
        }
        let cpu_id = self.select_target_cpu(config.cpu_affinity);
        let timestamp = self.bump_timestamp();
        let note = PendingNotification::with_event(
            irq,
            config.priority,
            device_id,
            timestamp,
            event,
        );
        if cpu_id < self.interrupt_queues.len() {
            self.push_interrupt(cpu_id, note);
            Ok(())
        } else {
            Err(DeviceError::InvalidInput)
        }
    }

    /// Injects an event-delivery notification onto the target vCPU's FIFO
    /// event queue.
    fn inject_event(
        &mut self,
        device_id: DeviceId,
        config: &NotificationConfig,
        event: DeviceEvent,
    ) -> (r: Result<(), DeviceError>)
        requires
            old(self).wf(),
        ensures
            final(self).wf(),
            event_inject_post(*old(self), *final(self), device_id, config@, event, r),
    {
        proof {
            old(self).lemma_select_in_range(config@.cpu_affinity);
        }
        let cpu_id = self.select_target_cpu(config.cpu_affinity);
        let timestamp = self.bump_timestamp();

        // Event delivery does not need an IRQ number; default to zero.
        let irq = match config.primary_irq {
            Some(irq) => irq,
            None => 0,
        };
        let note = PendingNotification::with_event(
            irq,
            config.priority,
            device_id,
            timestamp,
            event,
        );
        if cpu_id < self.event_queues.len() {
            let mut q: Vec<PendingNotification> = Vec::new();
            self.event_queues.set_and_swap(cpu_id, &mut q);
            q.push(note);
            self.event_queues.set(cpu_id, q);
            Ok(())
        } else {
            Err(DeviceError::InvalidInput)
        }
    }

    /// Injects an interrupt in pending (uncommitted) state: transactional
    /// phase one.
    ///
    /// Returns the target vCPU and the entry id, to be settled by exactly one
    /// later `confirm_pending` or `rollback_pending`.  Fails with `NotFound`
    /// when the device is not registered, and with `InvalidInput` when the
    /// IRQ line cannot be resolved.
    pub fn inject_pending(&mut self, device_id: DeviceId, irq_type: IrqType)
        -> (r: Result<(usize, EntryId), DeviceError>)
        requires
            old(self).wf(),
            forall|c: int| 0 <= c < old(self).spec_cpu_count()
                ==> old(self).next_entry_id(c) < u64::MAX,
        ensures
            final(self).wf(),
            final(self).routing() == old(self).routing(),
            final(self).polls() == old(self).polls(),
            final(self).spec_cpu_count() == old(self).spec_cpu_count(),
            forall|c: int| 0 <= c < old(self).spec_cpu_count()
                ==> final(self).interrupts(c) == old(self).interrupts(c)
                    && final(self).events(c) == old(self).events(c),
            !old(self).routing().dom().contains(device_id)
                ==> r == Err::<(usize, EntryId), DeviceError>(DeviceError::NotFound)
                    && *final(self) == *old(self),
            old(self).routing().dom().contains(device_id) ==> {
                let cfg = old(self).routing()[device_id]@;
                let resolved = resolve_irq(cfg, DeviceEvent::Irq(irq_type));
                &&& resolved is None
                    ==> r == Err::<(usize, EntryId), DeviceError>(DeviceError::InvalidInput)
                        && *final(self) == *old(self)
                &&& resolved is Some ==> {
                    let cpu = old(self).spec_select(cfg.cpu_affinity);
                    let eid = old(self).next_entry_id(cpu);
                    let note = PendingNotification {
                        irq: resolved->Some_0,
                        priority: cfg.priority,
                        device_id,
                        timestamp: old(self).spec_timestamp(),
                        event: DeviceEvent::Irq(irq_type),
                    };
                    &&& r == Ok::<(usize, EntryId), DeviceError>((cpu as usize, eid))
                    &&& final(self).uncommitted(cpu)
                        == old(self).uncommitted(cpu).insert(eid, note)
                    &&& final(self).uncommitted_size(cpu)
                        == old(self).uncommitted_size(cpu) + 1
                    &&& forall|c: int| 0 <= c < old(self).spec_cpu_count() && c != cpu
                        ==> final(self).uncommitted(c) == old(self).uncommitted(c)
                            && final(self).uncommitted_size(c) == old(self).uncommitted_size(c)
                    &&& final(self).spec_timestamp()
                        == wrap_bump(old(self).spec_timestamp())
                    &&& (cfg.cpu_affinity == CpuAffinity::RoundRobin
                        ==> final(self).spec_next_cpu()
                            == wrap_bump(old(self).spec_next_cpu()))
                    &&& (cfg.cpu_affinity != CpuAffinity::RoundRobin
                        ==> final(self).spec_next_cpu() == old(self).spec_next_cpu())
                }
            },
    {
        let config = match self.routing_table.get(device_id) {
            Some(c) => c,
            None => {
                return Err(DeviceError::NotFound);
            }
        };
        let irq_opt: Option<u32> = match irq_type {
            IrqType::Primary => config.primary_irq,
            IrqType::Additional(idx) => {
                if (idx as usize) < config.additional_irqs.len() {
                    Some(config.additional_irqs[idx as usize])
                } else {
                    None
                }
            }
        };
        let irq = match irq_opt {
            Some(irq) => irq,
            None => {
                return Err(DeviceError::InvalidInput);
            }
        };
        proof {
            old(self).lemma_select_in_range(config@.cpu_affinity);
        }
        let cpu_id = self.select_target_cpu(config.cpu_affinity);
        let timestamp = self.bump_timestamp();
        let note = PendingNotification::with_event(
            irq,
            config.priority,
            device_id,
            timestamp,
            DeviceEvent::Irq(irq_type),
        );
        if cpu_id < self.interrupt_queues.len() {
            proof {
                assert(self.next_entry_id(cpu_id as int)
                    == old(self).next_entry_id(cpu_id as int));
                assert(old(self).next_entry_id(cpu_id as int) < u64::MAX);
            }
            let mut q = TransactionalNotificationQueue::new();
            self.interrupt_queues.set_and_swap(cpu_id, &mut q);
            proof {
                assert(q.spec_next_id() < u64::MAX);
            }
            let entry_id = q.push_pending(note);
            self.interrupt_queues.set(cpu_id, q);
            Ok((cpu_id, entry_id))
        } else {
            Err(DeviceError::InvalidInput)
        }
    }

    /// Injects an interrupt directly by IRQ number, on behalf of a
    /// passthrough device; the notification carries the synthetic
    /// passthrough device id and the fixed passthrough priority is chosen by
    /// the caller.
    ///
    /// Fails with `InvalidInput` exactly when the vCPU index is out of
    /// range.
    pub fn inject_raw(&mut self, irq: u32, cpu_id: usize, priority: u8)
        -> (r: Result<(), DeviceError>)
        requires
            old(self).wf(),
            PASSTHROUGH_BASE + irq <= usize::MAX,
        ensures
            final(self).wf(),
            final(self).routing() == old(self).routing(),
            final(self).polls() == old(self).polls(),
            final(self).spec_cpu_count() == old(self).spec_cpu_count(),
            forall|c: int| 0 <= c < old(self).spec_cpu_count()
                ==> final(self).uncommitted(c) == old(self).uncommitted(c)
                    && final(self).events(c) == old(self).events(c),
            cpu_id >= old(self).spec_cpu_count()
                ==> r == Err::<(), DeviceError>(DeviceError::InvalidInput)
                    && *final(self) == *old(self),
            cpu_id < old(self).spec_cpu_count() ==> {
                let note = PendingNotification {
                    irq,
                    priority,
                    device_id: DeviceId((PASSTHROUGH_BASE + irq) as usize),
                    timestamp: old(self).spec_timestamp(),
                    event: DeviceEvent::Irq(IrqType::Primary),
                };
                &&& r is Ok
                &&& final(self).interrupts(cpu_id as int)
                    == old(self).interrupts(cpu_id as int).insert(note)
                &&& forall|c: int| 0 <= c < old(self).spec_cpu_count() && c != cpu_id
                    ==> final(self).interrupts(c) == old(self).interrupts(c)
                &&& final(self).spec_timestamp() == wrap_bump(old(self).spec_timestamp())
            },
    {
        if cpu_id >= self.interrupt_queues.len() {
            return Err(DeviceError::InvalidInput);
        }

        let timestamp = self.bump_timestamp();
        let device_id = DeviceId::passthrough(irq);
        let note = PendingNotification::new(irq, priority, device_id, timestamp);
        self.push_interrupt(cpu_id, note);
        Ok(())
    }

    /// Drains up to `max` events from a vCPU's event queue, preserving FIFO
    /// order; out-of-range vCPUs yield nothing.
    pub fn drain_events(&mut self, cpu_id: usize, max: usize) -> (r: Vec<PendingNotification>)
        requires
            old(self).wf(),
        ensures
            final(self).wf(),
            final(self).routing() == old(self).routing(),
            final(self).polls() == old(self).polls(),
            final(self).spec_cpu_count() == old(self).spec_cpu_count(),
            forall|c: int| 0 <= c < old(self).spec_cpu_count()
                ==> final(self).interrupts(c) == old(self).interrupts(c)
                    && final(self).uncommitted(c) == old(self).uncommitted(c)
                    && final(self).uncommitted_size(c) == old(self).uncommitted_size(c),
            forall|c: int| 0 <= c < old(self).spec_cpu_count() && c != cpu_id
                ==> final(self).events(c) == old(self).events(c),
            cpu_id >= old(self).spec_cpu_count() ==> r@ =~= Seq::<PendingNotification>::empty()
                && *final(self) == *old(self),
            cpu_id < old(self).spec_cpu_count() ==> {
                let k = if old(self).events(cpu_id as int).len() <= max {
                    old(self).events(cpu_id as int).len() as int
                } else {
                    max as int
                };
                &&& r@ == old(self).events(cpu_id as int).take(k)
                &&& final(self).events(cpu_id as int) == old(self).events(cpu_id as int).skip(k)
            },
    {
        if cpu_id >= self.event_queues.len() {
            return Vec::new();
        }

        let mut q: Vec<PendingNotification> = Vec::new();
        self.event_queues.set_and_swap(cpu_id, &mut q);
        let ghost orig = q@;

        let count = if q.len() <= max {
            q.len()
        } else {
            max
        };
        let mut out: Vec<PendingNotification> = Vec::new();
        let mut j: usize = 0;
        while j < count
            invariant
                count <= orig.len(),
                j <= count,
                out@ =~= orig.take(j as int),
                q@ =~= orig.skip(j as int),
            decreases count - j,
        {
            let n = q.remove(0);
            proof {
                assert(orig.skip(j as int).remove(0) =~= orig.skip(j as int + 1));
                assert(n == orig[j as int]);
                assert(orig.take(j as int).push(n) =~= orig.take(j as int + 1));
            }
            out.push(n);
            j = j + 1;
        }
        self.event_queues.set(cpu_id, q);
        out
    }

    /// Registers a device's notification configuration.
    ///
    /// A poll-method device also gets a cleared poll-flag slot, before the
    /// routing registration is attempted.  Fails with `AlreadyExists`,
    /// leaving the routing unchanged, exactly when the id is already
    /// registered.
    pub fn register_notification(&mut self, device_id: DeviceId, config: NotificationConfig)
        -> (r: Result<(), DeviceError>)
        requires
            old(self).wf(),
        ensures
            final(self).wf(),
            config@.method == NotifyMethod::Poll
                ==> final(self).polls() == old(self).polls().insert(device_id, 0u32),
            config@.method != NotifyMethod::Poll ==> final(self).polls() == old(self).polls(),
            old(self).routing().dom().contains(device_id) ==> {
                &&& r == Err::<(), DeviceError>(DeviceError::AlreadyExists)
                &&& final(self).routing() == old(self).routing()
            },
            !old(self).routing().dom().contains(device_id) ==> {
                &&& r is Ok
                &&& final(self).routing() == old(self).routing().insert(device_id, config)
            },
            final(self).spec_cpu_count() == old(self).spec_cpu_count(),
            final(self).spec_timestamp() == old(self).spec_timestamp(),
            final(self).spec_next_cpu() == old(self).spec_next_cpu(),
            forall|c: int| 0 <= c < old(self).spec_cpu_count()
                ==> final(self).interrupts(c) == old(self).interrupts(c)
                    && final(self).uncommitted(c) == old(self).uncommitted(c)
                    && final(self).uncommitted_size(c) == old(self).uncommitted_size(c)
                    && final(self).events(c) == old(self).events(c),
    {
        if config.method == NotifyMethod::Poll {
            self.poll_flags.register(device_id);
        }
        self.routing_table.register_notification(device_id, config)
    }

    /// Registers a device's legacy interrupt configuration, converted to a
    /// notification configuration.
    ///
    /// Fails with `AlreadyExists`, changing nothing, exactly when the id is
    /// already registered.
    pub fn register(&mut self, device_id: DeviceId, config: InterruptConfig)
        -> (r: Result<(), DeviceError>)
        requires
            old(self).wf(),
        ensures
            final(self).wf(),
            final(self).polls() == old(self).polls(),
            old(self).routing().dom().contains(device_id) ==> {
                &&& r == Err::<(), DeviceError>(DeviceError::AlreadyExists)
                &&& final(self).routing() == old(self).routing()
            },
            !old(self).routing().dom().contains(device_id) ==> {
                &&& r is Ok
                &&& final(self).routing().dom() == old(self).routing().dom().insert(device_id)
                &&& final(self).routing()[device_id]@ == (ConfigView {
                    method: NotifyMethod::Interrupt,
                    primary_irq: Some(config.primary_irq),
                    additional_irqs: config.additional_irqs@,
                    trigger_mode: config.trigger_mode,
                    cpu_affinity: config.cpu_affinity,
                    priority: config.priority,
                    coalesce: false,
                })
                &&& forall|k: DeviceId| k != device_id && old(self).routing().dom().contains(k)
                    ==> final(self).routing()[k] == old(self).routing()[k]
            },
            final(self).spec_cpu_count() == old(self).spec_cpu_count(),
            forall|c: int| 0 <= c < old(self).spec_cpu_count()
                ==> final(self).interrupts(c) == old(self).interrupts(c)
                    && final(self).uncommitted(c) == old(self).uncommitted(c)
                    && final(self).events(c) == old(self).events(c),
    {
        self.routing_table.register(device_id, config)
    }

    /// Unregisters a device's notification configuration and drops its
    /// poll-flag slot.
    ///
    /// Fails with `NotFound` exactly when the id is not in the routing
    /// table; the poll-flag slot is dropped either way.
    pub fn unregister(&mut self, device_id: DeviceId) -> (r: Result<(), DeviceError>)
        requires
            old(self).wf(),
        ensures
            final(self).wf(),
            final(self).polls() == old(self).polls().remove(device_id),
            old(self).routing().dom().contains(device_id) ==> r is Ok
                && final(self).routing() == old(self).routing().remove(device_id),
            !old(self).routing().dom().contains(device_id)
                ==> r == Err::<(), DeviceError>(DeviceError::NotFound)
                    && final(self).routing() == old(self).routing(),
            final(self).spec_cpu_count() == old(self).spec_cpu_count(),
            forall|c: int| 0 <= c < old(self).spec_cpu_count()
                ==> final(self).interrupts(c) == old(self).interrupts(c)
                    && final(self).uncommitted(c) == old(self).uncommitted(c)
                    && final(self).events(c) == old(self).events(c),
    {
        self.poll_flags.unregister(device_id);
        self.routing_table.unregister(device_id)
    }

    /// Confirms a pending interrupt entry on a vCPU, moving it into the
    /// priority queue; out-of-range vCPUs and unknown entry ids are ignored.
    pub fn confirm_pending(&mut self, cpu_id: usize, entry_id: EntryId)
        requires
            old(self).wf(),
        ensures
            final(self).wf(),
            final(self).routing() == old(self).routing(),
            final(self).polls() == old(self).polls(),
            final(self).spec_cpu_count() == old(self).spec_cpu_count(),
            final(self).spec_timestamp() == old(self).spec_timestamp(),
            forall|c: int| 0 <= c < old(self).spec_cpu_count() && c != cpu_id
                ==> final(self).interrupts(c) == old(self).interrupts(c)
                    && final(self).uncommitted(c) == old(self).uncommitted(c)
                    && final(self).uncommitted_size(c) == old(self).uncommitted_size(c),
            forall|c: int| 0 <= c < old(self).spec_cpu_count()
                ==> final(self).events(c) == old(self).events(c),
            cpu_id >= old(self).spec_cpu_count() ==> *final(self) == *old(self),
            cpu_id < old(self).spec_cpu_count()
                && old(self).uncommitted(cpu_id as int).dom().contains(entry_id) ==> {
                &&& final(self).uncommitted(cpu_id as int)
                    == old(self).uncommitted(cpu_id as int).remove(entry_id)
                &&& final(self).uncommitted_size(cpu_id as int)
                    == old(self).uncommitted_size(cpu_id as int) - 1
                &&& final(self).interrupts(cpu_id as int)
                    == old(self).interrupts(cpu_id as int).insert(
                    old(self).uncommitted(cpu_id as int)[entry_id],
                )
            },
            cpu_id < old(self).spec_cpu_count()
                && !old(self).uncommitted(cpu_id as int).dom().contains(entry_id) ==> {
                &&& final(self).uncommitted(cpu_id as int) == old(self).uncommitted(cpu_id as int)
                &&& final(self).uncommitted_size(cpu_id as int)
                    == old(self).uncommitted_size(cpu_id as int)
                &&& final(self).interrupts(cpu_id as int) == old(self).interrupts(cpu_id as int)
            },
    {
        if cpu_id < self.interrupt_queues.len() {
            let mut q = TransactionalNotificationQueue::new();
            self.interrupt_queues.set_and_swap(cpu_id, &mut q);
            q.confirm(entry_id);
            self.interrupt_queues.set(cpu_id, q);
        }
    }

    /// Rolls back a pending interrupt entry on a vCPU, discarding it;
    /// out-of-range vCPUs and unknown entry ids are ignored.
    pub fn rollback_pending(&mut self, cpu_id: usize, entry_id: EntryId)
        requires
            old(self).wf(),
        ensures
            final(self).wf(),
            final(self).routing() == old(self).routing(),
            final(self).polls() == old(self).polls(),
            final(self).spec_cpu_count() == old(self).spec_cpu_count(),
            final(self).spec_timestamp() == old(self).spec_timestamp(),
            forall|c: int| 0 <= c < old(self).spec_cpu_count()
                ==> final(self).interrupts(c) == old(self).interrupts(c)
                    && final(self).events(c) == old(self).events(c),
            forall|c: int| 0 <= c < old(self).spec_cpu_count() && c != cpu_id
                ==> final(self).uncommitted(c) == old(self).uncommitted(c)
                    && final(self).uncommitted_size(c) == old(self).uncommitted_size(c),
            cpu_id >= old(self).spec_cpu_count() ==> *final(self) == *old(self),
            cpu_id < old(self).spec_cpu_count()
                && old(self).uncommitted(cpu_id as int).dom().contains(entry_id) ==> {
                &&& final(self).uncommitted(cpu_id as int)
                    == old(self).uncommitted(cpu_id as int).remove(entry_id)
                &&& final(self).uncommitted_size(cpu_id as int)
                    == old(self).uncommitted_size(cpu_id as int) - 1
            },
            cpu_id < old(self).spec_cpu_count()
                && !old(self).uncommitted(cpu_id as int).dom().contains(entry_id) ==> {
                &&& final(self).uncommitted(cpu_id as int) == old(self).uncommitted(cpu_id as int)
                &&& final(self).uncommitted_size(cpu_id as int)
                    == old(self).uncommitted_size(cpu_id as int)
            },
    {
        if cpu_id < self.interrupt_queues.len() {
            let mut q = TransactionalNotificationQueue::new();
            self.interrupt_queues.set_and_swap(cpu_id, &mut q);
            q.rollback(entry_id);
            self.interrupt_queues.set(cpu_id, q);
        }
    }

    /// Pops the notification of maximal priority from a vCPU's interrupt
    /// queue; ties go to the earliest timestamp.  Out-of-range vCPUs and an
    /// empty queue report `None`.
    pub fn pop_pending(&mut self, cpu_id: usize) -> (r: Option<PendingNotification>)
        requires
            old(self).wf(),
        ensures
            final(self).wf(),
            final(self).routing() == old(self).routing(),
            final(self).polls() == old(self).polls(),
            final(self).spec_cpu_count() == old(self).spec_cpu_count(),
            forall|c: int| 0 <= c < old(self).spec_cpu_count()
                ==> final(self).uncommitted(c) == old(self).uncommitted(c)
                    && final(self).uncommitted_size(c) == old(self).uncommitted_size(c)
                    && final(self).events(c) == old(self).events(c),
            forall|c: int| 0 <= c < old(self).spec_cpu_count() && c != cpu_id
                ==> final(self).interrupts(c) == old(self).interrupts(c),
            cpu_id >= old(self).spec_cpu_count() ==> r is None && *final(self) == *old(self),
            cpu_id < old(self).spec_cpu_count()
                && old(self).interrupts(cpu_id as int).len() == 0 ==> r is None
                && final(self).interrupts(cpu_id as int) == old(self).interrupts(cpu_id as int),
            cpu_id < old(self).spec_cpu_count()
                && old(self).interrupts(cpu_id as int).len() > 0 ==> r is Some && {
                let m = r->Some_0;
                &&& old(self).interrupts(cpu_id as int).count(m) > 0
                &&& final(self).interrupts(cpu_id as int)
                    == old(self).interrupts(cpu_id as int).remove(m)
                &&& forall|x: PendingNotification| final(self).interrupts(cpu_id as int).count(x)
                    > 0 ==> pops_before_eq(m, x)
            },
    {
        if cpu_id < self.interrupt_queues.len() {
            let mut q = TransactionalNotificationQueue::new();
            self.interrupt_queues.set_and_swap(cpu_id, &mut q);
            let r = q.pop();
            self.interrupt_queues.set(cpu_id, q);
            r
        } else {
            None
        }
    }

    /// The number of confirmed interrupt notifications queued for a vCPU;
    /// out-of-range vCPUs report zero.
    pub fn pending_count(&self, cpu_id: usize) -> (r: usize)
        requires
            self.wf(),
        ensures
            cpu_id < self.spec_cpu_count() ==> r == self.interrupts(cpu_id as int).len(),
            cpu_id >= self.spec_cpu_count() ==> r == 0,
    {
        if cpu_id < self.interrupt_queues.len() {
            self.interrupt_queues[cpu_id].len()
        } else {
            0
        }
    }

    /// The number of uncommitted pending entries on a vCPU's interrupt
    /// queue; out-of-range vCPUs report zero.
    pub fn uncommitted_count(&self, cpu_id: usize) -> (r: usize)
        requires
            self.wf(),
        ensures
            cpu_id < self.spec_cpu_count() ==> r == self.uncommitted_size(cpu_id as int),
            cpu_id >= self.spec_cpu_count() ==> r == 0,
    {
        if cpu_id < self.interrupt_queues.len() {
            self.interrupt_queues[cpu_id].pending_count()
        } else {
            0
        }
    }

    /// Reads and clears a device's poll flags in one step; unregistered
    /// devices report zero.
    pub fn check_poll(&mut self, device_id: DeviceId) -> (r: u32)
        requires
            old(self).wf(),
        ensures
            final(self).wf(),
            old(self).polls().dom().contains(device_id) ==> {
                &&& r == old(self).polls()[device_id]
                &&& final(self).polls() == old(self).polls().insert(device_id, 0u32)
            },
            !old(self).polls().dom().contains(device_id) ==> r == 0
                && final(self).polls() == old(self).polls(),
            final(self).routing() == old(self).routing(),
            final(self).spec_cpu_count() == old(self).spec_cpu_count(),
            forall|c: int| 0 <= c < old(self).spec_cpu_count()
                ==> final(self).interrupts(c) == old(self).interrupts(c)
                    && final(self).uncommitted(c) == old(self).uncommitted(c)
                    && final(self).events(c) == old(self).events(c),
    {
        self.poll_flags.check_and_clear(device_id)
    }

    /// Reads a device's poll flags without clearing them; unregistered
    /// devices report zero.
    pub fn peek_poll(&self, device_id: DeviceId) -> (r: u32)
        requires
            self.wf(),
        ensures
            self.polls().dom().contains(device_id) ==> r == self.polls()[device_id],
            !self.polls().dom().contains(device_id) ==> r == 0,
    {
        self.poll_flags.peek(device_id)
    }

    /// The number of devices in the routing table.
    pub fn registered_device_count(&self) -> (r: usize)
        requires
            self.wf(),
        ensures
            r == self.routing_len(),
    {
        self.routing_table.len()
    }

    /// Tests whether any registered device has pending poll flags.
    pub fn has_any_poll_pending(&self) -> (r: bool)
        requires
            self.wf(),
        ensures
            r == exists|k: DeviceId| self.polls().dom().contains(k) && self.polls()[k] != 0,
    {
        let r = self.poll_flags.has_any_pending();
        proof {
            if r {
                let k = choose|k: DeviceId| self.poll_flags.flags_map().dom().contains(k)
                    && self.poll_flags.flags_map()[k] != 0;
                assert(self.polls().dom().contains(k) && self.polls()[k] != 0);
            }
        }
        r
    }

    /// Collects the devices whose poll flags are pending, with their flag
    /// words.
    pub fn get_all_poll_pending(&self) -> (r: Vec<(DeviceId, u32)>)
        requires
            self.wf(),
        ensures
            forall|i: int| 0 <= i < r@.len() ==> {
                &&& self.polls().dom().contains((#[trigger] r@[i]).0)
                &&& self.polls()[r@[i].0] == r@[i].1
                &&& r@[i].1 != 0
            },
            forall|k: DeviceId| self.polls().dom().contains(k) && self.polls()[k] != 0
                ==> exists|i: int| 0 <= i < r@.len() && (#[trigger] r@[i]).0 == k,
    {
        self.poll_flags.get_all_pending()
    }

    /// Clears every vCPU's interrupt queue, pending table and event queue.
    ///
    /// Poll flags are not cleared.
    pub fn clear_all_pending(&mut self)
        requires
            old(self).wf(),
        ensures
            final(self).wf(),
            final(self).routing() == old(self).routing(),
            final(self).polls() == old(self).polls(),
            final(self).spec_cpu_count() == old(self).spec_cpu_count(),
            final(self).spec_timestamp() == old(self).spec_timestamp(),
            final(self).spec_next_cpu() == old(self).spec_next_cpu(),
            forall|c: int| 0 <= c < old(self).spec_cpu_count() ==> {
                &&& final(self).interrupts(c) =~= Multiset::<PendingNotification>::empty()
                &&& final(self).uncommitted(c) =~= Map::<EntryId, PendingNotification>::empty()
                &&& final(self).uncommitted_size(c) == 0
                &&& final(self).next_entry_id(c) == old(self).next_entry_id(c)
                &&& final(self).events(c) =~= Seq::<PendingNotification>::empty()
            },
    {
        let ghost iq0 = self.interrupt_queues@;
        let n = self.interrupt_queues.len();
        let mut interrupt_queues: Vec<TransactionalNotificationQueue> = Vec::new();
        let mut event_queues: Vec<Vec<PendingNotification>> = Vec::new();
        let mut i: usize = 0;
        while i < n
            invariant
                old(self).wf(),
                iq0 == old(self).interrupt_queues@,
                n == iq0.len(),
                self.interrupt_queues@.len() == n,
                self.routing_table == old(self).routing_table,
                self.poll_flags == old(self).poll_flags,
                self.cpu_count == old(self).cpu_count,
                self.timestamp == old(self).timestamp,
                self.next_cpu == old(self).next_cpu,
                i <= n,
                interrupt_queues@.len() == i,
                event_queues@.len() == i,
                forall|c: int| i <= c < n
                    ==> #[trigger] self.interrupt_queues@[c] == iq0[c],
                forall|c: int| 0 <= c < i ==> (#[trigger] interrupt_queues@[c]).wf()
                    && interrupt_queues@[c].confirmed_ms() =~= Multiset::<
                    PendingNotification,
                >::empty()
                    && interrupt_queues@[c].pending_map() =~= Map::<
                    EntryId,
                    PendingNotification,
                >::empty()
                    && interrupt_queues@[c].pending_len() == 0
                    && interrupt_queues@[c].spec_next_id() == iq0[c].spec_next_id(),
                forall|c: int| 0 <= c < i ==> (#[trigger] event_queues@[c])@ =~= Seq::<
                    PendingNotification,
                >::empty(),
            decreases n - i,
        {
            // Swap each queue out and clear it in place, keeping its
            // entry-id counter so ids stay fresh across a VM reset.
            let mut q = TransactionalNotificationQueue::new();
            self.interrupt_queues.set_and_swap(i, &mut q);
            proof {
                assert(q == iq0[i as int]);
                assert(q.wf());
            }
            q.clear_all();
            interrupt_queues.push(q);
            event_queues.push(Vec::new());
            i = i + 1;
        }
        self.interrupt_queues = interrupt_queues;
        self.event_queues = event_queues;
    }
}

} // verus!
