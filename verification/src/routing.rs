//! Routing table mapping device ids to notification configurations.

use vstd::prelude::*;

use crate::base::{ConfigView, InterruptConfig, NotificationConfig, NotifyMethod};
use crate::errors::DeviceError;
use crate::kv::{
    distinct_keys, lemma_distinct_keys_remove, lemma_list_to_map_membership,
    lemma_list_to_map_push, lemma_list_to_map_remove, list_to_map,
};
use crate::wrapper::DeviceId;

verus! {

/// Notification routing table.
///
/// `get` hands out a copy of the stored configuration, so callers do not
/// keep the table borrowed across an injection.
pub struct RoutingTable {
    entries: Vec<(DeviceId, NotificationConfig)>,
}

impl RoutingTable {
    /// The stored configurations by device id.
    pub closed spec fn table(self) -> Map<DeviceId, NotificationConfig> {
        list_to_map(self.entries@)
    }

    /// The number of registered devices.
    pub closed spec fn spec_len(self) -> nat {
        self.entries@.len()
    }

    /// Well-formedness: each device id is registered at most once.
    pub closed spec fn wf(self) -> bool {
        distinct_keys(self.entries@)
    }

    /// Creates an empty routing table.
    pub fn new() -> (r: Self)
        ensures
            r.wf(),
            r.table() =~= Map::<DeviceId, NotificationConfig>::empty(),
            r.spec_len() == 0,
    {
        Self { entries: Vec::new() }
    }

    /// Finds the table index of a device id.
    fn find(&self, device_id: DeviceId) -> (r: Option<usize>)
        ensures
            r is Some ==> r->Some_0 < self.entries@.len()
                && self.entries@[r->Some_0 as int].0 == device_id,
            r is None ==> forall|j: int| 0 <= j < self.entries@.len()
                ==> self.entries@[j].0 != device_id,
    {
        let n = self.entries.len();
        let mut i: usize = 0;
        while i < n
            invariant
                n == self.entries@.len(),
                i <= n,
                forall|j: int| 0 <= j < i ==> self.entries@[j].0 != device_id,
            decreases n - i,
        {
            if self.entries[i].0 == device_id {
                return Some(i);
            }
            i = i + 1;
        }
        None
    }

    /// Registers a device's notification configuration.
    ///
    /// Fails with `AlreadyExists`, changing nothing, exactly when the id is
    /// already registered.
    pub fn register_notification(&mut self, device_id: DeviceId, config: NotificationConfig)
        -> (r: Result<(), DeviceError>)
        requires
            old(self).wf(),
        ensures
            final(self).wf(),
            old(self).table().dom().contains(device_id) ==> {
                &&& r == Err::<(), DeviceError>(DeviceError::AlreadyExists)
                &&& final(self).table() == old(self).table()
                &&& final(self).spec_len() == old(self).spec_len()
            },
            !old(self).table().dom().contains(device_id) ==> {
                &&& r is Ok
                &&& final(self).table() == old(self).table().insert(device_id, config)
                &&& final(self).spec_len() == old(self).spec_len() + 1
            },
    {
        proof {
            lemma_list_to_map_membership(self.entries@, device_id);
        }
        match self.find(device_id) {
            Some(_) => Err(DeviceError::AlreadyExists),
            None => {
                proof {
                    lemma_list_to_map_push(self.entries@, device_id, config);
                }
                self.entries.push((device_id, config));
                Ok(())
            }
        }
    }

    /// Registers a device's legacy interrupt configuration, converted to a
    /// notification configuration.
    ///
    /// Fails with `AlreadyExists`, changing nothing, exactly when the id is
    /// already registered.
    pub fn register(&mut self, device_id: DeviceId, config: InterruptConfig)
        -> (r: Result<(), DeviceError>)
        requires
            old(self).wf(),
        ensures
            final(self).wf(),
            old(self).table().dom().contains(device_id) ==> {
                &&& r == Err::<(), DeviceError>(DeviceError::AlreadyExists)
                &&& final(self).table() == old(self).table()
            },
            !old(self).table().dom().contains(device_id) ==> {
                &&& r is Ok
                &&& final(self).table().dom()
                    == old(self).table().dom().insert(device_id)
                &&& final(self).table()[device_id]@ == (ConfigView {
                    method: NotifyMethod::Interrupt,
                    primary_irq: Some(config.primary_irq),
                    additional_irqs: config.additional_irqs@,
                    trigger_mode: config.trigger_mode,
                    cpu_affinity: config.cpu_affinity,
                    priority: config.priority,
                    coalesce: false,
                })
                &&& forall|k: DeviceId| k != device_id && old(self).table().dom().contains(k)
                    ==> final(self).table()[k] == old(self).table()[k]
            },
    {
        let converted = NotificationConfig::from_interrupt_config(&config);
        let r = self.register_notification(device_id, converted);
        proof {
            if !old(self).table().dom().contains(device_id) {
                assert(self.table().dom() =~= old(self).table().dom().insert(device_id));
            }
        }
        r
    }

    /// Unregisters a device's notification configuration.
    ///
    /// Fails with `NotFound`, changing nothing, exactly when the id is not
    /// registered.
    pub fn unregister(&mut self, device_id: DeviceId) -> (r: Result<(), DeviceError>)
        requires
            old(self).wf(),
        ensures
            final(self).wf(),
            old(self).table().dom().contains(device_id) ==> {
                &&& r is Ok
                &&& final(self).table() == old(self).table().remove(device_id)
                &&& final(self).spec_len() == old(self).spec_len() - 1
            },
            !old(self).table().dom().contains(device_id) ==> {
                &&& r == Err::<(), DeviceError>(DeviceError::NotFound)
                &&& final(self).table() == old(self).table()
                &&& final(self).spec_len() == old(self).spec_len()
            },
    {
        proof {
            lemma_list_to_map_membership(self.entries@, device_id);
        }
        match self.find(device_id) {
            Some(i) => {
                proof {
                    lemma_list_to_map_remove(self.entries@, i as int);
                    lemma_distinct_keys_remove(self.entries@, i as int);
                }
                let _ = self.entries.remove(i);
                Ok(())
            }
            None => Err(DeviceError::NotFound),
        }
    }

    /// Gets a copy of the notification configuration for a device.
    ///
    /// Returns `None` exactly when the id is not registered.
    pub fn get(&self, device_id: DeviceId) -> (r: Option<NotificationConfig>)
        requires
            self.wf(),
        ensures
            r is Some <==> self.table().dom().contains(device_id),
            r is Some ==> r->Some_0@ == self.table()[device_id]@,
    {
        proof {
            lemma_list_to_map_membership(self.entries@, device_id);
        }
        match self.find(device_id) {
            Some(i) => Some(self.entries[i].1.duplicate()),
            None => None,
        }
    }

    /// Gets the legacy interrupt configuration for a device.
    ///
    /// Returns `None` when the id is not registered, and also when the
    /// stored configuration does not use interrupt delivery with a primary
    /// IRQ.
    pub fn get_interrupt_config(&self, device_id: DeviceId) -> (r: Option<InterruptConfig>)
        requires
            self.wf(),
        ensures
            r is Some <==> {
                &&& self.table().dom().contains(device_id)
                &&& self.table()[device_id]@.method == NotifyMethod::Interrupt
                &&& self.table()[device_id]@.primary_irq is Some
            },
            r is Some ==> {
                let c = r->Some_0;
                let stored = self.table()[device_id]@;
                &&& c.primary_irq == stored.primary_irq->Some_0
                &&& c.additional_irqs@ == stored.additional_irqs
                &&& c.trigger_mode == stored.trigger_mode
                &&& c.cpu_affinity == stored.cpu_affinity
                &&& c.priority == stored.priority
            },
    {
        proof {
            lemma_list_to_map_membership(self.entries@, device_id);
        }
        match self.find(device_id) {
            Some(i) => self.entries[i].1.to_interrupt_config(),
            None => None,
        }
    }

    /// Tests whether a device is registered.
    pub fn contains(&self, device_id: DeviceId) -> (r: bool)
        requires
            self.wf(),
        ensures
            r == self.table().dom().contains(device_id),
    {
        proof {
            lemma_list_to_map_membership(self.entries@, device_id);
        }
        self.find(device_id).is_some()
    }

    /// The number of registered devices.
    pub fn len(&self) -> (r: usize)
        ensures
            r == self.spec_len(),
    {
        self.entries.len()
    }

    /// Whether no device is registered.
    pub fn is_empty(&self) -> (r: bool)
        ensures
            r == (self.spec_len() == 0),
    {
        self.entries.len() == 0
    }
}

} // verus!
