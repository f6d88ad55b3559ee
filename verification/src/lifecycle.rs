//! Device lifecycle management: a packed state-and-count word plus an idle
//! wait queue.
//!
//! The packed word holds the lifecycle state in its top 8 bits and the
//! in-flight access count in its bottom 24 bits, so a state check and a
//! count increment are one operation: there is no window between "state is
//! Active" and "count is incremented".

use vstd::prelude::*;

verus! {

/// Number of bits reserved for the access count.
pub const STATE_SHIFT: u32 = 24;

/// Mask selecting the access-count field; also the largest representable count.
pub const COUNT_MASK: u32 = 0x00FF_FFFF;

/// State-field encoding of `DeviceState::Active`.
pub const STATE_ACTIVE_BITS: u32 = 0;

/// State-field encoding of `DeviceState::Removing`.
pub const STATE_REMOVING_BITS: u32 = 1;

/// State-field encoding of `DeviceState::Removed`.
pub const STATE_REMOVED_BITS: u32 = 2;

/// Device lifecycle states.
#[derive(Debug, Clone, Copy, PartialEq, Eq, Structural)]
pub enum DeviceState {
    /// Device is active and can handle requests.
    Active,
    /// Device is being removed; new requests are rejected.
    Removing,
    /// Device has been removed and cleaned up.
    Removed,
}

/// Combined lifecycle state and access count in a single 32-bit word.
///
/// Layout: `[state (8 bits) | access count (24 bits)]`.
pub struct StateAndCount {
    value: u32,
}

impl StateAndCount {
    /// The raw packed word.
    pub closed spec fn bits(self) -> u32 {
        self.value
    }

    /// The state field of the packed word.
    pub open spec fn state_bits(self) -> u32 {
        self.bits() >> STATE_SHIFT
    }

    /// The access-count field of the packed word.
    pub open spec fn spec_count(self) -> u32 {
        self.bits() & COUNT_MASK
    }

    /// Well-formedness: the state field holds one of the three encodings.
    ///
    /// Every constructor and transition keeps the field normalized, so a
    /// word in the Removed state is exactly `(Removed, count)` at the bit
    /// level; resetting from `(Removed, 0)` is then owed success.
    pub open spec fn wf(self) -> bool {
        self.state_bits() <= STATE_REMOVED_BITS
    }

    /// The lifecycle state encoded by the packed word.
    pub open spec fn spec_state(self) -> DeviceState {
        if self.state_bits() == STATE_ACTIVE_BITS {
            DeviceState::Active
        } else if self.state_bits() == STATE_REMOVING_BITS {
            DeviceState::Removing
        } else {
            DeviceState::Removed
        }
    }

    /// The count field never exceeds its mask.
    pub proof fn lemma_count_bounded(self)
        ensures
            self.spec_count() <= COUNT_MASK,
    {
        let v = self.bits();
        assert(v & 0x00FF_FFFFu32 <= 0x00FF_FFFFu32) by (bit_vector);
    }

    /// Creates a new word in Active state with zero access count.
    pub fn new() -> (r: Self)
        ensures
            r.spec_state() == DeviceState::Active,
            r.spec_count() == 0,
            r.state_bits() == STATE_ACTIVE_BITS,
            r.wf(),
    {
        let r = Self { value: STATE_ACTIVE_BITS << STATE_SHIFT };
        proof {
            assert((0u32 << 24u32) >> 24u32 == 0u32 && (0u32 << 24u32) & 0x00FF_FFFFu32 == 0u32)
                by (bit_vector);
        }
        r
    }

    /// Reads the current state.
    pub fn state(&self) -> (r: DeviceState)
        ensures
            r == self.spec_state(),
    {
        let bits = self.value >> STATE_SHIFT;
        if bits == STATE_ACTIVE_BITS {
            DeviceState::Active
        } else if bits == STATE_REMOVING_BITS {
            DeviceState::Removing
        } else {
            DeviceState::Removed
        }
    }

    /// Reads the current access count.
    pub fn count(&self) -> (r: u32)
        ensures
            r == self.spec_count(),
    {
        self.value & COUNT_MASK
    }

    /// Atomically grants an access by incrementing the count, but only while
    /// the state is Active and the count is below its maximum.
    ///
    /// Returns `Err(state)` when the state is not Active, and `Err(Active)`
    /// when the count field is saturated.
    pub fn try_acquire(&mut self) -> (r: Result<(), DeviceState>)
        ensures
            old(self).spec_state() == DeviceState::Active && old(self).spec_count() < COUNT_MASK
                ==> r is Ok
                    && final(self).spec_state() == DeviceState::Active
                    && final(self).state_bits() == STATE_ACTIVE_BITS
                    && final(self).spec_count() == old(self).spec_count() + 1,
            old(self).spec_state() != DeviceState::Active
                ==> r == Err::<(), DeviceState>(old(self).spec_state())
                    && *final(self) == *old(self),
            old(self).spec_state() == DeviceState::Active && old(self).spec_count() == COUNT_MASK
                ==> r == Err::<(), DeviceState>(DeviceState::Active)
                    && *final(self) == *old(self),
            final(self).model() == op_step(old(self).model(), LifecycleOp::TryAcquire),
    {
        let v = self.value;
        let state = v >> STATE_SHIFT;
        if state != STATE_ACTIVE_BITS {
            if state == STATE_REMOVING_BITS {
                return Err(DeviceState::Removing);
            } else {
                return Err(DeviceState::Removed);
            }
        }
        let count = v & COUNT_MASK;
        if count == COUNT_MASK {
            return Err(DeviceState::Active);
        }
        proof {
            assert(v & 0x00FF_FFFFu32 <= 0x00FF_FFFFu32) by (bit_vector);
        }
        self.value = (state << STATE_SHIFT) | (count + 1);
        proof {
            assert(v >> 24u32 == 0u32 && (v & 0x00FF_FFFFu32) < 0x00FF_FFFFu32 ==> {
                let w = ((v >> 24u32) << 24u32) | (((v & 0x00FF_FFFFu32) + 1) as u32);
                w >> 24u32 == 0u32 && (w & 0x00FF_FFFFu32) == ((v & 0x00FF_FFFFu32) + 1) as u32
                    && (v & 0x00FF_FFFFu32) + 1 <= 0x00FF_FFFFu32
            }) by (bit_vector);
        }
        Ok(())
    }

    /// Releases one access by decrementing the count; the state is preserved.
    ///
    /// A release must match an earlier successful acquire, so the count is
    /// positive when this is called.
    pub fn release(&mut self)
        requires
            old(self).spec_count() >= 1,
        ensures
            final(self).spec_count() == old(self).spec_count() - 1,
            final(self).spec_state() == old(self).spec_state(),
            final(self).state_bits() == old(self).state_bits(),
            final(self).model() == op_step(old(self).model(), LifecycleOp::Release),
    {
        let v = self.value;
        proof {
            assert((v & 0x00FF_FFFFu32) >= 1 ==> v >= 1) by (bit_vector);
        }
        let w = v - 1;
        proof {
            assert(((v & 0x00FF_FFFFu32) >= 1 && v == ((w + 1) as u32) && w < 0xFFFF_FFFFu32)
                ==> (w >> 24u32 == v >> 24u32
                    && ((w & 0x00FF_FFFFu32) + 1) as u32 == (v & 0x00FF_FFFFu32)
                    && (w & 0x00FF_FFFFu32) < 0x00FF_FFFFu32)) by (bit_vector);
        }
        self.value = w;
    }

    /// Replaces the state field with Removing, preserving the count.
    ///
    /// Returns the access count observed at the transition.
    pub fn set_removing(&mut self) -> (r: u32)
        ensures
            r == old(self).spec_count(),
            final(self).spec_count() == old(self).spec_count(),
            final(self).spec_state() == DeviceState::Removing,
            final(self).state_bits() == STATE_REMOVING_BITS,
            final(self).model() == op_step(old(self).model(), LifecycleOp::SetRemoving),
    {
        let v = self.value;
        let count = v & COUNT_MASK;
        self.value = (STATE_REMOVING_BITS << STATE_SHIFT) | count;
        proof {
            assert({
                let w = (1u32 << 24u32) | (v & 0x00FF_FFFFu32);
                w >> 24u32 == 1u32 && (w & 0x00FF_FFFFu32) == (v & 0x00FF_FFFFu32)
            }) by (bit_vector);
        }
        count
    }

    /// Stores the Removed state with a zero count.
    ///
    /// Legal only once the count has drained to zero.
    pub fn set_removed(&mut self)
        requires
            old(self).spec_count() == 0,
        ensures
            final(self).spec_state() == DeviceState::Removed,
            final(self).spec_count() == 0,
            final(self).state_bits() == STATE_REMOVED_BITS,
            final(self).model() == op_step(old(self).model(), LifecycleOp::SetRemoved),
    {
        self.value = STATE_REMOVED_BITS << STATE_SHIFT;
        proof {
            assert((2u32 << 24u32) >> 24u32 == 2u32 && (2u32 << 24u32) & 0x00FF_FFFFu32 == 0u32)
                by (bit_vector);
        }
    }

    /// Resets the word from `(Removed, 0)` to `(Active, 0)`.
    ///
    /// Returns `true` exactly when the word held the Removed state with a
    /// zero count; otherwise the word is unchanged.
    pub fn reset_to_active(&mut self) -> (r: bool)
        ensures
            r == (old(self).state_bits() == STATE_REMOVED_BITS && old(self).spec_count() == 0),
            old(self).wf() ==> r == (old(self).spec_state() == DeviceState::Removed
                && old(self).spec_count() == 0),
            r ==> final(self).spec_state() == DeviceState::Active && final(self).spec_count() == 0
                && final(self).state_bits() == STATE_ACTIVE_BITS,
            !r ==> *final(self) == *old(self),
    {
        let v = self.value;
        proof {
            assert(v == (2u32 << 24u32) <==> (v >> 24u32 == 2u32 && v & 0x00FF_FFFFu32 == 0u32))
                by (bit_vector);
            assert((0u32 >> 24u32) == 0u32 && (0u32 & 0x00FF_FFFFu32) == 0u32) by (bit_vector);
        }
        if v == (STATE_REMOVED_BITS << STATE_SHIFT) {
            self.value = STATE_ACTIVE_BITS << STATE_SHIFT;
            proof {
                assert((0u32 << 24u32) == 0u32) by (bit_vector);
            }
            true
        } else {
            false
        }
    }
}

/// Simple wait queue used by removers to sleep until a device drains.
///
/// Sleepers register themselves in `waiters`, spin with backoff and recheck
/// their predicate; releasers set `notified` when at least one waiter is
/// registered.
pub struct WaitQueue {
    /// Number of registered waiters.
    pub waiters: usize,
    /// Whether a notifier has signalled since the last recheck.
    pub notified: bool,
}

impl WaitQueue {
    /// Creates a new wait queue with no waiters and no pending notification.
    pub fn new() -> (r: Self)
        ensures
            r.waiters == 0,
            !r.notified,
    {
        Self { waiters: 0, notified: false }
    }

    /// Waits until the condition is satisfied, rechecking it between bouts
    /// of backoff spinning, for up to `max_spins` spin iterations.
    ///
    /// Returns `true` exactly when a check of the condition came back true.
    /// Nothing mutates shared state between rechecks here, so a condition
    /// that starts false stays false: the queue spins out its budget and
    /// reports the final check.
    pub fn wait_until<F: Fn() -> bool>(&mut self, condition: F, max_spins: usize) -> (r: bool)
        requires
            call_requires(condition, ()),
        ensures
            r ==> call_ensures(condition, (), true),
            !r ==> call_ensures(condition, (), false),
            final(self).waiters == old(self).waiters,
    {
        if condition() {
            return true;
        }

        // Register as a waiter; a saturated counter is left alone, and the
        // deregistration below is skipped to match.
        let registered = self.waiters < usize::MAX;
        if registered {
            self.waiters = self.waiters + 1;
        }
        let mut spins: usize = 0;

        while spins < max_spins
            invariant
                call_requires(condition, ()),
                registered ==> self.waiters == old(self).waiters + 1,
                !registered ==> self.waiters == old(self).waiters,
            decreases max_spins - spins,
        {
            if condition() {
                if registered {
                    self.waiters = self.waiters - 1;
                }
                return true;
            }

            if self.notified {
                // Notified: recheck the condition right away.
                self.notified = false;
            }

            // Backoff before the next recheck.
            if max_spins - spins > 100 {
                spins = spins + 100;
            } else {
                spins = max_spins;
            }
        }

        if registered {
            self.waiters = self.waiters - 1;
        }
        condition()
    }

    /// Signals the registered waiters, if any, to recheck their predicate.
    pub fn notify_all(&mut self)
        ensures
            final(self).waiters == old(self).waiters,
            final(self).notified == (old(self).notified || old(self).waiters > 0),
    {
        if self.waiters > 0 {
            self.notified = true;
        }
    }
}

/// Manages device lifecycle state transitions and access tracking.
///
/// The state machine advances Active to Removing to Removed; a removal may
/// be completed only once the in-flight access count has drained to zero.
pub struct DeviceLifecycle {
    state_count: StateAndCount,
    idle_waiters: WaitQueue,
}

impl DeviceLifecycle {
    /// The lifecycle state.
    pub closed spec fn spec_state(self) -> DeviceState {
        self.state_count.spec_state()
    }

    /// The in-flight access count.
    pub closed spec fn spec_count(self) -> u32 {
        self.state_count.spec_count()
    }

    /// The abstract view of the lifecycle word.
    pub open spec fn model(self) -> LifecycleModel {
        LifecycleModel { state: self.spec_state(), count: self.spec_count() }
    }

    /// Well-formedness: the underlying packed word is normalized.
    ///
    /// Construction establishes it and every transition preserves it; with
    /// it, a Removed lifecycle at count zero is owed a successful reset.
    pub closed spec fn wf(self) -> bool {
        self.state_count.wf()
    }

    /// Creates a new device lifecycle in the Active state.
    pub fn new() -> (r: Self)
        ensures
            r.spec_state() == DeviceState::Active,
            r.spec_count() == 0,
            r.wf(),
    {
        Self { state_count: StateAndCount::new(), idle_waiters: WaitQueue::new() }
    }

    /// Gets the current lifecycle state.
    pub fn state(&self) -> (r: DeviceState)
        ensures
            r == self.spec_state(),
    {
        self.state_count.state()
    }

    /// Gets the current number of active accesses.
    pub fn active_accesses(&self) -> (r: usize)
        ensures
            r == self.spec_count(),
    {
        self.state_count.count() as usize
    }

    /// Attempts to begin an access to the device.
    ///
    /// Succeeds exactly when the device is Active and the access count is
    /// below its maximum; on success the count is incremented, otherwise
    /// nothing changes.
    pub fn try_begin_access(&mut self) -> (r: bool)
        ensures
            r == (old(self).spec_state() == DeviceState::Active
                && old(self).spec_count() < COUNT_MASK),
            final(self).model() == op_step(old(self).model(), LifecycleOp::TryAcquire),
            final(self).spec_state() == old(self).spec_state(),
            r ==> final(self).spec_count() == old(self).spec_count() + 1,
            !r ==> final(self).spec_count() == old(self).spec_count(),
            old(self).wf() ==> final(self).wf(),
    {
        proof {
            self.state_count.lemma_count_bounded();
        }
        self.state_count.try_acquire().is_ok()
    }

    /// Ends an access to the device, and signals idle waiters when the count
    /// reaches zero.
    ///
    /// An end must match an earlier successful begin, so the count is
    /// positive when this is called.
    pub fn end_access(&mut self)
        requires
            old(self).spec_count() >= 1,
        ensures
            final(self).spec_count() == old(self).spec_count() - 1,
            final(self).spec_state() == old(self).spec_state(),
            final(self).model() == op_step(old(self).model(), LifecycleOp::Release),
            old(self).wf() ==> final(self).wf(),
    {
        self.state_count.release();

        if self.state_count.count() == 0 {
            self.idle_waiters.notify_all();
        }
    }

    /// Transitions the device to the Removing state.
    ///
    /// Returns `true` exactly when the device was Active; otherwise nothing
    /// changes.  The access count is preserved either way.
    pub fn begin_removal(&mut self) -> (r: bool)
        ensures
            r == (old(self).spec_state() == DeviceState::Active),
            r ==> final(self).model() == op_step(old(self).model(), LifecycleOp::SetRemoving),
            !r ==> final(self).model() == old(self).model() && *final(self) == *old(self),
            final(self).spec_count() == old(self).spec_count(),
            old(self).wf() ==> final(self).wf(),
    {
        let current_state = self.state_count.state();
        if current_state == DeviceState::Active {
            self.state_count.set_removing();
            true
        } else {
            false
        }
    }

    /// Waits for all active accesses to complete.
    ///
    /// Within a single thread of control, a wait cannot be overtaken by a
    /// release: an access count that is still positive here would never
    /// drain, so the count must already be zero when the wait begins.  The
    /// lifecycle word itself is not changed by waiting.
    pub fn wait_idle(&mut self)
        requires
            old(self).spec_count() == 0,
        ensures
            final(self).spec_count() == 0,
            final(self).spec_state() == old(self).spec_state(),
            old(self).wf() ==> final(self).wf(),
    {
        let sc = &self.state_count;
        let idle = (|| -> (b: bool)
            ensures
                b == (sc.spec_count() == 0),
            {
                sc.count() == 0
            });
        self.idle_waiters.wait_until(idle, 0);
    }

    /// Waits for all active accesses to complete, giving up after `max_spins`
    /// spin iterations; `max_spins == 0` means no timeout.
    ///
    /// Returns `true` exactly when the device became idle.
    pub fn wait_idle_timeout(&mut self, max_spins: usize) -> (r: bool)
        ensures
            r == (old(self).spec_count() == 0),
            final(self).spec_state() == old(self).spec_state(),
            final(self).spec_count() == old(self).spec_count(),
    {
        let sc = &self.state_count;
        let idle = (|| -> (b: bool)
            ensures
                b == (sc.spec_count() == 0),
            {
                sc.count() == 0
            });
        self.idle_waiters.wait_until(idle, max_spins)
    }

    /// Transitions the device to the Removed state.
    ///
    /// Legal only once the access count has drained to zero, which
    /// `wait_idle` establishes.
    pub fn complete_removal(&mut self)
        requires
            old(self).spec_count() == 0,
        ensures
            final(self).spec_state() == DeviceState::Removed,
            final(self).spec_count() == 0,
            final(self).model() == op_step(old(self).model(), LifecycleOp::SetRemoved),
            final(self).wf(),
    {
        self.state_count.set_removed();
    }

    /// Resets the device to the Active state for re-registration after an
    /// unplug.
    ///
    /// On a well-formed lifecycle this succeeds exactly when the device is
    /// Removed with a zero count; otherwise nothing changes.
    pub fn reset_to_active(&mut self) -> (r: bool)
        ensures
            r ==> final(self).spec_state() == DeviceState::Active
                && final(self).spec_count() == 0,
            r ==> old(self).spec_state() == DeviceState::Removed
                && old(self).spec_count() == 0,
            old(self).wf() ==> r == (old(self).spec_state() == DeviceState::Removed
                && old(self).spec_count() == 0),
            !r ==> final(self).model() == old(self).model() && *final(self) == *old(self),
            old(self).wf() ==> final(self).wf(),
    {
        self.state_count.reset_to_active()
    }
}

/// One operation on the lifecycle word, for stating laws over sequences of
/// operations.
#[derive(Clone, Copy, PartialEq, Eq, Structural)]
pub enum LifecycleOp {
    /// An attempted acquire; it succeeds only in the Active state with a
    /// non-saturated count.
    TryAcquire,
    /// A release matching an earlier successful acquire.
    Release,
    /// The transition that starts a removal.
    SetRemoving,
    /// The transition that completes a removal; enabled only at count zero.
    SetRemoved,
}

/// Abstract view of the packed word: a state and a count.
#[derive(Clone, Copy, PartialEq, Eq, Structural)]
pub struct LifecycleModel {
    /// The lifecycle state.
    pub state: DeviceState,
    /// The in-flight access count.
    pub count: u32,
}

impl StateAndCount {
    /// The abstract view of the packed word.
    pub open spec fn model(self) -> LifecycleModel {
        LifecycleModel { state: self.spec_state(), count: self.spec_count() }
    }
}

/// Whether an operation's precondition holds in a model state.
pub open spec fn op_enabled(m: LifecycleModel, op: LifecycleOp) -> bool {
    match op {
        LifecycleOp::TryAcquire => true,
        LifecycleOp::Release => m.count >= 1,
        LifecycleOp::SetRemoving => true,
        LifecycleOp::SetRemoved => m.count == 0,
    }
}

/// The effect of one operation on a model state.
pub open spec fn op_step(m: LifecycleModel, op: LifecycleOp) -> LifecycleModel {
    match op {
        LifecycleOp::TryAcquire => if m.state == DeviceState::Active && m.count < COUNT_MASK {
            LifecycleModel { state: m.state, count: (m.count + 1) as u32 }
        } else {
            m
        },
        LifecycleOp::Release => LifecycleModel { state: m.state, count: (m.count - 1) as u32 },
        LifecycleOp::SetRemoving => LifecycleModel { state: DeviceState::Removing, count: m.count },
        LifecycleOp::SetRemoved => LifecycleModel { state: DeviceState::Removed, count: 0 },
    }
}

/// The model state after a sequence of operations.
pub open spec fn model_after(m: LifecycleModel, ops: Seq<LifecycleOp>) -> LifecycleModel
    decreases ops.len(),
{
    if ops.len() == 0 {
        m
    } else {
        op_step(model_after(m, ops.drop_last()), ops.last())
    }
}

/// Whether every operation in the sequence is enabled when its turn comes.
pub open spec fn ops_enabled(m: LifecycleModel, ops: Seq<LifecycleOp>) -> bool
    decreases ops.len(),
{
    if ops.len() == 0 {
        true
    } else {
        ops_enabled(m, ops.drop_last())
            && op_enabled(model_after(m, ops.drop_last()), ops.last())
    }
}

/// The number of successful acquires in a sequence of operations.
pub open spec fn successful_acquires(m: LifecycleModel, ops: Seq<LifecycleOp>) -> int
    decreases ops.len(),
{
    if ops.len() == 0 {
        0
    } else {
        let pre = model_after(m, ops.drop_last());
        successful_acquires(m, ops.drop_last())
            + if ops.last() == LifecycleOp::TryAcquire && pre.state == DeviceState::Active
                && pre.count < COUNT_MASK { 1int } else { 0int }
    }
}

/// The number of releases in a sequence of operations.
pub open spec fn releases_in(ops: Seq<LifecycleOp>) -> int
    decreases ops.len(),
{
    if ops.len() == 0 {
        0
    } else {
        releases_in(ops.drop_last())
            + if ops.last() == LifecycleOp::Release { 1int } else { 0int }
    }
}

/// Law: acquires and releases balance.  Over any sequence of `TryAcquire`
/// and `Release` operations whose preconditions hold, the final count equals
/// the initial count plus the successful acquires minus the releases; in
/// particular every successful acquire followed by a matching release brings
/// the count back to where it was.
pub proof fn lemma_acquire_release_balance(m: LifecycleModel, ops: Seq<LifecycleOp>)
    requires
        ops_enabled(m, ops),
        forall|i: int| 0 <= i < ops.len()
            ==> ops[i] == LifecycleOp::TryAcquire || ops[i] == LifecycleOp::Release,
    ensures
        model_after(m, ops).count ==
            m.count + successful_acquires(m, ops) - releases_in(ops),
        model_after(m, ops).state == m.state,
    decreases ops.len(),
{
    if ops.len() > 0 {
        assert(forall|i: int| 0 <= i < ops.drop_last().len()
            ==> ops.drop_last()[i] == LifecycleOp::TryAcquire
                || ops.drop_last()[i] == LifecycleOp::Release);
        lemma_acquire_release_balance(m, ops.drop_last());
        assert(ops[ops.len() - 1] == LifecycleOp::TryAcquire
            || ops[ops.len() - 1] == LifecycleOp::Release);
    }
}

/// Law: removal is race free.  The state is Removed only while the count is
/// zero: `SetRemoved` is enabled only at count zero, a successful acquire
/// happens only in the Active state, and a release needs an outstanding
/// acquire.  So a holder of a committed acquire (count at least one) never
/// finds the state Removed before its own release.
pub proof fn lemma_removed_implies_idle(m: LifecycleModel, ops: Seq<LifecycleOp>)
    requires
        ops_enabled(m, ops),
        m.state == DeviceState::Removed ==> m.count == 0,
    ensures
        model_after(m, ops).state == DeviceState::Removed ==> model_after(m, ops).count == 0,
        model_after(m, ops).count >= 1 ==> model_after(m, ops).state != DeviceState::Removed,
    decreases ops.len(),
{
    if ops.len() > 0 {
        lemma_removed_implies_idle(m, ops.drop_last());
    }
}

} // verus!
