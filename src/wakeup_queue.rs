//! A queue which allows to wake up a QUIC endpoint which is blocked on packet
//! reception or timers, used when connections inside the endpoint change their
//! readiness state (e.g. they get ready to write).
use vstd::prelude::*;
use core::task::{Context, Waker};
use std::collections::VecDeque;
use std::sync::{Arc, Mutex, MutexGuard};

verus! {

#[verifier::external_type_specification]
#[verifier::external_body]
pub struct ExWaker(Waker);

#[verifier::external_type_specification]
#[verifier::external_body]
pub struct ExContext<'a>(Context<'a>);

#[verifier::external_type_specification]
#[verifier::external_body]
#[verifier::reject_recursive_types(T)]
pub struct ExMutex<T: ?Sized>(Mutex<T>);

#[verifier::external_type_specification]
#[verifier::external_body]
#[verifier::reject_recursive_types(T)]
pub struct ExMutexGuard<'a, T: ?Sized + 'a>(MutexGuard<'a, T>);

/// The waker that a task context holds.
pub uninterp spec fn waker_of(context: Context) -> Waker;

/// Whether `waker` is known to wake the task that `other` wakes.
pub uninterp spec fn will_wake_of(waker: Waker, other: Waker) -> bool;

/// Relies on `Context::waker`: hands out the waker that the context holds.
#[verifier::external_body]
fn context_waker<'a, 'b>(context: &'b Context<'a>) -> (r: &'b Waker)
    ensures
        *r == waker_of(*context),
{
    context.waker()
}

/// Relies on `Waker::clone`: the result is a clone of `waker`.
#[verifier::external_body]
fn clone_waker(waker: &Waker) -> (r: Waker)
    ensures
        cloned(*waker, r),
{
    waker.clone()
}

/// Relies on `Waker::will_wake`: it compares the wakers' data and vtable
/// pointers, so the answer depends on the two wakers alone.
#[verifier::external_body]
fn waker_will_wake(waker: &Waker, other: &Waker) -> (r: bool)
    ensures
        r == will_wake_of(*waker, *other),
{
    waker.will_wake(other)
}

/// Relies on `Waker::wake`: schedules the task for polling.
#[verifier::external_body]
fn wake(waker: Waker) {
    waker.wake()
}

/// Relies on `Mutex::new`: a lock around the given value.
#[verifier::external_body]
fn new_mutex<S>(value: S) -> Mutex<S> {
    Mutex::new(value)
}

/// Relies on `Arc::clone`: one more owner of the same allocation.
#[verifier::external_body]
fn share<S>(shared: &Arc<S>) -> (r: Arc<S>)
    ensures
        r == *shared,
{
    Arc::clone(shared)
}

/// Relies on `Mutex::lock`: blocks until the lock is held, and gives `None`
/// where the lock is poisoned. Every caller here releases the guard before
/// it returns and takes no other lock meanwhile, so a thread never locks
/// twice.
#[verifier::external_body]
fn lock_state<'a, T>(state: &'a Mutex<QueueState<T>>) -> Option<MutexGuard<'a, QueueState<T>>> {
    state.lock().ok()
}

/// Relies on `MutexGuard::deref_mut`: the value that the held lock protects.
/// Other threads may have changed it since it was last seen, so nothing is
/// known of it.
#[verifier::external_body]
fn guarded_state<'a, 'b, T>(guard: &'b mut MutexGuard<'a, QueueState<T>>) -> &'b mut QueueState<T> {
    &mut *guard
}

/// The abstract state of a wakeup queue.
pub struct QueueModel<T> {
    /// The ids woken since the last drain, in order of arrival.
    pub pending: Seq<T>,
    /// Whether a waker of the polling thread is stored.
    pub has_waker: bool,
    /// Whether the polling thread was already asked to drain.
    pub in_progress: bool,
}

impl<T> QueueModel<T> {
    /// Ids are only pending while a wakeup is in progress.
    pub open spec fn wf(self) -> bool {
        self.pending.len() > 0 ==> self.in_progress
    }

    /// Whether enqueueing an id in this state hands out a waker to notify.
    pub open spec fn notifies(self) -> bool {
        !self.in_progress && self.has_waker
    }

    /// The state after an id was enqueued.
    pub open spec fn enqueue(self, id: T) -> QueueModel<T> {
        QueueModel { pending: self.pending.push(id), has_waker: self.has_waker, in_progress: true }
    }

    /// The state after the pending ids were drained.
    pub open spec fn drain(self) -> QueueModel<T> {
        QueueModel {
            pending: Seq::empty(),
            has_waker: self.has_waker || self.pending.len() == 0,
            in_progress: false,
        }
    }

    /// The state after each of `ids` was enqueued in turn.
    pub open spec fn enqueue_all(self, ids: Seq<T>) -> QueueModel<T>
        decreases ids.len(),
    {
        if ids.len() == 0 {
            self
        } else {
            self.enqueue_all(ids.drop_last()).enqueue(ids.last())
        }
    }

    /// How many wakers are handed out while each of `ids` is enqueued in turn.
    pub open spec fn notifications(self, ids: Seq<T>) -> nat
        decreases ids.len(),
    {
        if ids.len() == 0 {
            0
        } else {
            self.notifications(ids.drop_last()) + if self.enqueue_all(ids.drop_last()).notifies() {
                1nat
            } else {
                0nat
            }
        }
    }
}

/// What a wakeup on a handle does: nothing while its latch is set, else it
/// sets the latch and enqueues its id. Returns the new latch and queue state.
pub open spec fn handle_wakeup<T>(latched: bool, queue: QueueModel<T>, id: T) -> (bool, QueueModel<T>) {
    if latched {
        (latched, queue)
    } else {
        (true, queue.enqueue(id))
    }
}

/// The latch and queue state after `n` wakeups on the same handle.
pub open spec fn handle_wakeups<T>(latched: bool, queue: QueueModel<T>, id: T, n: nat) -> (bool, QueueModel<T>)
    decreases n,
{
    if n == 0 {
        (latched, queue)
    } else {
        let prev = handle_wakeups(latched, queue, id, (n - 1) as nat);
        handle_wakeup(prev.0, prev.1, id)
    }
}

/// How often `x` occurs in `s`.
pub open spec fn occurrences<T>(s: Seq<T>, x: T) -> nat
    decreases s.len(),
{
    if s.len() == 0 {
        0
    } else {
        occurrences(s.drop_last(), x) + if s.last() == x {
            1nat
        } else {
            0nat
        }
    }
}

proof fn lemma_occurrences_push<T>(s: Seq<T>, y: T, x: T)
    ensures
        occurrences(s.push(y), x) == occurrences(s, x) + if y == x {
            1nat
        } else {
            0nat
        },
{
    assert(s.push(y).drop_last() =~= s);
}

proof fn lemma_enqueue_all<T>(s: QueueModel<T>, ids: Seq<T>)
    ensures
        s.enqueue_all(ids).pending == s.pending + ids,
        s.enqueue_all(ids).has_waker == s.has_waker,
        ids.len() > 0 ==> s.enqueue_all(ids).in_progress,
        ids.len() == 0 ==> s.enqueue_all(ids) == s,
    decreases ids.len(),
{
    if ids.len() > 0 {
        lemma_enqueue_all(s, ids.drop_last());
        assert(s.pending + ids.drop_last().push(ids.last()) =~= s.pending + ids);
        assert(ids.drop_last().push(ids.last()) =~= ids);
    }
}

/// However many wakeups one handle issues without its wakeup being handled,
/// its id stands at most once among the pending ids, provided that it was
/// not pending while the latch was clear.
pub proof fn lemma_wakeup_idempotent<T>(queue: QueueModel<T>, id: T, n: nat)
    requires
        occurrences(queue.pending, id) == 0,
    ensures
        occurrences(handle_wakeups(false, queue, id, n).1.pending, id) <= 1,
        n > 0 ==> handle_wakeups(false, queue, id, n).0,
        n > 0 ==> handle_wakeups(false, queue, id, n) == handle_wakeups(false, queue, id, 1),
    decreases n,
{
    if n > 0 {
        lemma_wakeup_idempotent(queue, id, (n - 1) as nat);
        if n == 1 {
            assert(handle_wakeups(false, queue, id, 0) == (false, queue));
            lemma_occurrences_push(queue.pending, id, id);
        }
    }
}

/// Between two drains, however many ids are enqueued, the polling thread's
/// waker is handed out exactly once, and the next drain returns exactly the
/// enqueued ids in order of arrival.
pub proof fn lemma_one_notification_per_batch<T>(queue: QueueModel<T>, ids: Seq<T>)
    requires
        queue.wf(),
        !queue.in_progress,
        queue.has_waker,
    ensures
        ids.len() > 0 ==> queue.notifications(ids) == 1,
        queue.enqueue_all(ids).pending == ids,
        queue.enqueue_all(ids).wf(),
    decreases ids.len(),
{
    lemma_enqueue_all(queue, ids);
    assert(queue.pending + ids =~= ids);
    if ids.len() > 1 {
        lemma_one_notification_per_batch(queue, ids.drop_last());
        lemma_enqueue_all(queue, ids.drop_last());
    } else if ids.len() == 1 {
        lemma_enqueue_all(queue, ids.drop_last());
        assert(queue.notifications(ids.drop_last()) == 0);
    }
}

/// A thread panicked while it held the queue's lock. The queue's state may
/// be broken, so this is fatal to its user.
#[derive(Clone, Copy, Debug, PartialEq, Eq, Structural)]
pub struct LockPoisoned;

/// The shared state of a [`WakeupQueue`].
pub struct QueueState<T> {
    /// The IDs of connections which have been woken
    woken_connections: VecDeque<T>,
    /// The waker which should be used to wake up the polling thread
    waker: Option<Waker>,
    /// Whether a wakeup is already in progress
    wakeup_in_progress: bool,
}

impl<T: Copy> QueueState<T> {
    pub closed spec fn view(&self) -> QueueModel<T> {
        QueueModel {
            pending: self.woken_connections@,
            has_waker: self.waker.is_some(),
            in_progress: self.wakeup_in_progress,
        }
    }

    /// The waker of the polling thread, if one is stored.
    pub closed spec fn stored_waker(&self) -> Option<Waker> {
        self.waker
    }

    /// An empty queue without a stored waker.
    pub fn new() -> (r: Self)
        ensures
            r@ == (QueueModel::<T> { pending: Seq::empty(), has_waker: false, in_progress: false }),
            r.stored_waker().is_none(),
    {
        QueueState { woken_connections: VecDeque::new(), waker: None, wakeup_in_progress: false }
    }

    /// Enqueues an id. Returns the stored waker for the caller to notify,
    /// unless an earlier wakeup already notified it since the last drain.
    pub fn queue_wakeup(&mut self, wakeup_handle_id: T) -> (r: Option<Waker>)
        ensures
            final(self)@ == old(self)@.enqueue(wakeup_handle_id),
            r.is_some() == old(self)@.notifies(),
            r.is_some() ==> cloned(old(self).stored_waker().unwrap(), r.unwrap()),
            final(self).stored_waker() == old(self).stored_waker(),
            final(self)@.wf(),
    {
        self.woken_connections.push_back(wakeup_handle_id);
        // If pushing another handle already notified the processing thread that
        // it should dequeue pending notifications there is no need to do this again.
        if self.wakeup_in_progress {
            return None;
        }
        self.wakeup_in_progress = true;
        match &self.waker {
            Some(w) => Some(clone_waker(w)),
            None => None,
        }
    }

    /// Drains the queued ids, leaving `swap_queue` (cleared) in their place.
    /// When nothing was queued, the waker of `context` is stored so that the
    /// next wakeup notifies it: a stored waker that wakes the same task is
    /// kept, any other is replaced by a clone of the context's.
    pub fn poll_pending_wakeups(&mut self, swap_queue: VecDeque<T>, context: &Context) -> (r: VecDeque<T>)
        ensures
            r@ == old(self)@.pending,
            final(self)@ == old(self)@.drain(),
            final(self)@.wf(),
            r@.len() > 0 ==> final(self).stored_waker() == old(self).stored_waker(),
            r@.len() == 0 ==> if old(self).stored_waker().is_some() && will_wake_of(
                old(self).stored_waker().unwrap(),
                waker_of(*context),
            ) {
                final(self).stored_waker() == old(self).stored_waker()
            } else {
                final(self).stored_waker().is_some() && cloned(
                    waker_of(*context),
                    final(self).stored_waker().unwrap(),
                )
            },
    {
        let mut result = swap_queue;
        core::mem::swap(&mut self.woken_connections, &mut result);
        self.wakeup_in_progress = false;
        if result.len() == 0 {
            // If no wakeup was pending, store or update the `Waker`
            let current = context_waker(context);
            let replace = match &self.waker {
                Some(w) => !waker_will_wake(w, current),
                None => true,
            };
            if replace {
                self.waker = Some(clone_waker(current));
            }
        }
        // Clear the passed queue in case the caller did not clean it
        self.woken_connections.clear();
        result
    }
}

/// What a wakeup on a handle does to the queue state it holds the lock of:
/// with the latch set, nothing; else it sets the latch and enqueues `id`.
/// Returns the waker to notify, a clone of the stored one, exactly when the
/// wakeup starts a new batch and a waker is stored.
pub fn wakeup_step<T: Copy>(latched: &mut bool, id: T, state: &mut QueueState<T>) -> (r: Option<Waker>)
    ensures
        (*final(latched), final(state)@) == handle_wakeup(*old(latched), old(state)@, id),
        r.is_some() == (!*old(latched) && old(state)@.notifies()),
        r.is_some() ==> cloned(old(state).stored_waker().unwrap(), r.unwrap()),
        final(state).stored_waker() == old(state).stored_waker(),
        old(state)@.wf() ==> final(state)@.wf(),
{
    if *latched {
        return None;
    }
    *latched = true;
    state.queue_wakeup(id)
}

/// A queue which allows individual components to wake up a common blocked
/// thread. Each component is identified by an id of type `T`, and a single
/// thread dequeues the ids of woken components.
#[verifier::reject_recursive_types(T)]
pub struct WakeupQueue<T> {
    state: Arc<Mutex<QueueState<T>>>,
}

impl<T: Copy> WakeupQueue<T> {
    /// The state shared with the handles.
    pub closed spec fn shared(&self) -> Arc<Mutex<QueueState<T>>> {
        self.state
    }

    /// Creates a new `WakeupQueue`.
    pub fn new() -> Self {
        WakeupQueue { state: Arc::new(new_mutex(QueueState::new())) }
    }

    /// Creates a new [`WakeupHandle`] which will wake up this queue when
    /// [`WakeupHandle::wakeup`] is called. Its latch starts clear.
    pub fn create_wakeup_handle(&self, wakeup_handle_id: T) -> (r: WakeupHandle<T>)
        ensures
            r.id() == wakeup_handle_id,
            !r.is_queued(),
            r.queue() == self.shared(),
    {
        WakeupHandle::new(share(&self.state), wakeup_handle_id)
    }

    /// Returns the ids of the components woken since the last call, and
    /// leaves `swap_queue` in their place (double buffering), as
    /// [`QueueState::poll_pending_wakeups`] does under the lock. Fails where
    /// the lock is poisoned.
    pub fn poll_pending_wakeups(&mut self, swap_queue: VecDeque<T>, context: &Context) -> (r: Result<
        VecDeque<T>,
        LockPoisoned,
    >)
        ensures
            final(self).shared() == old(self).shared(),
    {
        match lock_state(&*self.state) {
            Some(mut guard) => {
                let state = guarded_state(&mut guard);
                Ok(state.poll_pending_wakeups(swap_queue, context))
            },
            None => Err(LockPoisoned),
        }
    }
}

/// A handle which refers to a wakeup queue. It lets its owner ask the queue
/// for a wakeup, at most once until the wakeup was handled.
#[verifier::reject_recursive_types(T)]
pub struct WakeupHandle<T> {
    /// The queue this handle is referring to
    queue: Arc<Mutex<QueueState<T>>>,
    /// The id which tells the queue's owner which handle woke it
    wakeup_handle_id: T,
    /// Whether a wakeup for this handle was queued since the last time the
    /// wakeup was handled
    wakeup_queued: bool,
}

impl<T: Copy> WakeupHandle<T> {
    pub closed spec fn id(&self) -> T {
        self.wakeup_handle_id
    }

    pub closed spec fn is_queued(&self) -> bool {
        self.wakeup_queued
    }

    /// The state of the queue this handle wakes.
    pub closed spec fn queue(&self) -> Arc<Mutex<QueueState<T>>> {
        self.queue
    }

    /// Creates a new handle which delegates wakeups to `queue`.
    fn new(queue: Arc<Mutex<QueueState<T>>>, wakeup_handle_id: T) -> (r: Self)
        ensures
            r.id() == wakeup_handle_id,
            !r.is_queued(),
            r.queue() == queue,
    {
        WakeupHandle { queue, wakeup_handle_id, wakeup_queued: false }
    }

    /// Asks the queue for a wakeup. While an earlier wakeup of this handle is
    /// not handled yet, this does nothing and takes no lock: that wakeup is
    /// still pending. Else, under the lock, [`wakeup_step`] sets the latch and
    /// enqueues the id, and the waker it hands out is woken once the lock is
    /// released. Fails, with the latch left clear, where the lock is poisoned.
    pub fn wakeup(&mut self) -> (r: Result<(), LockPoisoned>)
        ensures
            final(self).id() == old(self).id(),
            final(self).queue() == old(self).queue(),
            old(self).is_queued() ==> *final(self) == *old(self) && r.is_ok(),
            final(self).is_queued() == r.is_ok(),
    {
        if self.wakeup_queued {
            return Ok(());
        }
        let maybe_waker = {
            match lock_state(&*self.queue) {
                Some(mut guard) => {
                    let state = guarded_state(&mut guard);
                    wakeup_step(&mut self.wakeup_queued, self.wakeup_handle_id, state)
                },
                None => {
                    return Err(LockPoisoned);
                },
            }
        };
        // If the polling thread wasn't notified earlier by another handle,
        // notify it now, with the lock released.
        if let Some(waker) = maybe_waker {
            wake(waker);
        }
        Ok(())
    }

    /// Records that the wakeup of this handle was processed: the next
    /// [`WakeupHandle::wakeup`] is queued again.
    pub fn wakeup_handled(&mut self)
        ensures
            !final(self).is_queued(),
            final(self).id() == old(self).id(),
    {
        self.wakeup_queued = false;
    }
}

} // verus!
