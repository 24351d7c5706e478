//! Broadcast notification.
//!
//! A [`Notify`] keeps a monotonically increasing occurrence count and the
//! wake handles of every currently suspended waiter. Any number of waits
//! may be outstanding at once; every notification advances the count and
//! wakes all of them. A wait resolves exactly when the count has moved
//! past the snapshot the wait took at its creation, so a notification is
//! never lost and an earlier notification never resolves a later wait.

use vstd::prelude::*;
use core::task::Waker;
use smallvec::SmallVec;

verus! {

/// A growable list of wake handles, backed by `smallvec::SmallVec` with
/// inline storage for the common one-waiter case. The list itself is
/// opaque to the proofs; contracts speak of its contents through
/// [`waker_list_view`] and the three operations below.
#[verifier::external_body]
pub struct WakerList {
    items: SmallVec<[Waker; 1]>,
}

/// The handles a [`WakerList`] holds, in storage order.
pub uninterp spec fn waker_list_view(l: WakerList) -> Seq<Waker>;

impl WakerList {
    /// Relies on `SmallVec::new`: constructs an empty vector.
    #[verifier::external_body]
    fn new() -> (l: WakerList)
        ensures
            waker_list_view(l) == Seq::<Waker>::empty(),
    {
        WakerList { items: SmallVec::new() }
    }

    /// Relies on `SmallVec::push`: appends one item to the vector.
    #[verifier::external_body]
    fn push(&mut self, w: Waker)
        ensures
            waker_list_view(*final(self)) == waker_list_view(*old(self)).push(w),
    {
        self.items.push(w);
    }

    /// Relies on `SmallVec::drain(..)`: removes every item from the vector
    /// and yields them in order; collecting converts them into a `Vec`.
    #[verifier::external_body]
    fn take_all(&mut self) -> (out: Vec<Waker>)
        ensures
            out@ == waker_list_view(*old(self)),
            waker_list_view(*final(self)) == Seq::<Waker>::empty(),
    {
        self.items.drain(..).collect()
    }
}

/// Whether a wait that began at occurrence count `snapshot` resolves
/// against the current count: exactly when the count has moved past the
/// snapshot. One crossing is enough; a waiter only cares whether some
/// notification happened after its creation, not how many.
pub open spec fn token_ready(count: u64, snapshot: u64) -> bool {
    count > snapshot
}

/// A broadcast notifier: an occurrence count plus the wake handles of the
/// currently suspended waiters.
pub struct Notify {
    /// How many notifications have occurred since creation. Incremented by
    /// exactly one per notification, never decremented.
    pub count: u64,
    /// Wake handles of the currently suspended waiters. The list itself is
    /// opaque; contracts speak of it through [`Notify::wakers_view`].
    pub wakers: WakerList,
}

impl Notify {
    /// The wake handles currently stored, in storage order.
    pub open spec fn wakers_view(self) -> Seq<Waker> {
        waker_list_view(self.wakers)
    }

    /// Fresh notifier: no notification has occurred, no waiter suspended.
    pub fn new() -> (r: Notify)
        ensures
            r.count == 0,
            r.wakers_view() == Seq::<Waker>::empty(),
    {
        Notify { count: 0, wakers: WakerList::new() }
    }

    /// Begin a wait: snapshot the current occurrence count, touching
    /// nothing. The returned token resolves once the count has moved past
    /// the snapshot.
    pub fn notified(&self) -> (t: Notified)
        ensures
            t.count == self.count,
    {
        Notified { count: self.count }
    }

    /// Record a notification: advance the occurrence count by one and take
    /// every stored handle out of the list, handing them back for the
    /// caller to wake (each exactly once, in any order — see [`wake_all`]).
    /// Waking is left to the caller so that a holder driving the notifier
    /// through a shared cell can put the state back first and wake with no
    /// borrow outstanding.
    pub fn notify(&mut self) -> (woken: Vec<Waker>)
        requires
            old(self).count < u64::MAX,
        ensures
            final(self).count == old(self).count + 1,
            final(self).wakers_view() == Seq::<Waker>::empty(),
            woken@ == old(self).wakers_view(),
    {
        self.count = self.count + 1;
        self.wakers.take_all()
    }
}

/// Wake every handle in `wakers` exactly once. The order does not matter
/// to correctness; the handles are taken from the back of the vector.
pub fn wake_all(wakers: Vec<Waker>) {
    let mut wakers = wakers;
    loop
        decreases wakers.len(),
    {
        match wakers.pop() {
            Some(w) => w.wake(),
            None => break,
        }
    }
}

/// One outstanding wait on a [`Notify`]: the occurrence count snapshotted
/// when the wait began. Any number of tokens may exist at once, and a
/// token may simply be dropped to abandon its wait.
pub struct Notified {
    /// The occurrence count at the moment the wait began.
    pub count: u64,
}

impl Notified {
    /// One poll step: resolve if a notification has occurred since this
    /// wait began, else leave the caller's wake handle `w` behind and
    /// suspend. Readiness is recomputed from the live count on every poll,
    /// so a notification between two polls is seen by the second one.
    pub fn poll(&self, notify: &mut Notify, w: Waker) -> (ready: bool)
        ensures
            ready == token_ready(old(notify).count, self.count),
            final(notify).count == old(notify).count,
            ready ==> *final(notify) == *old(notify),
            !ready ==> final(notify).wakers_view() == old(notify).wakers_view().push(w),
    {
        if notify.count > self.count {
            true
        } else {
            notify.wakers.push(w);
            false
        }
    }
}

/// Law (broadcast fan-out): one notification resolves every currently
/// suspended waiter. A suspended waiter's snapshot never exceeds the
/// current count, and after the count advances by one every such token is
/// ready.
pub proof fn lemma_broadcast_fanout(count: u64, snapshot: u64)
    requires
        snapshot <= count,
        count < u64::MAX,
    ensures
        token_ready((count + 1) as u64, snapshot),
{
}

/// Law (epoch correctness): a wait begun after a notification does not
/// resolve from that earlier notification. A fresh token snapshots the
/// live count, and a token whose snapshot equals the count is not ready.
pub proof fn lemma_fresh_wait_not_ready(count: u64)
    ensures
        !token_ready(count, count),
{
}

/// Law (resolve before poll): a notification that happens after a wait
/// began but before its first poll makes that first poll resolve: once
/// the count has passed the snapshot, the token is ready.
pub proof fn lemma_resolve_before_first_poll(count: u64, snapshot: u64)
    requires
        snapshot < count,
    ensures
        token_ready(count, snapshot),
{
}

/// Law (stability): further notifications never take readiness away. Once
/// a token is ready it stays ready under any later, larger count, so a
/// waiter that missed a wakeup race still resolves on its next poll.
pub proof fn lemma_ready_is_stable(c1: u64, c2: u64, snapshot: u64)
    requires
        token_ready(c1, snapshot),
        c1 <= c2,
    ensures
        token_ready(c2, snapshot),
{
}

} // verus!
