//! Single-waiter event notification.
//!
//! [`event`] creates a [`Notifier`]/[`Listener`] pair that shares one cell
//! of [`Inner`] state: a `pending` flag plus the wake handle of the one
//! waiter that may currently be suspended. The pair guarantees that a
//! notification is never lost: either the waiter's first poll after the
//! notification sees the flag, or the notification finds a stored handle
//! and wakes it.
//!
//! The shared cell is touched only by swapping the whole [`Inner`] value
//! out, running a verified transition on it by value, and swapping it
//! back. Wake handles are invoked, and displaced stale handles released,
//! only after the state is back in the cell, so no foreign code ever runs
//! while the cell is borrowed.

use vstd::prelude::*;
use core::cell::RefCell;
use core::task::Waker;
use std::rc::Rc;

verus! {

/// Declares `core::cell::RefCell`, the cell the two halves of a pair share.
/// The cell is opaque to the proofs: every change of the shared state goes
/// through one of the verified transitions on [`Inner`] below.
#[verifier::external_type_specification]
#[verifier::external_body]
#[verifier::reject_recursive_types(T)]
pub struct ExRefCell<T: ?Sized>(RefCell<T>);

/// The state shared by the two halves of a notifier/listener pair.
///
/// `pending` is true while a notification has occurred and has not yet been
/// consumed by a poll; `waker` holds the wake handle of the currently
/// suspended waiter, if any. At most one handle is ever stored, because at
/// most one wait may be outstanding (see [`Listener::notified`]).
pub struct Inner {
    /// True if a notification has occurred and not yet been consumed.
    pub pending: bool,
    /// The wake handle of the currently suspended waiter, if any.
    pub waker: Option<Waker>,
}

/// The state a notification leaves behind: the pending flag is set and the
/// stored handle, handed back to be woken, is gone.
pub open spec fn after_notify(s: Inner) -> Inner {
    Inner { pending: true, waker: None }
}

/// The handle a notification hands back to be woken: whatever handle was
/// stored.
pub open spec fn woken_by_notify(s: Inner) -> Option<Waker> {
    s.waker
}

/// Whether a poll of state `s` resolves: exactly when a notification is
/// pending.
pub open spec fn poll_ready(s: Inner) -> bool {
    s.pending
}

/// The state a poll leaves behind: the pending flag is consumed; a poll
/// that suspends stores the caller's wake handle `w`.
pub open spec fn after_poll(s: Inner, w: Waker) -> Inner {
    if s.pending {
        Inner { pending: false, waker: s.waker }
    } else {
        Inner { pending: false, waker: Some(w) }
    }
}

impl Inner {
    /// Fresh shared state: nothing pending, no waiter suspended.
    pub fn new() -> (r: Inner)
        ensures
            !r.pending,
            r.waker is None,
    {
        Inner { pending: false, waker: None }
    }

    /// Record a notification: set the pending flag and hand back the
    /// stored wake handle, if any, for the caller to wake. Waking is left
    /// to the caller so that it can happen after the state is back in the
    /// shared cell ([`Notifier::notify`]). Repeated notifications before a
    /// poll collapse into one pending flag.
    pub fn notify(&mut self) -> (woken: Option<Waker>)
        ensures
            *final(self) == after_notify(*old(self)),
            woken == woken_by_notify(*old(self)),
    {
        self.pending = true;
        self.waker.take()
    }

    /// One poll step: consume a pending notification and resolve, or store
    /// the caller's wake handle and suspend. Besides readiness, the result
    /// carries the stale handle a suspending poll displaced, if any, so
    /// that the caller can release it only once the state is back in the
    /// shared cell.
    pub fn poll(&mut self, w: Waker) -> (r: (bool, Option<Waker>))
        ensures
            r.0 == poll_ready(*old(self)),
            *final(self) == after_poll(*old(self), w),
            r.1 == (if poll_ready(*old(self)) { None::<Waker> } else { old(self).waker }),
    {
        if self.pending {
            self.pending = false;
            (true, None)
        } else {
            let stale = self.waker.take();
            self.waker = Some(w);
            (false, stale)
        }
    }
}

/// Relies on `std::rc::Rc::new`, `Rc::clone` and `core::cell::RefCell::new`:
/// the two returned handles address one and the same freshly created cell
/// holding `i`, so they are equal as values.
#[verifier::external_body]
fn new_shared_pair(i: Inner) -> (r: (Rc<RefCell<Inner>>, Rc<RefCell<Inner>>))
    ensures
        r.0 == r.1,
{
    let cell = Rc::new(RefCell::new(i));
    (cell.clone(), cell)
}

/// Relies on `core::cell::RefCell::replace`: swaps `x` into the shared
/// cell and returns what the cell held. The borrow lasts only while the
/// two values are moved and no user code runs under it — nothing is
/// dropped, woken or called — so the cell can never be found borrowed when
/// a library function is entered, and the call returns for every input.
/// What comes back is whatever the cell last held: nothing is assumed
/// about it, and the verified transitions handle every value.
#[verifier::external_body]
fn swap_shared(cell: &Rc<RefCell<Inner>>, x: Inner) -> Inner {
    cell.replace(x)
}

/// The notifying half of a pair. It may be cloned; every clone records
/// notifications in the same shared state.
#[derive(Clone)]
pub struct Notifier(Rc<RefCell<Inner>>);

impl Notifier {
    /// The shared cell this notifier records into.
    pub closed spec fn cell(self) -> Rc<RefCell<Inner>> {
        self.0
    }

    /// Record a notification: set the pending flag and wake the suspended
    /// waiter, if one is stored ([`Inner::notify`] on the shared state).
    /// The handle is woken only after the updated state is back in the
    /// cell, so a wake that re-polls on the spot finds the flag set.
    pub fn notify(&self) {
        let mut s = swap_shared(&self.0, Inner::new());
        let woken = s.notify();
        let _ = swap_shared(&self.0, s);
        if let Some(w) = woken {
            w.wake();
        }
    }
}

/// The waiting half of a pair.
pub struct Listener(Rc<RefCell<Inner>>);

impl Listener {
    /// The shared cell this listener waits on.
    pub closed spec fn cell(self) -> Rc<RefCell<Inner>> {
        self.0
    }

    /// Begin a wait. The `&mut` receiver keeps the listener exclusively
    /// borrowed for as long as the returned [`Notified`] lives, so at most
    /// one wait can be outstanding at a time; a second concurrent wait is
    /// a borrow error, not a runtime condition.
    pub fn notified(&mut self) -> Notified<'_> {
        Notified(self)
    }
}

/// One outstanding wait on a [`Listener`]. It resolves on the first poll
/// after a notification; in particular it resolves immediately if the
/// notification came before the first poll.
pub struct Notified<'a>(&'a Listener);

impl Notified<'_> {
    /// One poll step ([`Inner::poll`] on the shared state): consume a
    /// pending notification and resolve, or leave `w` behind and suspend.
    /// A displaced stale handle is released only after the updated state
    /// is back in the cell.
    pub fn poll(&mut self, w: Waker) -> bool {
        let mut s = swap_shared(&self.0.0, Inner::new());
        let (ready, _stale) = s.poll(w);
        let _ = swap_shared(&self.0.0, s);
        ready
    }
}

/// Creates a connected notifier/listener pair: the two halves hold one and
/// the same cell, freshly filled with [`Inner::new`]'s state — nothing
/// pending, no waiter suspended.
pub fn event() -> (r: (Notifier, Listener))
    ensures
        r.0.cell() == r.1.cell(),
{
    let (a, b) = new_shared_pair(Inner::new());
    (Notifier(a), Listener(b))
}

/// Law: no notification is lost, whatever the order of notifying and
/// polling. If the notification comes first, the wait's first poll
/// resolves; if the waiter suspended first (a poll stored its handle `w`),
/// the notification hands back exactly `w` to be woken, and the woken
/// waiter's re-poll resolves.
pub proof fn lemma_no_lost_wakeup(s: Inner, w: Waker)
    ensures
        poll_ready(after_notify(s)),
        !s.pending ==> woken_by_notify(after_poll(s, w)) == Some(w),
        poll_ready(after_notify(after_poll(s, w))),
{
}

/// Law: a wait resolves exactly once per notification. The resolving poll
/// consumes the pending flag, so without a further notification the next
/// poll suspends instead of resolving again.
pub proof fn lemma_resolves_exactly_once(s: Inner, w: Waker)
    requires
        poll_ready(s),
    ensures
        !poll_ready(after_poll(s, w)),
{
}

/// Law: notifications before a poll collapse into one. Notifying an
/// already notified pair changes nothing, so any number of notifications
/// produce exactly one immediate resolution, after which the pair is back
/// in the unnotified state ([`lemma_resolves_exactly_once`]).
pub proof fn lemma_notify_idempotent(s: Inner)
    ensures
        after_notify(after_notify(s)) == after_notify(s),
{
}

} // verus!
