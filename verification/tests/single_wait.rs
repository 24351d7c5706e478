use std::sync::atomic::{AtomicUsize, Ordering};
use std::sync::Arc;
use std::task::{Wake, Waker};

use wakeup::event::event;

struct CountingWake {
    count: AtomicUsize,
}

impl Wake for CountingWake {
    fn wake(self: Arc<Self>) {
        self.count.fetch_add(1, Ordering::SeqCst);
    }
}

fn counting_waker() -> (Arc<CountingWake>, Waker) {
    let handle = Arc::new(CountingWake { count: AtomicUsize::new(0) });
    (handle.clone(), Waker::from(handle))
}

#[test]
fn resolves_immediately_when_notified_before_first_poll() {
    let (notifier, mut listener) = event();
    notifier.notify();
    let (_handle, waker) = counting_waker();
    let mut wait = listener.notified();
    assert!(wait.poll(waker));
}

#[test]
fn suspended_wait_is_woken_and_resolves() {
    let (notifier, mut listener) = event();
    let (handle, waker) = counting_waker();
    let mut wait = listener.notified();
    assert!(!wait.poll(waker.clone()));
    assert_eq!(handle.count.load(Ordering::SeqCst), 0);
    notifier.notify();
    assert_eq!(handle.count.load(Ordering::SeqCst), 1);
    assert!(wait.poll(waker));
}

#[test]
fn notifications_before_poll_collapse_to_one() {
    let (notifier, mut listener) = event();
    notifier.notify();
    notifier.notify();
    notifier.notify();
    let (_handle, waker) = counting_waker();
    {
        let mut wait = listener.notified();
        assert!(wait.poll(waker.clone()));
    }
    let mut wait = listener.notified();
    assert!(!wait.poll(waker));
}

#[test]
fn wait_stays_pending_without_notification() {
    let (_notifier, mut listener) = event();
    let (handle, waker) = counting_waker();
    let mut wait = listener.notified();
    assert!(!wait.poll(waker.clone()));
    assert!(!wait.poll(waker));
    assert_eq!(handle.count.load(Ordering::SeqCst), 0);
}

#[test]
fn dropped_suspended_wait_does_not_corrupt_the_pair() {
    let (notifier, mut listener) = event();
    let (handle, waker) = counting_waker();
    {
        let mut wait = listener.notified();
        assert!(!wait.poll(waker.clone()));
    }
    notifier.notify();
    assert_eq!(handle.count.load(Ordering::SeqCst), 1);
    let mut wait = listener.notified();
    assert!(wait.poll(waker));
}

#[test]
fn dropped_unpolled_wait_does_not_corrupt_the_pair() {
    let (notifier, mut listener) = event();
    {
        let _wait = listener.notified();
    }
    notifier.notify();
    let (_handle, waker) = counting_waker();
    let mut wait = listener.notified();
    assert!(wait.poll(waker));
}

#[test]
fn new_wait_displaces_the_stale_handle() {
    let (notifier, mut listener) = event();
    let (stale, stale_waker) = counting_waker();
    {
        let mut wait = listener.notified();
        assert!(!wait.poll(stale_waker));
    }
    let (live, live_waker) = counting_waker();
    let mut wait = listener.notified();
    assert!(!wait.poll(live_waker.clone()));
    notifier.notify();
    assert_eq!(stale.count.load(Ordering::SeqCst), 0);
    assert_eq!(live.count.load(Ordering::SeqCst), 1);
    assert!(wait.poll(live_waker));
}

#[test]
fn cloned_notifier_reaches_the_same_listener() {
    let (notifier, mut listener) = event();
    let second = notifier.clone();
    second.notify();
    let (_handle, waker) = counting_waker();
    let mut wait = listener.notified();
    assert!(wait.poll(waker));
}
