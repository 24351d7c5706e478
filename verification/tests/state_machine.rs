use std::sync::atomic::{AtomicUsize, Ordering};
use std::sync::Arc;
use std::task::{Wake, Waker};

use wakeup::event::Inner;

struct CountingWake {
    count: AtomicUsize,
}

impl Wake for CountingWake {
    fn wake(self: Arc<Self>) {
        self.count.fetch_add(1, Ordering::SeqCst);
    }
}

fn counting_waker() -> (Arc<CountingWake>, Waker) {
    let handle = Arc::new(CountingWake { count: AtomicUsize::new(0) });
    (handle.clone(), Waker::from(handle))
}

#[test]
fn poll_consumes_the_pending_flag() {
    let mut inner = Inner::new();
    assert!(!inner.pending);
    assert!(inner.notify().is_none());
    assert!(inner.pending);
    let (_handle, waker) = counting_waker();
    let (ready, displaced) = inner.poll(waker.clone());
    assert!(ready);
    assert!(displaced.is_none());
    assert!(!inner.pending);
    let (ready, _) = inner.poll(waker);
    assert!(!ready);
}

#[test]
fn notify_hands_back_the_stored_handle_exactly_once() {
    let mut inner = Inner::new();
    let (handle, waker) = counting_waker();
    let (ready, _) = inner.poll(waker);
    assert!(!ready);
    assert!(inner.waker.is_some());
    let woken = inner.notify();
    assert!(inner.waker.is_none());
    woken.expect("a handle was stored").wake();
    assert_eq!(handle.count.load(Ordering::SeqCst), 1);
    assert!(inner.notify().is_none());
    assert_eq!(handle.count.load(Ordering::SeqCst), 1);
}

#[test]
fn suspending_poll_displaces_the_stale_handle() {
    let mut inner = Inner::new();
    let (first, first_waker) = counting_waker();
    let (second, second_waker) = counting_waker();
    let (ready, displaced) = inner.poll(first_waker);
    assert!(!ready);
    assert!(displaced.is_none());
    let (ready, displaced) = inner.poll(second_waker);
    assert!(!ready);
    assert!(displaced.is_some());
    drop(displaced);
    assert_eq!(first.count.load(Ordering::SeqCst), 0);
    let woken = inner.notify();
    woken.expect("a handle was stored").wake();
    assert_eq!(first.count.load(Ordering::SeqCst), 0);
    assert_eq!(second.count.load(Ordering::SeqCst), 1);
}
