//! The janitor's two queue modes.
use std::sync::atomic::{AtomicUsize, Ordering};
use std::sync::Arc;

use velomorph::janitor::Disposable;
use velomorph::Janitor;

/// Counts its drops.
struct DropCounter(Arc<AtomicUsize>);

impl Drop for DropCounter {
    fn drop(&mut self) {
        self.0.fetch_add(1, Ordering::SeqCst);
    }
}

#[test]
fn unbounded_janitor_queues_every_value() {
    let (tx, mut rx) = tokio::sync::mpsc::unbounded_channel::<Box<dyn Disposable>>();
    let janitor = Janitor::from_unbounded(tx);
    assert!(!janitor.is_bounded());
    let drops = Arc::new(AtomicUsize::new(0));
    for _ in 0..3 {
        janitor.offload(DropCounter(drops.clone()));
    }
    // Nothing is dropped on the caller: all three wait in the queue.
    assert_eq!(drops.load(Ordering::SeqCst), 0);
    let mut received = 0;
    while let Ok(item) = rx.try_recv() {
        drop(item);
        received += 1;
    }
    assert_eq!(received, 3);
    assert_eq!(drops.load(Ordering::SeqCst), 3);
}

#[test]
fn bounded_janitor_drops_on_the_caller_when_full() {
    let (tx, mut rx) = tokio::sync::mpsc::channel::<Box<dyn Disposable>>(1);
    let janitor = Janitor::from_bounded(tx);
    assert!(janitor.is_bounded());
    let drops = Arc::new(AtomicUsize::new(0));
    janitor.offload(DropCounter(drops.clone()));
    assert_eq!(drops.load(Ordering::SeqCst), 0);
    // The queue is full: this one is dropped right here.
    janitor.offload(DropCounter(drops.clone()));
    assert_eq!(drops.load(Ordering::SeqCst), 1);
    drop(rx.try_recv().expect("the first value waits in the queue"));
    assert_eq!(drops.load(Ordering::SeqCst), 2);
    assert!(rx.try_recv().is_err());
}

#[test]
fn cloned_janitors_share_the_queue() {
    let (tx, mut rx) = tokio::sync::mpsc::unbounded_channel::<Box<dyn Disposable>>();
    let janitor = Janitor::from_unbounded(tx);
    let other = janitor.clone();
    other.offload(vec![1u8, 2, 3]);
    janitor.offload(String::from("x"));
    assert!(rx.try_recv().is_ok());
    assert!(rx.try_recv().is_ok());
    assert!(rx.try_recv().is_err());
}
