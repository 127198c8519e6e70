//! The janitor: a handle through which values are handed to a background
//! thread to be dropped there, off the latency-sensitive path.
//!
//! The thread that drains the queue is started by the caller, which gives the
//! janitor the sending end of its queue.
use vstd::prelude::*;
use tokio::sync::mpsc::{Sender, UnboundedSender};

verus! {

#[verifier::external_type_specification]
#[verifier::external_body]
#[verifier::reject_recursive_types(T)]
pub struct ExUnboundedSender<T>(UnboundedSender<T>);

#[verifier::external_type_specification]
#[verifier::external_body]
#[verifier::reject_recursive_types(T)]
pub struct ExSender<T>(Sender<T>);

/// `tokio::sync::mpsc::UnboundedSender::clone`: another sending end of the
/// same queue. Nothing is claimed of it.
pub assume_specification<T>[ <UnboundedSender<T> as Clone>::clone ](
    sender: &UnboundedSender<T>,
) -> UnboundedSender<T>;

/// `tokio::sync::mpsc::Sender::clone`: another sending end of the same
/// queue. Nothing is claimed of it.
pub assume_specification<T>[ <Sender<T> as Clone>::clone ](sender: &Sender<T>) -> Sender<T>;

/// A value that can be handed to another thread to be dropped there.
pub trait Disposable: Send {}

impl<T: Send> Disposable for T {}

/// The sending end of a janitor's queue.
#[derive(Clone)]
enum Queue {
    /// A queue without a limit.
    Unbounded(UnboundedSender<Box<dyn Disposable>>),
    /// A queue that holds a limited number of pending values.
    Bounded(Sender<Box<dyn Disposable>>),
}

/// Background deallocation helper that keeps hot paths free of expensive
/// drops.
///
/// With an unbounded queue, every offloaded value is dropped by the worker
/// (nothing caps the queue). With a bounded queue, a value offloaded while the
/// queue is full is dropped on the caller's thread instead of waiting.
#[derive(Clone)]
pub struct Janitor {
    queue: Queue,
}

/// Calls `tokio::sync::mpsc::UnboundedSender::send` with the value boxed as a
/// `dyn Disposable`; returns whether it was queued. Nothing is claimed of the
/// result: it depends on whether the worker still runs.
#[verifier::external_body]
fn send_unbounded<T: Send + 'static>(sender: &UnboundedSender<Box<dyn Disposable>>, item: T) -> bool {
    sender.send(Box::new(item)).is_ok()
}

/// Calls `tokio::sync::mpsc::Sender::try_send` with the value boxed as a
/// `dyn Disposable`; returns whether it was queued. When it was not (the
/// queue is full or closed), `try_send` hands the value back and it is dropped
/// here. Nothing is claimed of the result: it depends on the worker's pace.
#[verifier::external_body]
fn try_send_bounded<T: Send + 'static>(sender: &Sender<Box<dyn Disposable>>, item: T) -> bool {
    sender.try_send(Box::new(item)).is_ok()
}

impl Janitor {
    /// Whether the janitor's queue has a limit.
    pub closed spec fn spec_is_bounded(&self) -> bool {
        self.queue is Bounded
    }

    /// A janitor that hands values to the unbounded queue behind `sender`.
    pub fn from_unbounded(sender: UnboundedSender<Box<dyn Disposable>>) -> (j: Self)
        ensures
            !j.spec_is_bounded(),
    {
        Janitor { queue: Queue::Unbounded(sender) }
    }

    /// A janitor that hands values to the bounded queue behind `sender`.
    pub fn from_bounded(sender: Sender<Box<dyn Disposable>>) -> (j: Self)
        ensures
            j.spec_is_bounded(),
    {
        Janitor { queue: Queue::Bounded(sender) }
    }

    /// Whether the janitor's queue has a limit.
    pub fn is_bounded(&self) -> (r: bool)
        ensures
            r == self.spec_is_bounded(),
    {
        match &self.queue {
            Queue::Unbounded(_) => false,
            Queue::Bounded(_) => true,
        }
    }

    /// Sends a value to the background thread for deallocation: through
    /// `send` on an unbounded queue, through `try_send` on a bounded one, so
    /// that the call never waits. Whether the value was queued is not
    /// reported.
    pub fn offload<T: Send + 'static>(&self, item: T) {
        match &self.queue {
            Queue::Unbounded(tx) => {
                let _queued = send_unbounded(tx, item);
            },
            Queue::Bounded(tx) => {
                let _queued = try_send_bounded(tx, item);
            },
        }
    }
}

} // verus!
