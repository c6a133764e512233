//! The types of other crates that an isolate's entry carries, and the one call
//! that is made on them.
//!
//! Nothing is known of the inside of these types. A value of one of them
//! stands for the shared object itself, not for what the object currently
//! holds.

use futures::task::AtomicWaker;
use std::sync::Arc;
use vstd::prelude::*;

verus! {

/// The slot that the event loop leaves its waker in.
#[verifier::external_type_specification]
#[verifier::external_body]
pub struct ExAtomicWaker(futures::task::AtomicWaker);

/// The runtime on which delayed tasks wait.
#[verifier::external_type_specification]
#[verifier::external_body]
pub struct ExHandle(tokio::runtime::Handle);

/// The lock around an isolate's queue.
#[verifier::external_type_specification]
#[verifier::external_body]
#[verifier::reject_recursive_types(T)]
pub struct ExMutex<T: ?Sized>(std::sync::Mutex<T>);

/// The event loop that is still to be woken for a task that was queued. It can
/// be woken once: to wake it uses this up.
pub struct PendingWake {
    waker: Arc<AtomicWaker>,
}

impl PendingWake {
    /// The waker of the event loop.
    pub closed spec fn waker(&self) -> Arc<AtomicWaker> {
        self.waker
    }

    /// A wake-up that is due.
    pub(crate) fn new(waker: Arc<AtomicWaker>) -> (pending: PendingWake)
        ensures
            pending.waker() == waker,
    {
        PendingWake { waker }
    }
}

/// Evidence that an event loop has been woken. There is no other way to get
/// one than to wake the event loop.
pub struct EventLoopWoken {
    waker: Arc<AtomicWaker>,
}

impl EventLoopWoken {
    /// The waker of the event loop that was woken.
    pub closed spec fn waker(&self) -> Arc<AtomicWaker> {
        self.waker
    }
}

/// Calls `futures::task::AtomicWaker::wake` on the waker of `pending`. It wakes
/// what was last registered with the waker, and does nothing where nothing is
/// registered.
///
/// Claimed of the call is only that it was made, and on which waker. What the
/// woken event loop does then, and whether one was registered at all, depends
/// on the other threads and is not stated.
#[verifier::external_body]
pub(crate) fn wake_event_loop(pending: PendingWake) -> (woken: EventLoopWoken)
    ensures
        woken.waker() == pending.waker(),
{
    pending.waker.wake();
    EventLoopWoken { waker: pending.waker }
}

} // verus!
