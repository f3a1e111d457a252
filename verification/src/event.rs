//! Events: notifiers trigger them, listeners observe them.
use vstd::prelude::*;
use std::sync::Arc;
use std::sync::atomic::{AtomicBool, AtomicUsize, Ordering};
use crate::base::{Error, Nanos, RtoResult, TimeoutStatus};
use crate::errors::{EVENT_SUBSCRIBERS_FULL, LOCK_ERROR};
use crate::latch::Latch;

verus! {

/// The sending side of an event.
pub trait Notify: Send {
    /// Notify the connected event.
    fn notify(&self);
}

/// The receiving side of an event.
pub trait Listen: Send {
    /// Whether the event was notified since the last reset, leaving it as it is.
    fn check(&self) -> bool;

    /// Whether the event was notified since the last reset; resets it.
    fn check_and_reset(&self) -> bool;

    /// Block until the event is notified; resets it.
    fn wait(&self) -> RtoResult<()>;

    /// Block until the event is notified or the timeout (in nanoseconds) passes; resets it.
    fn wait_timeout(&self, timeout: Nanos) -> RtoResult<TimeoutStatus>;
}

/// Links an event implementation with the `Event` handle.
pub trait EventAdapter: Sized + Send + Sync {
    /// The notifier of the event.
    type NotifierInner: Notify + Sync;

    /// The listener of the event.
    type ListenerInner: Listen + Sync;

    /// Whether `r` is a result that registering a notifier with `event` may give.
    /// Any result, unless the adapter says more.
    open spec fn notifier_result(event: Arc<Self>, r: RtoResult<Self::NotifierInner>) -> bool {
        true
    }

    /// Whether `r` is a result that subscribing a listener to `event` may give.
    /// Any result, unless the adapter says more.
    open spec fn listener_result(event: Arc<Self>, r: RtoResult<Self::ListenerInner>) -> bool {
        true
    }

    /// Register a new notifier with the event.
    fn notifier(event: &Arc<Self>) -> (r: RtoResult<Self::NotifierInner>)
        ensures
            Self::notifier_result(*event, r),
    ;

    /// Subscribe a new listener to the event.
    fn listener(event: &Arc<Self>) -> (r: RtoResult<Self::ListenerInner>)
        ensures
            Self::listener_result(*event, r),
    ;
}

/// A handle that notifies an event; clones share the registration.
pub struct Notifier<A: EventAdapter> {
    inner: Arc<A::NotifierInner>,
}

impl<A: EventAdapter> Clone for Notifier<A> {
    fn clone(&self) -> Self {
        Notifier { inner: self.inner.clone() }
    }
}

impl<A: EventAdapter> Notifier<A> {
    /// The notifier of the adapter that this handle shares.
    pub closed spec fn spec_inner(&self) -> A::NotifierInner {
        *self.inner
    }
}

impl<A: EventAdapter> Notify for Notifier<A> {
    fn notify(&self) {
        self.inner.notify()
    }
}

/// A handle that listens to an event; clones share the subscription.
pub struct Listener<A: EventAdapter> {
    inner: Arc<A::ListenerInner>,
}

impl<A: EventAdapter> Clone for Listener<A> {
    fn clone(&self) -> Self {
        Listener { inner: self.inner.clone() }
    }
}

impl<A: EventAdapter> Listener<A> {
    /// The listener of the adapter that this handle shares.
    pub closed spec fn spec_inner(&self) -> A::ListenerInner {
        *self.inner
    }
}

impl<A: EventAdapter> Listen for Listener<A> {
    fn check(&self) -> bool {
        self.inner.check()
    }

    fn check_and_reset(&self) -> bool {
        self.inner.check_and_reset()
    }

    fn wait(&self) -> RtoResult<()> {
        self.inner.wait()
    }

    fn wait_timeout(&self, timeout: Nanos) -> RtoResult<TimeoutStatus> {
        self.inner.wait_timeout(timeout)
    }
}

/// An event: notifiers trigger it, listeners observe it. Clones share the event.
pub struct Event<A: EventAdapter> {
    inner: Arc<A>,
}

impl<A: EventAdapter> Clone for Event<A> {
    fn clone(&self) -> Self {
        Event { inner: self.inner.clone() }
    }
}

impl<A: EventAdapter> Event<A> {
    /// The adapter that the event shares.
    pub closed spec fn adapter(&self) -> A {
        *self.inner
    }

    /// The shared adapter of the event.
    pub closed spec fn spec_shared(&self) -> Arc<A> {
        self.inner
    }

    /// A new event over the given adapter.
    pub fn new(adapter: A) -> (e: Event<A>)
        ensures
            e.adapter() == adapter,
    {
        Event { inner: Arc::new(adapter) }
    }

    /// Register a notifier with the event; fails where the adapter refuses it.
    pub fn notifier(&self) -> (r: RtoResult<Notifier<A>>)
        ensures
            r matches Ok(n) ==> A::notifier_result(self.spec_shared(), Ok(n.spec_inner())),
            r matches Err(e) ==> A::notifier_result(self.spec_shared(), Err(e)),
    {
        match A::notifier(&self.inner) {
            Ok(n) => Ok(Notifier { inner: Arc::new(n) }),
            Err(e) => Err(e),
        }
    }

    /// Subscribe a listener to the event; fails where the adapter refuses it.
    pub fn listener(&self) -> (r: RtoResult<Listener<A>>)
        ensures
            r matches Ok(l) ==> A::listener_result(self.spec_shared(), Ok(l.spec_inner())),
            r matches Err(e) ==> A::listener_result(self.spec_shared(), Err(e)),
    {
        match A::listener(&self.inner) {
            Ok(l) => Ok(Listener { inner: Arc::new(l) }),
            Err(e) => Err(e),
        }
    }
}

/// An event with any number of notifiers and at most one listener.
pub struct SingleEvent {
    /// number of registered notifiers, for reference
    notifiers: AtomicUsize,
    /// whether a listener is subscribed
    listener: AtomicBool,
    /// the notification flag
    state: Latch,
}

impl SingleEvent {
    /// The adapter of a new single event, with no notifier and no listener.
    pub fn new_adapter() -> SingleEvent {
        SingleEvent { notifiers: AtomicUsize::new(0), listener: AtomicBool::new(false), state: Latch::new() }
    }

    /// A new single event.
    pub fn new() -> Event<SingleEvent> {
        Event::new(SingleEvent::new_adapter())
    }
}

/// Notifier of a single event.
pub struct SingleNotify {
    event: Arc<SingleEvent>,
}

impl SingleNotify {
    /// The event the notifier is registered with.
    pub closed spec fn spec_event(&self) -> Arc<SingleEvent> {
        self.event
    }
}

impl Notify for SingleNotify {
    fn notify(&self) {
        self.event.state.set_all()
    }
}

/// Listener of a single event.
pub struct SingleListen {
    event: Arc<SingleEvent>,
}

impl SingleListen {
    /// The event the listener is subscribed to.
    pub closed spec fn spec_event(&self) -> Arc<SingleEvent> {
        self.event
    }
}

impl Drop for SingleListen {
    /// Dropping the listener unsubscribes it, so that another may subscribe.
    fn drop(&mut self)
        opens_invariants none
        no_unwind
    {
        store_flag(&self.event.listener, false);
    }
}

impl Drop for SingleNotify {
    /// Dropping a notifier unregisters it.
    fn drop(&mut self)
        opens_invariants none
        no_unwind
    {
        subtract_count(&self.event.notifiers, 1);
    }
}

/// `AtomicBool::store` with `Release` ordering, which the documentation says panics only for
/// the orderings `Acquire` and `AcqRel`; so it returns, and opens no invariant of this crate.
/// Nothing is claimed of the stored value.
#[verifier::external_body]
fn store_flag(flag: &AtomicBool, value: bool)
    opens_invariants none
    no_unwind
{
    flag.store(value, Ordering::Release)
}

/// `AtomicUsize::fetch_sub` with `AcqRel` ordering, which wraps around on overflow and never
/// panics; so it returns, and opens no invariant of this crate. Nothing is claimed of the count.
#[verifier::external_body]
fn subtract_count(count: &AtomicUsize, value: usize)
    opens_invariants none
    no_unwind
{
    count.fetch_sub(value, Ordering::AcqRel);
}

/// The error of a poisoned lock.
fn lock_error() -> (e: Error)
    ensures
        e.code == LOCK_ERROR,
{
    Error::from_code(LOCK_ERROR)
}

impl Listen for SingleListen {
    fn check(&self) -> bool {
        self.event.state.check()
    }

    fn check_and_reset(&self) -> bool {
        self.event.state.check_and_reset()
    }

    fn wait(&self) -> (r: RtoResult<()>)
        ensures
            r matches Err(e) ==> e.code == LOCK_ERROR,
    {
        if self.event.state.wait() {
            Ok(())
        } else {
            Err(lock_error())
        }
    }

    fn wait_timeout(&self, timeout: Nanos) -> (r: RtoResult<TimeoutStatus>)
        ensures
            r matches Err(e) ==> e.code == LOCK_ERROR,
    {
        match self.event.state.wait_timeout(timeout) {
            Some(true) => Ok(TimeoutStatus::TimedOut),
            Some(false) => Ok(TimeoutStatus::NotTimedOut),
            None => Err(lock_error()),
        }
    }
}

impl EventAdapter for SingleEvent {
    type NotifierInner = SingleNotify;
    type ListenerInner = SingleListen;

    /// Registering a notifier always succeeds, with a notifier of the event.
    open spec fn notifier_result(event: Arc<SingleEvent>, r: RtoResult<SingleNotify>) -> bool {
        r matches Ok(n) && n.spec_event() == event
    }

    /// A listener of the event, or `EVENT_SUBSCRIBERS_FULL` where one is subscribed already.
    open spec fn listener_result(event: Arc<SingleEvent>, r: RtoResult<SingleListen>) -> bool {
        match r {
            Ok(l) => l.spec_event() == event,
            Err(e) => e.code == EVENT_SUBSCRIBERS_FULL,
        }
    }

    fn notifier(event: &Arc<SingleEvent>) -> (r: RtoResult<SingleNotify>)
        ensures
            r is Ok,
    {
        event.notifiers.fetch_add(1, Ordering::AcqRel);
        Ok(SingleNotify { event: event.clone() })
    }

    fn listener(event: &Arc<SingleEvent>) -> (r: RtoResult<SingleListen>)
        ensures
            r matches Err(e) ==> e.code == EVENT_SUBSCRIBERS_FULL,
    {
        if event.listener.swap(true, Ordering::AcqRel) {
            Err(Error::from_code(EVENT_SUBSCRIBERS_FULL))
        } else {
            Ok(SingleListen { event: event.clone() })
        }
    }
}

} // verus!
