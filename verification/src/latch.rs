//! A latch: a boolean flag under a mutex, with a condition variable to wait for it.
//!
//! The flag is shared between threads, so its value can change between any two calls; the
//! operations of the latch therefore claim nothing of the values they return. The standard
//! library's locking primitives are wrapped one by one; the protocol on the flag (set and
//! wake, read and clear, wait and clear) is the latch's own, in verified code. A guard only
//! exists as a `LatchGuard`, which holds the latch it was taken from, so that the condition
//! variable always waits with the latch's own mutex; every operation takes the guard once and
//! releases it before it returns, so no thread asks for the mutex while it holds it.
use vstd::prelude::*;
use std::sync::{Condvar, Mutex, MutexGuard};
use std::time::Duration;
use crate::base::Nanos;

verus! {

/// `std::sync::Mutex`, an opaque type: nothing is known of its content.
#[verifier::external_type_specification]
#[verifier::external_body]
#[verifier::reject_recursive_types(T)]
pub struct ExMutex<T: ?Sized>(Mutex<T>);

/// `std::sync::MutexGuard`, an opaque type: nothing is known of the value it guards.
#[verifier::external_type_specification]
#[verifier::external_body]
#[verifier::reject_recursive_types(T)]
pub struct ExMutexGuard<'a, T: ?Sized + 'a>(MutexGuard<'a, T>);

/// `std::sync::Condvar`, an opaque type.
#[verifier::external_type_specification]
#[verifier::external_body]
pub struct ExCondvar(Condvar);

/// `std::sync::Mutex::new`: a new mutex over `value`.
#[verifier::external_body]
fn new_mutex(value: bool) -> Mutex<bool> {
    Mutex::new(value)
}

/// `std::sync::Condvar::new`: a new condition variable.
#[verifier::external_body]
fn new_condvar() -> Condvar {
    Condvar::new()
}

/// Whether the flag is clear, so that a waiter goes on waiting.
fn flag_clear(flag: &mut bool) -> (b: bool)
    ensures
        b == !*old(flag),
        *final(flag) == *old(flag),
{
    !*flag
}

/// A boolean flag under a mutex, set by one side and awaited by the other.
pub struct Latch {
    flag: Mutex<bool>,
    cvar: Condvar,
}

/// The guard of a latch's mutex, together with the latch it was taken from. Only `lock` and
/// the waits make one, from the latch's own mutex.
struct LatchGuard<'a> {
    latch: &'a Latch,
    guard: MutexGuard<'a, bool>,
}

/// `Mutex::lock` on the latch's flag: its guard, or `None` where the mutex is poisoned. The
/// mutex is asked only by the latch's operations below, each once and not while it holds the
/// guard, so the call does not wait on the calling thread itself.
#[verifier::external_body]
fn lock<'a>(latch: &'a Latch) -> Option<LatchGuard<'a>> {
    match latch.flag.lock() {
        Ok(guard) => Some(LatchGuard { latch, guard }),
        Err(_) => None,
    }
}

/// `Deref` of the guard: the flag; nothing is claimed of it.
#[verifier::external_body]
fn read(g: &LatchGuard) -> bool {
    *g.guard
}

/// `DerefMut` of the guard: replace the flag.
#[verifier::external_body]
fn write(g: &mut LatchGuard, value: bool) {
    *g.guard = value;
}

/// `Condvar::notify_one` on the latch's condition variable: wake one waiter.
#[verifier::external_body]
fn notify_one(latch: &Latch) {
    latch.cvar.notify_one()
}

/// `Condvar::notify_all` on the latch's condition variable: wake all waiters.
#[verifier::external_body]
fn notify_all(latch: &Latch) {
    latch.cvar.notify_all()
}

/// `Condvar::wait_while` on the guard's own latch, while the flag is clear (`flag_clear`): the
/// guard again, or `None` where the mutex is poisoned. Nothing is claimed of when it returns.
#[verifier::external_body]
fn wait_while_clear<'a>(g: LatchGuard<'a>) -> Option<LatchGuard<'a>> {
    let LatchGuard { latch, guard } = g;
    match latch.cvar.wait_while(guard, flag_clear) {
        Ok(guard) => Some(LatchGuard { latch, guard }),
        Err(_) => None,
    }
}

/// `Condvar::wait_timeout_while` on the guard's own latch, while the flag is clear
/// (`flag_clear`), for at most `timeout`: the guard again and whether the wait timed out, or
/// `None` where the mutex is poisoned. Nothing is claimed of the outcome.
#[verifier::external_body]
fn wait_while_clear_timeout<'a>(g: LatchGuard<'a>, timeout: Duration) -> Option<(LatchGuard<'a>, bool)> {
    let LatchGuard { latch, guard } = g;
    match latch.cvar.wait_timeout_while(guard, timeout, flag_clear) {
        Ok((guard, waited)) => Some((LatchGuard { latch, guard }, waited.timed_out())),
        Err(_) => None,
    }
}

/// `Duration::from_nanos`: the duration of `nanos` nanoseconds.
#[verifier::external_body]
fn duration_from_nanos(nanos: Nanos) -> Duration {
    Duration::from_nanos(nanos)
}

impl Latch {
    /// A new latch with the flag clear.
    pub fn new() -> Latch {
        Latch { flag: new_mutex(false), cvar: new_condvar() }
    }

    /// Set the flag and wake one waiter; where the mutex is poisoned, nothing happens.
    pub(crate) fn set_one(&self) {
        if let Some(mut g) = lock(self) {
            write(&mut g, true);
            notify_one(self);
        }
    }

    /// Set the flag and wake all waiters; where the mutex is poisoned, nothing happens.
    pub(crate) fn set_all(&self) {
        if let Some(mut g) = lock(self) {
            write(&mut g, true);
            notify_all(self);
        }
    }

    /// The flag; `false` where the mutex is poisoned.
    pub(crate) fn check(&self) -> bool {
        match lock(self) {
            Some(g) => read(&g),
            None => false,
        }
    }

    /// The flag, which is cleared; `false` where the mutex is poisoned.
    pub(crate) fn check_and_reset(&self) -> bool {
        match lock(self) {
            Some(mut g) => {
                let result = read(&g);
                write(&mut g, false);
                result
            },
            None => false,
        }
    }

    /// Wait until the flag is set, then clear it: `true`, or `false` where the mutex is
    /// poisoned.
    pub(crate) fn wait(&self) -> bool {
        match lock(self) {
            Some(g) => match wait_while_clear(g) {
                Some(mut g) => {
                    write(&mut g, false);
                    true
                },
                None => false,
            },
            None => false,
        }
    }

    /// Wait until the flag is set or `timeout` nanoseconds pass, then clear the flag: whether
    /// the wait timed out, or `None` where the mutex is poisoned.
    pub(crate) fn wait_timeout(&self, timeout: Nanos) -> Option<bool> {
        let duration = duration_from_nanos(timeout);
        match lock(self) {
            Some(g) => match wait_while_clear_timeout(g, duration) {
                Some((mut g, timed_out)) => {
                    write(&mut g, false);
                    Some(timed_out)
                },
                None => None,
            },
            None => None,
        }
    }
}

} // verus!
