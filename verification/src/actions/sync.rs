//! Actions that synchronize with time and events.
use vstd::prelude::*;
use crate::base::{ExecutionState, ExecutionTransition, Nanos, next_state};
use crate::exception::UpdateResult;
use crate::event::{EventAdapter, Listen, Listener, Notifier, Notify};
use crate::actions::{Action, ExecutionContext};

verus! {

/// An action that waits for a given duration of update time.
pub struct Sleep {
    state: ExecutionState,
    duration: Nanos,
    remaining: Nanos,
}

impl Sleep {
    /// A new sleep action of `duration` nanoseconds.
    pub fn new(duration: Nanos) -> (a: Box<Sleep>)
        ensures
            a.spec_state() == ExecutionState::Uninitialized,
            a.spec_duration() == duration,
            a.spec_remaining() == 0,
    {
        Box::new(Sleep { state: ExecutionState::new(), duration, remaining: 0 })
    }

    /// The duration of the sleep.
    pub closed spec fn spec_duration(&self) -> Nanos {
        self.duration
    }

    /// The time that remains to sleep.
    pub closed spec fn spec_remaining(&self) -> Nanos {
        self.remaining
    }
}

impl Action for Sleep {
    closed spec fn spec_state(&self) -> ExecutionState {
        self.state
    }

    fn state(&self) -> (s: ExecutionState) {
        self.state
    }

    fn init(&mut self) -> (s: ExecutionState)
        ensures
            s == next_state(old(self).spec_state(), ExecutionTransition::Init),
            s == ExecutionState::Ready ==> final(self).spec_state() == s && final(self).spec_remaining() == 0 && final(self).spec_duration() == old(self).spec_duration(),
            s != ExecutionState::Ready ==> final(self).spec_state() == old(self).spec_state() && final(self).spec_remaining() == old(self).spec_remaining() && final(self).spec_duration() == old(self).spec_duration(),
    {
        match self.state.peek_state(ExecutionTransition::Init) {
            ExecutionState::Ready => {
                self.remaining = 0;
                self.state.transition_to(ExecutionState::Ready)
            },
            _ => ExecutionState::Error(ExecutionTransition::Init),
        }
    }

    fn start(&mut self, ctx: &mut ExecutionContext) -> (s: ExecutionState)
        ensures
            s == next_state(old(self).spec_state(), ExecutionTransition::Start),
            s == ExecutionState::Running ==> final(self).spec_state() == s && final(self).spec_remaining() == old(self).spec_duration() && final(self).spec_duration() == old(self).spec_duration(),
            s != ExecutionState::Running ==> final(self).spec_state() == old(self).spec_state() && final(self).spec_remaining() == old(self).spec_remaining() && final(self).spec_duration() == old(self).spec_duration(),
    {
        match self.state.peek_state(ExecutionTransition::Start) {
            ExecutionState::Running => {
                self.remaining = self.duration;
                self.state.transition_to(ExecutionState::Running)
            },
            _ => ExecutionState::Error(ExecutionTransition::Start),
        }
    }

    fn update(&mut self, delta: Nanos, ctx: &mut ExecutionContext) -> (r: (Nanos, UpdateResult))
        ensures
            final(self).spec_state() == old(self).spec_state(),
            final(self).spec_duration() == old(self).spec_duration(),
            old(self).spec_state() == ExecutionState::Running ==>
                sleep_step(old(self).spec_remaining(), delta, r, final(self).spec_remaining()),
            old(self).spec_state() != ExecutionState::Running ==> final(self).spec_state() == old(self).spec_state() && final(self).spec_remaining() == old(self).spec_remaining() && final(self).spec_duration() == old(self).spec_duration(),
    {
        match self.state {
            ExecutionState::Running => {
                if self.remaining > delta {
                    self.remaining = self.remaining - delta;
                    (delta, UpdateResult::Busy)
                } else {
                    let remaining = self.remaining;
                    self.remaining = 0;
                    (remaining, UpdateResult::Complete)
                }
            },
            _ => (0, UpdateResult::Error),
        }
    }

    fn finalize(&mut self, ctx: &mut ExecutionContext) -> (s: ExecutionState)
        ensures
            s == next_state(old(self).spec_state(), ExecutionTransition::Finalize),
            s == ExecutionState::Completed ==> final(self).spec_state() == s && final(self).spec_remaining() == 0 && final(self).spec_duration() == old(self).spec_duration(),
            s != ExecutionState::Completed ==> final(self).spec_state() == old(self).spec_state() && final(self).spec_remaining() == old(self).spec_remaining() && final(self).spec_duration() == old(self).spec_duration(),
    {
        match self.state.peek_state(ExecutionTransition::Finalize) {
            ExecutionState::Completed => {
                self.remaining = 0;
                self.state.transition_to(ExecutionState::Completed)
            },
            _ => ExecutionState::Error(ExecutionTransition::Finalize),
        }
    }

    fn terminate(&mut self) -> (s: ExecutionState)
        ensures
            s == next_state(old(self).spec_state(), ExecutionTransition::Terminate),
            s == ExecutionState::Terminated ==> final(self).spec_state() == s && final(self).spec_duration() == 0 && final(self).spec_remaining() == old(self).spec_remaining(),
            s != ExecutionState::Terminated ==> final(self).spec_state() == old(self).spec_state() && final(self).spec_remaining() == old(self).spec_remaining() && final(self).spec_duration() == old(self).spec_duration(),
    {
        match self.state.peek_state(ExecutionTransition::Terminate) {
            ExecutionState::Terminated => {
                self.duration = 0;
                self.state.transition_to(ExecutionState::Terminated)
            },
            _ => ExecutionState::Error(ExecutionTransition::Terminate),
        }
    }
}

/// One update of a running sleep with `before` time left and `delta` time given: while more
/// remains than is given, it consumes all of it and is busy; otherwise it consumes what
/// remains and completes, with nothing left.
pub open spec fn sleep_step(before: Nanos, delta: Nanos, r: (Nanos, UpdateResult), after: Nanos) -> bool {
    if before > delta {
        r == (delta, UpdateResult::Busy) && after == before - delta
    } else {
        r == (before, UpdateResult::Complete) && after == 0
    }
}

/// One update of a running sleep: it never reports more time than it was given, the time it
/// reports and the time it still has add up to the time it had, and it completes exactly when
/// the time it had fits in the time given.
pub proof fn lemma_sleep_step_laws(before: Nanos, delta: Nanos, r: (Nanos, UpdateResult), after: Nanos)
    requires
        sleep_step(before, delta, r, after),
    ensures
        r.0 <= delta,
        r.0 + after == before,
        (r.1 == UpdateResult::Complete) <==> before <= delta,
        r.1 == UpdateResult::Complete ==> after == 0,
        r.1 == UpdateResult::Busy ==> r.0 == delta && after > 0,
        r.1 == UpdateResult::Complete || r.1 == UpdateResult::Busy,
{
}

/// The total time that the update results `results` report.
pub open spec fn total_reported(results: Seq<(Nanos, UpdateResult)>) -> int
    decreases results.len(),
{
    if results.len() == 0 {
        0
    } else {
        total_reported(results.drop_last()) + results.last().0
    }
}

/// A sleep reports exactly the time it had left: along any run of updates of a running sleep
/// (`remaining[i]` left before update `i`, which is given `deltas[i]` and returns `results[i]`)
/// the reported times and the time still left add up to the time left at the start; so when
/// the last update completes the sleep, the reported times add up to that time.
pub proof fn lemma_sleep_run(remaining: Seq<Nanos>, deltas: Seq<Nanos>, results: Seq<(Nanos, UpdateResult)>)
    requires
        remaining.len() == deltas.len() + 1,
        results.len() == deltas.len(),
        forall|i: int| 0 <= i < deltas.len() ==> #[trigger] sleep_step(remaining[i], deltas[i], results[i], remaining[i + 1]),
    ensures
        total_reported(results) + remaining.last() == remaining[0],
        results.len() > 0 && results.last().1 == UpdateResult::Complete ==> total_reported(results) == remaining[0],
    decreases results.len(),
{
    if results.len() > 0 {
        let n = results.len() - 1;
        lemma_sleep_run(remaining.drop_last(), deltas.drop_last(), results.drop_last());
        assert(sleep_step(remaining[n], deltas[n], results[n], remaining[n + 1]));
        assert(remaining.drop_last().last() == remaining[n]);
    }
}

/// An action that waits for an event.
pub struct Sync {
    state: ExecutionState,
    listener: Box<dyn Listen>,
    notified: Ghost<Option<bool>>,
}

impl Sync {
    /// A new action that waits on the given listener.
    pub fn new<A: EventAdapter + 'static>(listener: Listener<A>) -> (a: Box<Sync>)
        ensures
            a.spec_state() == ExecutionState::Uninitialized,
    {
        Box::new(Sync { state: ExecutionState::new(), listener: Box::new(listener), notified: Ghost(None) })
    }

    /// What the listener answered in the last update (whether the event was notified), if it
    /// was asked.
    pub closed spec fn spec_notified(&self) -> Option<bool> {
        self.notified@
    }
}

impl Action for Sync {
    closed spec fn spec_state(&self) -> ExecutionState {
        self.state
    }

    fn state(&self) -> (s: ExecutionState) {
        self.state
    }

    fn init(&mut self) -> (s: ExecutionState)
        ensures
            s == next_state(old(self).spec_state(), ExecutionTransition::Init),
            final(self).spec_state() == (if s == ExecutionState::Ready { s } else { old(self).spec_state() }),
    {
        match self.state.peek_state(ExecutionTransition::Init) {
            ExecutionState::Ready => self.state.transition_to(ExecutionState::Ready),
            _ => ExecutionState::Error(ExecutionTransition::Init),
        }
    }

    fn start(&mut self, ctx: &mut ExecutionContext) -> (s: ExecutionState)
        ensures
            s == next_state(old(self).spec_state(), ExecutionTransition::Start),
            final(self).spec_state() == (if s == ExecutionState::Running { s } else { old(self).spec_state() }),
    {
        match self.state.peek_state(ExecutionTransition::Start) {
            ExecutionState::Running => {
                // notifications from before the start do not count
                let _ = self.listener.check_and_reset();
                self.state.transition_to(ExecutionState::Running)
            },
            _ => ExecutionState::Error(ExecutionTransition::Start),
        }
    }

    fn update(&mut self, delta: Nanos, ctx: &mut ExecutionContext) -> (r: (Nanos, UpdateResult))
        ensures
            final(self).spec_state() == old(self).spec_state(),
            // the listener is asked: a notified event completes the action at once, otherwise it
            // waits all of `delta`
            old(self).spec_state() == ExecutionState::Running ==> (final(self).spec_notified() matches Some(n)
                && r == (if n { (0u64, UpdateResult::Complete) } else { (delta, UpdateResult::Busy) })),
    {
        match self.state {
            ExecutionState::Running => {
                let notified = self.listener.check_and_reset();
                self.notified = Ghost(Some(notified));
                if notified {
                    (0, UpdateResult::Complete)
                } else {
                    (delta, UpdateResult::Busy)
                }
            },
            _ => (0, UpdateResult::Error),
        }
    }

    fn finalize(&mut self, ctx: &mut ExecutionContext) -> (s: ExecutionState)
        ensures
            s == next_state(old(self).spec_state(), ExecutionTransition::Finalize),
            final(self).spec_state() == (if s == ExecutionState::Completed { s } else { old(self).spec_state() }),
    {
        match self.state.peek_state(ExecutionTransition::Finalize) {
            ExecutionState::Completed => self.state.transition_to(ExecutionState::Completed),
            _ => ExecutionState::Error(ExecutionTransition::Finalize),
        }
    }

    fn terminate(&mut self) -> (s: ExecutionState)
        ensures
            s == next_state(old(self).spec_state(), ExecutionTransition::Terminate),
            final(self).spec_state() == (if s == ExecutionState::Terminated { s } else { old(self).spec_state() }),
    {
        match self.state.peek_state(ExecutionTransition::Terminate) {
            ExecutionState::Terminated => self.state.transition_to(ExecutionState::Terminated),
            _ => ExecutionState::Error(ExecutionTransition::Terminate),
        }
    }
}

/// An action that notifies an event.
pub struct Trigger {
    state: ExecutionState,
    notifier: Box<dyn Notify>,
}

impl Trigger {
    /// A new action that notifies through the given notifier.
    pub fn new<A: EventAdapter + 'static>(notifier: Notifier<A>) -> (a: Box<Trigger>)
        ensures
            a.spec_state() == ExecutionState::Uninitialized,
    {
        Box::new(Trigger { state: ExecutionState::new(), notifier: Box::new(notifier) })
    }
}

impl Action for Trigger {
    closed spec fn spec_state(&self) -> ExecutionState {
        self.state
    }

    fn state(&self) -> (s: ExecutionState) {
        self.state
    }

    fn init(&mut self) -> (s: ExecutionState)
        ensures
            s == next_state(old(self).spec_state(), ExecutionTransition::Init),
            final(self).spec_state() == s,
    {
        let next = self.state.peek_state(ExecutionTransition::Init);
        self.state.transition_to(next)
    }

    fn start(&mut self, ctx: &mut ExecutionContext) -> (s: ExecutionState)
        ensures
            s == next_state(old(self).spec_state(), ExecutionTransition::Start),
            final(self).spec_state() == s,
    {
        let next = self.state.peek_state(ExecutionTransition::Start);
        self.state.transition_to(next)
    }

    fn update(&mut self, delta: Nanos, ctx: &mut ExecutionContext) -> (r: (Nanos, UpdateResult))
        ensures
            final(self).spec_state() == old(self).spec_state(),
            old(self).spec_state() == ExecutionState::Running ==> r == (0u64, UpdateResult::Complete),
    {
        match self.state {
            ExecutionState::Running => {
                self.notifier.notify();
                (0, UpdateResult::Complete)
            },
            _ => (0, UpdateResult::Error),
        }
    }

    fn finalize(&mut self, ctx: &mut ExecutionContext) -> (s: ExecutionState)
        ensures
            s == next_state(old(self).spec_state(), ExecutionTransition::Finalize),
            final(self).spec_state() == s,
    {
        let next = self.state.peek_state(ExecutionTransition::Finalize);
        self.state.transition_to(next)
    }

    fn terminate(&mut self) -> (s: ExecutionState)
        ensures
            s == next_state(old(self).spec_state(), ExecutionTransition::Terminate),
            final(self).spec_state() == s,
    {
        let next = self.state.peek_state(ExecutionTransition::Terminate);
        self.state.transition_to(next)
    }
}

} // verus!
