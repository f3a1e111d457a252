//! Configuration and lifecycle decisions of the engine that executes tasks on a thread pool.
use vstd::prelude::*;
use crate::base::{Error, ErrorCode, ExecutionState, ExecutionTransition, Nanos, RtoResult, next_state, state_name};
use crate::errors::{INVALID_OPERATION, THREAD_JOIN_ERROR, UNSUPPORTED_FEATURE};

verus! {

/// An eight-byte tag that names an engine.
#[derive(Debug, Clone, Copy)]
pub struct Tag {
    pub bytes: [u8; 8],
}

impl Tag {
    /// The tag of the given bytes.
    pub fn new(bytes: [u8; 8]) -> (t: Tag)
        ensures
            t.bytes == bytes,
    {
        Tag { bytes }
    }
}

/// The id of a core group.
pub type Id = u32;

/// A steady, monotonic clock in nanoseconds, which can hold the execution until a timepoint.
pub trait Clock: Send + Sync {
    /// The frequency of the clock, in Hz.
    fn frequency(&self) -> u64;

    /// The current timepoint, in nanoseconds since the clock started.
    fn now(&self) -> Nanos;

    /// Sleep until the given timepoint; returns at once for a timepoint in the past.
    fn sleep_until(&self, timepoint: Nanos);
}

/// The period of a clock of the given frequency, in nanoseconds.
pub fn period_of(frequency: u64) -> (p: Nanos)
    requires
        frequency > 0,
    ensures
        p == 1_000_000_000u64 / frequency,
{
    1_000_000_000u64 / frequency
}

/// The most threads an engine uses.
pub const MAX_THREADS: usize = 256;

/// The most tasks an engine schedules.
pub const MAX_TASKS: usize = 2048;

/// The fewest tasks an engine schedules.
pub const MIN_TASKS: usize = 8;

/// The default number of threads.
pub const DEFAULT_THREADS: usize = 8;

/// The default number of tasks.
pub const DEFAULT_TASKS: usize = 256;

/// A value limited to a range lies in the range, is the value itself where that lies in the
/// range, stays where it is when limited again, and keeps the order of values.
pub proof fn lemma_clamp_laws(v: usize, w: usize, lo: usize, hi: usize)
    requires
        lo <= hi,
    ensures
        lo <= clamped(v, lo, hi) <= hi,
        lo <= v <= hi ==> clamped(v, lo, hi) == v,
        clamped(clamped(v, lo, hi), lo, hi) == clamped(v, lo, hi),
        v <= w ==> clamped(v, lo, hi) <= clamped(w, lo, hi),
{
}

/// `v` limited to the range from `lo` to `hi`.
pub open spec fn clamped(v: usize, lo: usize, hi: usize) -> usize {
    if v < lo { lo } else if v > hi { hi } else { v }
}

/// `v` limited to the range from `lo` to `hi`.
pub fn clamp(v: usize, lo: usize, hi: usize) -> (r: usize)
    requires
        lo <= hi,
    ensures
        r == clamped(v, lo, hi),
        lo <= r <= hi,
{
    if v < lo { lo } else if v > hi { hi } else { v }
}

/// The validated configuration of an engine.
pub struct EngineConfig {
    pub tag: Tag,
    pub nthreads: usize,
    pub ntasks: usize,
    pub clock: Option<Box<dyn Clock>>,
}

impl EngineConfig {
    /// A configuration with the thread number limited to 1..256 and the task number to 8..2048.
    pub fn new(tag: Tag, clock: Option<Box<dyn Clock>>, nthreads: usize, ntasks: usize) -> (c: EngineConfig)
        ensures
            c.tag == tag,
            c.nthreads == clamped(nthreads, 1, MAX_THREADS),
            c.ntasks == clamped(ntasks, MIN_TASKS, MAX_TASKS),
            1 <= c.nthreads <= MAX_THREADS,
            MIN_TASKS <= c.ntasks <= MAX_TASKS,
            c.clock is Some == clock is Some,
    {
        EngineConfig {
            tag,
            nthreads: clamp(nthreads, 1, MAX_THREADS),
            ntasks: clamp(ntasks, MIN_TASKS, MAX_TASKS),
            clock,
        }
    }
}

/// Configures an engine.
pub struct EngineBuilder {
    tag: Tag,
    nthreads: usize,
    ntasks: usize,
    priority: Option<u32>,
    affinity: Option<Id>,
    clock: Option<Box<dyn Clock>>,
}

impl EngineBuilder {
    /// A builder with the default values: tag `Engine__`, 8 threads, 256 tasks, the default clock.
    pub fn new() -> (b: EngineBuilder)
        ensures
            b.spec_nthreads() == DEFAULT_THREADS,
            b.spec_ntasks() == DEFAULT_TASKS,
            b.spec_priority() is None,
            b.spec_affinity() is None,
            !b.spec_has_clock(),
    {
        EngineBuilder {
            tag: Tag::new([0x45, 0x6e, 0x67, 0x69, 0x6e, 0x65, 0x5f, 0x5f]),
            nthreads: DEFAULT_THREADS,
            ntasks: DEFAULT_TASKS,
            priority: None,
            affinity: None,
            clock: None,
        }
    }

    /// The number of threads asked for.
    pub closed spec fn spec_nthreads(&self) -> usize {
        self.nthreads
    }

    /// The number of tasks asked for.
    pub closed spec fn spec_ntasks(&self) -> usize {
        self.ntasks
    }

    /// The tag of the engine.
    pub closed spec fn spec_tag(&self) -> Tag {
        self.tag
    }

    /// The thread priority asked for.
    pub closed spec fn spec_priority(&self) -> Option<u32> {
        self.priority
    }

    /// The core group affinity asked for.
    pub closed spec fn spec_affinity(&self) -> Option<Id> {
        self.affinity
    }

    /// Whether a clock was given.
    pub closed spec fn spec_has_clock(&self) -> bool {
        self.clock is Some
    }

    /// Set the tag.
    pub fn with_tag(self, tag: Tag) -> (b: EngineBuilder)
        ensures
            b.spec_tag() == tag,
            b.spec_nthreads() == self.spec_nthreads(),
            b.spec_ntasks() == self.spec_ntasks(),
            b.spec_priority() == self.spec_priority(),
            b.spec_affinity() == self.spec_affinity(),
            b.spec_has_clock() == self.spec_has_clock(),
    {
        let mut b = self;
        b.tag = tag;
        b
    }

    /// Set the number of threads.
    pub fn with_threads(self, nthreads: usize) -> (b: EngineBuilder)
        ensures
            b.spec_tag() == self.spec_tag(),
            b.spec_nthreads() == nthreads,
            b.spec_ntasks() == self.spec_ntasks(),
            b.spec_priority() == self.spec_priority(),
            b.spec_affinity() == self.spec_affinity(),
            b.spec_has_clock() == self.spec_has_clock(),
    {
        let mut b = self;
        b.nthreads = nthreads;
        b
    }

    /// Set the number of tasks.
    pub fn with_tasks(self, ntasks: usize) -> (b: EngineBuilder)
        ensures
            b.spec_tag() == self.spec_tag(),
            b.spec_nthreads() == self.spec_nthreads(),
            b.spec_ntasks() == ntasks,
            b.spec_priority() == self.spec_priority(),
            b.spec_affinity() == self.spec_affinity(),
            b.spec_has_clock() == self.spec_has_clock(),
    {
        let mut b = self;
        b.ntasks = ntasks;
        b
    }

    /// Set the thread priority (not supported: building fails).
    pub fn with_priority(self, priority: u32) -> (b: EngineBuilder)
        ensures
            b.spec_tag() == self.spec_tag(),
            b.spec_nthreads() == self.spec_nthreads(),
            b.spec_ntasks() == self.spec_ntasks(),
            b.spec_priority() == Some(priority),
            b.spec_affinity() == self.spec_affinity(),
            b.spec_has_clock() == self.spec_has_clock(),
    {
        let mut b = self;
        b.priority = Some(priority);
        b
    }

    /// Set the core group affinity (not supported: building fails).
    pub fn with_affinity(self, affinity: Id) -> (b: EngineBuilder)
        ensures
            b.spec_tag() == self.spec_tag(),
            b.spec_nthreads() == self.spec_nthreads(),
            b.spec_ntasks() == self.spec_ntasks(),
            b.spec_priority() == self.spec_priority(),
            b.spec_affinity() == Some(affinity),
            b.spec_has_clock() == self.spec_has_clock(),
    {
        let mut b = self;
        b.affinity = Some(affinity);
        b
    }

    /// Set the clock.
    pub fn with_clock(self, clock: Box<dyn Clock>) -> (b: EngineBuilder)
        ensures
            b.spec_tag() == self.spec_tag(),
            b.spec_nthreads() == self.spec_nthreads(),
            b.spec_ntasks() == self.spec_ntasks(),
            b.spec_priority() == self.spec_priority(),
            b.spec_affinity() == self.spec_affinity(),
            b.spec_has_clock(),
    {
        let mut b = self;
        b.clock = Some(clock);
        b
    }

    /// The configuration of the engine: refused with `UNSUPPORTED_FEATURE` where a priority or
    /// an affinity was asked for; otherwise the thread and task numbers are limited to their ranges.
    pub fn build(self) -> (r: RtoResult<EngineConfig>)
        ensures
            (r is Ok) == (self.spec_priority() is None && self.spec_affinity() is None),
            r matches Err(e) ==> e.code == UNSUPPORTED_FEATURE && e.message@ == (if self.spec_priority() is Some {
                "Thread priority is not supported yet"@
            } else {
                "Thread affinity is not supported yet"@
            }),
            r matches Ok(c) ==> c.tag == self.spec_tag()
                && c.nthreads == clamped(self.spec_nthreads(), 1, MAX_THREADS)
                && c.ntasks == clamped(self.spec_ntasks(), MIN_TASKS, MAX_TASKS)
                && (c.clock is Some) == self.spec_has_clock(),
    {
        if self.priority.is_some() {
            Err(Error::new(UNSUPPORTED_FEATURE, String::from_str("Thread priority is not supported yet")))
        } else if self.affinity.is_some() {
            Err(Error::new(UNSUPPORTED_FEATURE, String::from_str("Thread affinity is not supported yet")))
        } else {
            Ok(EngineConfig::new(self.tag, self.clock, self.nthreads, self.ntasks))
        }
    }
}

/// A message that names a state: `prefix`, the state's name, `suffix`.
pub fn state_message(prefix: &str, state: ExecutionState, suffix: &str) -> (m: String)
    ensures
        m@ == prefix@ + state_name(state) + suffix@,
{
    let mut m = String::from_str(prefix);
    let name = state.name();
    m.append(name.as_str());
    m.append(suffix);
    m
}

/// The character of the decimal digit `d`.
pub open spec fn digit_char(d: nat) -> char {
    if d == 0 { '0' } else if d == 1 { '1' } else if d == 2 { '2' } else if d == 3 { '3' } else if d == 4 { '4' }
    else if d == 5 { '5' } else if d == 6 { '6' } else if d == 7 { '7' } else if d == 8 { '8' } else { '9' }
}

/// The decimal text of `n`, without leading zeros.
pub open spec fn decimal(n: nat) -> Seq<char>
    decreases n,
{
    if n < 10 { seq![digit_char(n)] } else { decimal(n / 10) + seq![digit_char(n % 10)] }
}

/// The value of a decimal digit character.
pub open spec fn digit_value(c: char) -> nat {
    if c == '1' { 1 } else if c == '2' { 2 } else if c == '3' { 3 } else if c == '4' { 4 } else if c == '5' { 5 }
    else if c == '6' { 6 } else if c == '7' { 7 } else if c == '8' { 8 } else if c == '9' { 9 } else { 0 }
}

/// The number that the decimal digits `s` write, most significant first.
pub open spec fn decimal_value(s: Seq<char>) -> nat
    decreases s.len(),
{
    if s.len() == 0 { 0 } else { decimal_value(s.drop_last()) * 10 + digit_value(s.last()) }
}

/// The decimal text of a number reads back as that number, has no leading zero (but for 0
/// itself), and is made of decimal digits.
pub proof fn lemma_decimal_laws(n: nat)
    ensures
        decimal_value(decimal(n)) == n,
        decimal(n).len() >= 1,
        decimal(n)[0] == '0' ==> n == 0,
        forall|k: int| 0 <= k < decimal(n).len() ==> '0' <= #[trigger] decimal(n)[k] <= '9',
    decreases n,
{
    assert(forall|k: nat| k < 10 ==> digit_value(#[trigger] digit_char(k)) == k);
    if n < 10 {
        assert(decimal(n).drop_last() =~= Seq::<char>::empty());
        assert(decimal_value(Seq::<char>::empty()) == 0);
        assert(digit_value(digit_char(n)) == n);
        assert(decimal_value(decimal(n)) == decimal_value(decimal(n).drop_last()) * 10 + digit_value(decimal(n).last()));
    } else {
        lemma_decimal_laws(n / 10);
        assert(n == (n / 10) * 10 + n % 10);
        let d = decimal(n);
        let h = decimal(n / 10);
        assert(d == h + seq![digit_char(n % 10)]);
        assert(d.drop_last() =~= h);
        assert(d.last() == digit_char(n % 10));
        assert(digit_value(digit_char((n % 10) as nat)) == n % 10);
        assert(decimal_value(d) == decimal_value(h) * 10 + digit_value(d.last()));
        assert(n / 10 >= 1);
        assert(d[0] == h[0]);
        assert forall|k: int| 0 <= k < d.len() implies '0' <= #[trigger] d[k] <= '9' by {
            if k < h.len() {
                assert(d[k] == h[k]);
            }
        }
    }
}

/// The text of the decimal digit `d`.
fn digit_text(d: usize) -> (t: &'static str)
    requires
        d < 10,
    ensures
        t@ == seq![digit_char(d as nat)],
{
        if d == 0 {
            proof { reveal_strlit("0"); assert("0"@ =~= seq!['0']); }
            "0"
        } else if d == 1 {
            proof { reveal_strlit("1"); assert("1"@ =~= seq!['1']); }
            "1"
        } else if d == 2 {
            proof { reveal_strlit("2"); assert("2"@ =~= seq!['2']); }
            "2"
        } else if d == 3 {
            proof { reveal_strlit("3"); assert("3"@ =~= seq!['3']); }
            "3"
        } else if d == 4 {
            proof { reveal_strlit("4"); assert("4"@ =~= seq!['4']); }
            "4"
        } else if d == 5 {
            proof { reveal_strlit("5"); assert("5"@ =~= seq!['5']); }
            "5"
        } else if d == 6 {
            proof { reveal_strlit("6"); assert("6"@ =~= seq!['6']); }
            "6"
        } else if d == 7 {
            proof { reveal_strlit("7"); assert("7"@ =~= seq!['7']); }
            "7"
        } else if d == 8 {
            proof { reveal_strlit("8"); assert("8"@ =~= seq!['8']); }
            "8"
    } else {
        proof { reveal_strlit("9"); assert("9"@ =~= seq!['9']); }
        "9"
    }
}

/// The decimal text of `n`, without leading zeros.
pub fn decimal_text(n: usize) -> (t: String)
    ensures
        t@ == decimal(n as nat),
    decreases n,
{
    if n < 10 {
        String::from_str(digit_text(n))
    } else {
        let mut t = decimal_text(n / 10);
        t.append(digit_text(n % 10));
        t
    }
}

/// The lifecycle of an engine: its execution state and its stop signal. The engine performs
/// the work (spawning, resetting and joining threads) that these decisions call for.
pub struct EngineLifecycle {
    state: ExecutionState,
    stop_signal: bool,
}

impl EngineLifecycle {
    /// A completed engine has its stop signal: it only completes by joining its threads,
    /// which sets the signal, and nothing clears it.
    #[verifier::type_invariant]
    spec fn stopped_when_completed(&self) -> bool {
        self.state == ExecutionState::Completed ==> self.stop_signal
    }

    /// The lifecycle of a new engine: uninitialized, no stop signal.
    pub fn new() -> (l: EngineLifecycle)
        ensures
            l.spec_state() == ExecutionState::Uninitialized,
            !l.spec_stop_signal(),
    {
        EngineLifecycle { state: ExecutionState::new(), stop_signal: false }
    }

    /// The execution state of the engine.
    pub closed spec fn spec_state(&self) -> ExecutionState {
        self.state
    }

    /// Whether the engine has received a stop signal.
    pub closed spec fn spec_stop_signal(&self) -> bool {
        self.stop_signal
    }

    /// The execution state of the engine. A completed engine has its stop signal, so that it
    /// cannot start again.
    pub fn state(&self) -> (s: ExecutionState)
        ensures
            s == self.spec_state(),
            s == ExecutionState::Completed ==> self.spec_stop_signal(),
    {
        proof {
            use_type_invariant(self);
        }
        self.state
    }

    /// Whether the engine has received a stop signal.
    pub fn stop_signal(&self) -> (b: bool)
        ensures
            b == self.spec_stop_signal(),
    {
        self.stop_signal
    }

    /// Whether the engine is terminating: ready or running with a stop signal.
    pub fn is_terminating(&self) -> (b: bool)
        ensures
            b == ((self.spec_state() == ExecutionState::Ready || self.spec_state() == ExecutionState::Running)
                && self.spec_stop_signal()),
    {
        match self.state {
            ExecutionState::Ready | ExecutionState::Running => self.stop_signal,
            _ => false,
        }
    }

    /// Whether the engine is ready to start: ready and not terminating.
    pub fn is_ready(&self) -> (b: bool)
        ensures
            b == (self.spec_state() == ExecutionState::Ready && !self.spec_stop_signal()),
    {
        self.state == ExecutionState::Ready && !self.is_terminating()
    }

    /// Whether the engine is running: running and not terminating.
    pub fn is_running(&self) -> (b: bool)
        ensures
            b == (self.spec_state() == ExecutionState::Running && !self.spec_stop_signal()),
    {
        self.state == ExecutionState::Running && !self.is_terminating()
    }

    /// Whether the engine is idle: not running, or no task waiting.
    pub fn idle(&self, waiting_tasks: usize) -> (b: bool)
        ensures
            b == (self.spec_state() != ExecutionState::Running || waiting_tasks == 0),
    {
        self.state != ExecutionState::Running || waiting_tasks == 0
    }

    /// Initialize: from Uninitialized or Terminated to Ready, after which the engine creates its
    /// threads; refused with `INVALID_OPERATION` from any other state.
    pub fn init(&mut self) -> (r: RtoResult<ExecutionState>)
        ensures
            (r is Ok) == (next_state(old(self).spec_state(), ExecutionTransition::Init) == ExecutionState::Ready),
            r is Ok ==> r == Ok::<ExecutionState, Error>(ExecutionState::Ready) && final(self).spec_state() == ExecutionState::Ready,
            r matches Err(e) ==> e.code == INVALID_OPERATION && final(self).spec_state() == old(self).spec_state()
                && e.message@ == "Cannot initialize engine from `"@ + state_name(old(self).spec_state()) + "` state"@,
            final(self).spec_stop_signal() == old(self).spec_stop_signal(),
    {
        match self.state.peek_state(ExecutionTransition::Init) {
            ExecutionState::Ready => {
                self.state = ExecutionState::Ready;
                Ok(ExecutionState::Ready)
            },
            _ => Err(Error::new(INVALID_OPERATION, state_message("Cannot initialize engine from `", self.state, "` state"))),
        }
    }

    /// Reset into the post-initialization state Ready; refused with `INVALID_OPERATION` when
    /// uninitialized or terminated. `Ok(true)` where the engine was running, so that the
    /// running tasks are to be waited for.
    pub fn reset(&mut self) -> (r: RtoResult<bool>)
        ensures
            (r is Ok) == (old(self).spec_state() != ExecutionState::Uninitialized && old(self).spec_state() != ExecutionState::Terminated),
            r is Ok ==> r == Ok::<bool, Error>(old(self).spec_state() == ExecutionState::Running)
                && final(self).spec_state() == ExecutionState::Ready,
            r matches Err(e) ==> e.code == INVALID_OPERATION && final(self).spec_state() == old(self).spec_state()
                && e.message@ == "Cannot reset a engine from `"@ + state_name(old(self).spec_state()) + "` state"@,
            final(self).spec_stop_signal() == old(self).spec_stop_signal(),
    {
        if self.state == ExecutionState::Uninitialized || self.state == ExecutionState::Terminated {
            return Err(Error::new(INVALID_OPERATION, state_message("Cannot reset a engine from `", self.state, "` state")));
        }
        let was_running = self.state == ExecutionState::Running;
        self.state = ExecutionState::Ready;
        Ok(was_running)
    }

    /// Whether starting has to initialize the engine first.
    pub fn needs_init(&self) -> (b: bool)
        ensures
            b == (self.spec_state() == ExecutionState::Uninitialized),
    {
        self.state == ExecutionState::Uninitialized
    }

    /// Whether the engine may start: refused with `INVALID_OPERATION` under a stop signal or
    /// outside Ready and Completed.
    pub fn check_start(&self) -> (r: RtoResult<()>)
        ensures
            (r is Ok) == (!self.spec_stop_signal()
                && next_state(self.spec_state(), ExecutionTransition::Start) == ExecutionState::Running),
            r matches Err(e) ==> e.code == INVALID_OPERATION && e.message@ == (if self.spec_stop_signal() {
                "Cannot start engine while stop signal is set"@
            } else {
                "Cannot start engine while in state `"@ + state_name(self.spec_state()) + "`"@
            }),
    {
        if self.stop_signal {
            return Err(Error::new(INVALID_OPERATION, String::from_str("Cannot start engine while stop signal is set")));
        }
        match self.state.peek_state(ExecutionTransition::Start) {
            ExecutionState::Running => Ok(()),
            _ => Err(Error::new(INVALID_OPERATION, state_message("Cannot start engine while in state `", self.state, "`"))),
        }
    }

    /// Enter Running, once the engine's threads run.
    pub fn set_running(&mut self) -> (s: ExecutionState)
        requires
            !old(self).spec_stop_signal(),
            next_state(old(self).spec_state(), ExecutionTransition::Start) == ExecutionState::Running,
        ensures
            s == ExecutionState::Running,
            final(self).spec_state() == ExecutionState::Running,
            final(self).spec_stop_signal() == old(self).spec_stop_signal(),
    {
        self.state = ExecutionState::Running;
        ExecutionState::Running
    }

    /// Set the stop signal; refused with `INVALID_OPERATION` unless ready or running.
    pub fn signal_stop(&mut self) -> (r: RtoResult<()>)
        ensures
            (r is Ok) == (old(self).spec_state() == ExecutionState::Ready || old(self).spec_state() == ExecutionState::Running),
            r is Ok ==> final(self).spec_stop_signal(),
            r is Err ==> final(self).spec_stop_signal() == old(self).spec_stop_signal(),
            r matches Err(e) ==> e.code == INVALID_OPERATION && e.message@ == "Cannot stop engine while not ready or running"@,
            final(self).spec_state() == old(self).spec_state(),
    {
        if self.state == ExecutionState::Ready || self.state == ExecutionState::Running {
            self.stop_signal = true;
            Ok(())
        } else {
            Err(Error::new(INVALID_OPERATION, String::from_str("Cannot stop engine while not ready or running")))
        }
    }

    /// The first step of joining the engine's threads: refused with `INVALID_OPERATION` when
    /// uninitialized or in an error state; nothing to join (`Ok(Some(state))`) when completed or
    /// terminated; otherwise the stop signal is set and the threads are to be joined (`Ok(None)`).
    pub fn begin_join(&mut self) -> (r: RtoResult<Option<ExecutionState>>)
        ensures
            old(self).spec_state() == ExecutionState::Uninitialized
                ==> (r matches Err(e) && e.code == INVALID_OPERATION && e.message@ == "Cannot join uninitialized engine"@),
            old(self).spec_state() is Error ==> (r matches Err(e) && e.code == INVALID_OPERATION
                && e.message@ == "Cannot join engine in state `"@ + state_name(old(self).spec_state()) + "`"@),
            old(self).spec_state() == ExecutionState::Completed || old(self).spec_state() == ExecutionState::Terminated
                ==> r == Ok::<Option<ExecutionState>, Error>(Some(old(self).spec_state())),
            old(self).spec_state() == ExecutionState::Ready || old(self).spec_state() == ExecutionState::Running
                ==> r == Ok::<Option<ExecutionState>, Error>(None) && final(self).spec_stop_signal(),
            final(self).spec_state() == old(self).spec_state(),
            old(self).spec_stop_signal() ==> final(self).spec_stop_signal(),
    {
        match self.state {
            ExecutionState::Uninitialized => {
                Err(Error::new(INVALID_OPERATION, String::from_str("Cannot join uninitialized engine")))
            },
            ExecutionState::Ready | ExecutionState::Running => {
                if !self.stop_signal {
                    let _ = self.signal_stop();
                }
                Ok(None)
            },
            ExecutionState::Completed | ExecutionState::Terminated => Ok(Some(self.state)),
            _ => Err(Error::new(INVALID_OPERATION, state_message("Cannot join engine in state `", self.state, "`"))),
        }
    }

    /// The last step of joining, after the first set the stop signal: the engine is Completed,
    /// with its stop signal; `errors` threads that failed to join make it fail with
    /// `THREAD_JOIN_ERROR`.
    pub fn end_join(&mut self, errors: usize) -> (r: RtoResult<ExecutionState>)
        ensures
            final(self).spec_state() == ExecutionState::Completed,
            final(self).spec_stop_signal(),
            errors == 0 ==> r == Ok::<ExecutionState, Error>(ExecutionState::Completed),
            errors > 0 ==> (r matches Err(e) && e.code == THREAD_JOIN_ERROR
                && e.message@ == decimal(errors as nat) + " threads failed to join"@),
    {
        self.stop_signal = true;
        self.state = ExecutionState::Completed;
        if errors > 0 {
            let mut message = decimal_text(errors);
            message.append(" threads failed to join");
            Err(Error::new(THREAD_JOIN_ERROR, message))
        } else {
            Ok(ExecutionState::Completed)
        }
    }

    /// Terminate after joining: a completed engine becomes Terminated.
    pub fn terminate(&mut self, joined: ExecutionState) -> (s: ExecutionState)
        ensures
            s == ExecutionState::Terminated,
            joined == ExecutionState::Completed ==> final(self).spec_state() == ExecutionState::Terminated,
            joined != ExecutionState::Completed ==> final(self).spec_state() == old(self).spec_state(),
            final(self).spec_stop_signal() == old(self).spec_stop_signal(),
    {
        if joined == ExecutionState::Completed {
            self.state = ExecutionState::Terminated;
        }
        ExecutionState::Terminated
    }
}

/// The count of failed joins after one more thread failed to join with error `code`: a thread
/// that reports a failed join itself counts twice, any other failure once; the count saturates.
pub fn count_join_failure(errors: usize, code: ErrorCode) -> (r: usize)
    ensures
        r == (if code == THREAD_JOIN_ERROR {
            if errors + 2 > usize::MAX { usize::MAX as int } else { errors + 2 }
        } else {
            if errors + 1 > usize::MAX { usize::MAX as int } else { errors + 1 }
        }),
{
    let r = errors.saturating_add(1);
    if code == THREAD_JOIN_ERROR { r.saturating_add(1) } else { r }
}

/// The states of an engine thread.
#[derive(Debug, Clone, Copy, PartialEq, Eq, Structural)]
pub enum ThreadState {
    Created,
    Ready,
    RunningIdle,
    RunningBusy,
    Stopping,
    Resetting,
    Terminated,
    Error,
}

impl ThreadState {
    /// The thread state for a number in atomic storage; unknown numbers are errors.
    pub open spec fn spec_of_code(value: u32) -> ThreadState {
        if value == 0 { ThreadState::Created }
        else if value == 1 { ThreadState::Ready }
        else if value == 2 { ThreadState::RunningIdle }
        else if value == 3 { ThreadState::RunningBusy }
        else if value == 4 { ThreadState::Stopping }
        else if value == 5 { ThreadState::Resetting }
        else if value == 6 { ThreadState::Terminated }
        else { ThreadState::Error }
    }

    /// The thread state for a number in atomic storage; unknown numbers are errors.
    pub fn from_u32(value: u32) -> (s: ThreadState)
        ensures
            s == Self::spec_of_code(value),
    {
        match value {
            0 => ThreadState::Created,
            1 => ThreadState::Ready,
            2 => ThreadState::RunningIdle,
            3 => ThreadState::RunningBusy,
            4 => ThreadState::Stopping,
            5 => ThreadState::Resetting,
            6 => ThreadState::Terminated,
            _ => ThreadState::Error,
        }
    }

    /// The number for this thread state in atomic storage.
    pub fn into_u32(self) -> (n: u32)
        ensures
            Self::spec_of_code(n) == self,
    {
        match self {
            ThreadState::Created => 0,
            ThreadState::Ready => 1,
            ThreadState::RunningIdle => 2,
            ThreadState::RunningBusy => 3,
            ThreadState::Stopping => 4,
            ThreadState::Resetting => 5,
            ThreadState::Terminated => 6,
            ThreadState::Error => 7,
        }
    }
}

/// What an engine thread does in one round of its run loop.
#[derive(Debug, Clone, Copy, PartialEq, Eq, Structural)]
pub enum ThreadStep {
    /// Wait (yield) for the engine to run.
    Idle,
    /// Serve tasks until a stop or reset signal.
    Serve,
    /// Clear the reset signal and become Ready again.
    Reset,
    /// Leave the run loop.
    Exit,
}

/// One round of an engine thread's run loop: the stop signal wins over the reset signal;
/// a ready thread serves once the engine runs and idles until then; a thread in a state that
/// its run loop never leaves it in turns into an error and exits.
pub fn thread_step(state: ThreadState, stop_signal: bool, reset_signal: bool, engine_running: bool) -> (r: (ThreadState, ThreadStep))
    ensures
        stop_signal ==> r == (ThreadState::Stopping, ThreadStep::Exit),
        !stop_signal && reset_signal ==> r == (ThreadState::Ready, ThreadStep::Reset),
        !stop_signal && !reset_signal && state == ThreadState::Ready ==>
            r == (if engine_running { (ThreadState::RunningIdle, ThreadStep::Serve) } else { (ThreadState::Ready, ThreadStep::Idle) }),
        !stop_signal && !reset_signal && state == ThreadState::RunningIdle ==> r == (ThreadState::RunningIdle, ThreadStep::Serve),
        !stop_signal && !reset_signal && state == ThreadState::Stopping ==> r == (ThreadState::Stopping, ThreadStep::Exit),
        !stop_signal && !reset_signal && state == ThreadState::Resetting ==> r == (ThreadState::Ready, ThreadStep::Reset),
        !stop_signal && !reset_signal && (state == ThreadState::Created || state == ThreadState::RunningBusy
            || state == ThreadState::Terminated || state == ThreadState::Error) ==> r == (ThreadState::Error, ThreadStep::Exit),
{
    let state = if stop_signal {
        ThreadState::Stopping
    } else if reset_signal {
        ThreadState::Resetting
    } else {
        state
    };
    match state {
        ThreadState::Ready => {
            if engine_running {
                (ThreadState::RunningIdle, ThreadStep::Serve)
            } else {
                (ThreadState::Ready, ThreadStep::Idle)
            }
        },
        ThreadState::RunningIdle => (ThreadState::RunningIdle, ThreadStep::Serve),
        ThreadState::Stopping => (ThreadState::Stopping, ThreadStep::Exit),
        ThreadState::Resetting => (ThreadState::Ready, ThreadStep::Reset),
        _ => (ThreadState::Error, ThreadStep::Exit),
    }
}

} // verus!
