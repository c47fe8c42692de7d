//! Recovery from errors: which strategy each error gets, the attempt plans
//! of the strategies and the state machines that run them, and the context
//! attached to an error for reporting.

use crate::error::{
    error_severity, error_text, user_message_text, ErrorSeverity, NimbusError,
};
use crate::text::concat2;
use std::time::SystemTime;
use vstd::prelude::*;

verus! {

/// How an error is recovered from.
#[derive(Debug, Clone, Copy, PartialEq, Eq, Structural)]
pub enum StrategyKind {
    /// Retry with exponential backoff.
    Retry,
    /// Try the operation again after a pause, as an alternative path.
    Fallback,
    /// Continue with reduced functionality.
    Degrade,
    /// Give up at once.
    Fail,
}

/// The strategy an error gets: recoverable connection, AWS and session
/// errors are retried; configuration errors fall back; resource and UI
/// errors degrade; everything else fails.
pub open spec fn strategy_for(e: NimbusError) -> StrategyKind {
    match e {
        NimbusError::Connection(_) if crate::error::recoverable(e) => StrategyKind::Retry,
        NimbusError::Aws(_) if crate::error::recoverable(e) => StrategyKind::Retry,
        NimbusError::Session(_) if crate::error::recoverable(e) => StrategyKind::Retry,
        NimbusError::Config(_) => StrategyKind::Fallback,
        NimbusError::Resource(_) => StrategyKind::Degrade,
        NimbusError::Ui(_) => StrategyKind::Degrade,
        _ => StrategyKind::Fail,
    }
}

/// The strategy for an error (the choice `ErrorRecoveryManager::get_strategy`
/// makes).
pub fn strategy_kind(e: &NimbusError) -> (k: StrategyKind)
    ensures
        k == strategy_for(*e),
{
    match e {
        NimbusError::Connection(_) => {
            if e.is_recoverable() {
                StrategyKind::Retry
            } else {
                StrategyKind::Fail
            }
        },
        NimbusError::Aws(_) => {
            if e.is_recoverable() {
                StrategyKind::Retry
            } else {
                StrategyKind::Fail
            }
        },
        NimbusError::Session(_) => {
            if e.is_recoverable() {
                StrategyKind::Retry
            } else {
                StrategyKind::Fail
            }
        },
        NimbusError::Config(_) => StrategyKind::Fallback,
        NimbusError::Resource(_) => StrategyKind::Degrade,
        NimbusError::Ui(_) => StrategyKind::Degrade,
        _ => StrategyKind::Fail,
    }
}

/// A plan of plain attempts: a first pause, then up to `attempts` runs of
/// the operation with `between_ms` between two runs.
#[derive(Debug, Clone, Copy, PartialEq, Eq, Structural)]
pub struct AttemptPlan {
    pub initial_delay_ms: u64,
    pub attempts: u32,
    pub between_ms: u64,
}

/// The fallback plan: configuration errors wait 100 ms, others 500 ms; two
/// attempts, 200 ms apart.
pub open spec fn fallback_plan_for(e: NimbusError) -> AttemptPlan {
    match e {
        NimbusError::Config(_) => AttemptPlan { initial_delay_ms: 100, attempts: 2, between_ms: 200 },
        _ => AttemptPlan { initial_delay_ms: 500, attempts: 2, between_ms: 200 },
    }
}

/// The degradation plan: resource errors wait a second and try twice; UI and
/// VS Code errors wait 100 ms and try once; others wait a second and try
/// twice; attempts are 200 ms apart.
pub open spec fn degradation_plan_for(e: NimbusError) -> AttemptPlan {
    match e {
        NimbusError::Resource(_) => AttemptPlan { initial_delay_ms: 1000, attempts: 2, between_ms: 200 },
        NimbusError::Ui(_) => AttemptPlan { initial_delay_ms: 100, attempts: 1, between_ms: 200 },
        NimbusError::VsCode(_) => AttemptPlan { initial_delay_ms: 100, attempts: 1, between_ms: 200 },
        _ => AttemptPlan { initial_delay_ms: 1000, attempts: 2, between_ms: 200 },
    }
}

/// The fallback plan for an error.
pub fn fallback_plan(e: &NimbusError) -> (p: AttemptPlan)
    ensures
        p == fallback_plan_for(*e),
{
    match e {
        NimbusError::Config(_) => AttemptPlan { initial_delay_ms: 100, attempts: 2, between_ms: 200 },
        _ => AttemptPlan { initial_delay_ms: 500, attempts: 2, between_ms: 200 },
    }
}

/// The degradation plan for an error.
pub fn degradation_plan(e: &NimbusError) -> (p: AttemptPlan)
    ensures
        p == degradation_plan_for(*e),
{
    match e {
        NimbusError::Resource(_) => AttemptPlan { initial_delay_ms: 1000, attempts: 2, between_ms: 200 },
        NimbusError::Ui(_) => AttemptPlan { initial_delay_ms: 100, attempts: 1, between_ms: 200 },
        NimbusError::VsCode(_) => AttemptPlan { initial_delay_ms: 100, attempts: 1, between_ms: 200 },
        _ => AttemptPlan { initial_delay_ms: 1000, attempts: 2, between_ms: 200 },
    }
}

/// What the runner of a recovery is told.
#[derive(Debug, Clone, Copy, PartialEq, Eq, Structural)]
pub enum RecoveryEvent {
    /// The pause that was asked for is over.
    Slept,
    /// The operation succeeded.
    OperationSucceeded,
    /// The operation failed.
    OperationFailed,
}

/// What the runner of a recovery does next.
#[derive(Debug, Clone, Copy, PartialEq, Eq, Structural)]
pub enum RecoveryAction {
    /// Pause for the given milliseconds.
    Sleep(u64),
    /// Run the operation once.
    RunOperation,
    /// Return the operation's success.
    ReturnSuccess,
    /// Return the error that started the recovery.
    ReturnOriginalError,
}

/// A recovery by plain attempts (fallback or degradation) in progress.
#[derive(Debug, Clone, Copy, PartialEq, Eq, Structural)]
pub struct AttemptRun {
    pub plan: AttemptPlan,
    /// Runs of the operation so far.
    pub runs: u32,
    /// Whether a run of the operation is due (after a pause).
    pub run_due: bool,
    /// Whether the recovery has ended.
    pub finished: bool,
}

/// The next state and action of an attempt run on an event.
pub open spec fn attempt_step(s: AttemptRun, ev: RecoveryEvent) -> (AttemptRun, RecoveryAction) {
    if s.finished {
        (s, RecoveryAction::ReturnOriginalError)
    } else {
        match ev {
            RecoveryEvent::Slept => (AttemptRun { run_due: false, runs: (s.runs + 1) as u32, ..s }, RecoveryAction::RunOperation),
            RecoveryEvent::OperationSucceeded => (AttemptRun { finished: true, ..s }, RecoveryAction::ReturnSuccess),
            RecoveryEvent::OperationFailed => if s.runs < s.plan.attempts {
                (AttemptRun { run_due: true, ..s }, RecoveryAction::Sleep(s.plan.between_ms))
            } else {
                (AttemptRun { finished: true, ..s }, RecoveryAction::ReturnOriginalError)
            },
        }
    }
}

impl AttemptRun {
    /// Starts a run of the plan: the first action is the initial pause.
    pub fn start(plan: AttemptPlan) -> (r: (AttemptRun, RecoveryAction))
        ensures
            r.0 == (AttemptRun { plan: plan, runs: 0, run_due: true, finished: false }),
            r.1 == RecoveryAction::Sleep(plan.initial_delay_ms),
    {
        (AttemptRun { plan, runs: 0, run_due: true, finished: false }, RecoveryAction::Sleep(
            plan.initial_delay_ms,
        ))
    }

    /// Advances the run on an event. A success ends the run with success; a
    /// failure is followed by a pause and another run while runs remain,
    /// and ends with the original error once they are spent.
    pub fn step(&mut self, ev: RecoveryEvent) -> (a: RecoveryAction)
        requires
            old(self).runs < u32::MAX,
        ensures
            (*final(self), a) == attempt_step(*old(self), ev),
    {
        if self.finished {
            return RecoveryAction::ReturnOriginalError;
        }
        match ev {
            RecoveryEvent::Slept => {
                self.run_due = false;
                self.runs = self.runs + 1;
                RecoveryAction::RunOperation
            },
            RecoveryEvent::OperationSucceeded => {
                self.finished = true;
                RecoveryAction::ReturnSuccess
            },
            RecoveryEvent::OperationFailed => {
                if self.runs < self.plan.attempts {
                    self.run_due = true;
                    RecoveryAction::Sleep(self.plan.between_ms)
                } else {
                    self.finished = true;
                    RecoveryAction::ReturnOriginalError
                }
            },
        }
    }
}

/// A retry with backoff in progress.
#[derive(Debug, Clone, Copy, PartialEq, Eq, Structural)]
pub struct RetryRun {
    pub max_attempts: u32,
    /// Runs of the operation so far.
    pub attempt: u32,
    /// Whether the retry has ended.
    pub finished: bool,
}

/// What the runner of a retry is told.
#[derive(Debug, Clone, Copy, PartialEq, Eq, Structural)]
pub enum RetryEvent {
    /// A run is due; `timed_out` says whether the time allowed has passed.
    ReadyToRun { timed_out: bool },
    /// The operation succeeded.
    OperationSucceeded,
    /// The operation failed.
    OperationFailed,
}

/// What the runner of a retry does next.
#[derive(Debug, Clone, Copy, PartialEq, Eq, Structural)]
pub enum RetryAction {
    /// Run the operation once.
    RunOperation,
    /// Pause for the current backoff delay, then report `ReadyToRun`.
    Backoff,
    /// Return the operation's success.
    ReturnSuccess,
    /// Return the error of the last run.
    ReturnLastError,
    /// Return the error saying that the time allowed has passed.
    ReturnTimeout,
}

/// The next state and action of a retry on an event.
pub open spec fn retry_step(s: RetryRun, ev: RetryEvent) -> (RetryRun, RetryAction) {
    if s.finished {
        (s, RetryAction::ReturnLastError)
    } else {
        match ev {
            RetryEvent::ReadyToRun { timed_out } => if timed_out {
                (RetryRun { finished: true, ..s }, RetryAction::ReturnTimeout)
            } else {
                (RetryRun { attempt: (s.attempt + 1) as u32, ..s }, RetryAction::RunOperation)
            },
            RetryEvent::OperationSucceeded => (RetryRun { finished: true, ..s }, RetryAction::ReturnSuccess),
            RetryEvent::OperationFailed => if s.attempt >= s.max_attempts {
                (RetryRun { finished: true, ..s }, RetryAction::ReturnLastError)
            } else {
                (s, RetryAction::Backoff)
            },
        }
    }
}

impl RetryRun {
    /// Starts a retry of at most `max_attempts` runs.
    pub fn new(max_attempts: u32) -> (r: RetryRun)
        requires
            max_attempts >= 1,
        ensures
            r == (RetryRun { max_attempts: max_attempts, attempt: 0, finished: false }),
    {
        RetryRun { max_attempts, attempt: 0, finished: false }
    }

    /// Advances the retry on an event. Before each run the time allowed is
    /// checked; a success ends the retry; a failure on the last allowed run
    /// ends it with that failure; any other failure is followed by a
    /// backoff pause.
    pub fn step(&mut self, ev: RetryEvent) -> (a: RetryAction)
        requires
            old(self).attempt < u32::MAX,
        ensures
            (*final(self), a) == retry_step(*old(self), ev),
    {
        if self.finished {
            return RetryAction::ReturnLastError;
        }
        match ev {
            RetryEvent::ReadyToRun { timed_out } => {
                if timed_out {
                    self.finished = true;
                    RetryAction::ReturnTimeout
                } else {
                    self.attempt = self.attempt + 1;
                    RetryAction::RunOperation
                }
            },
            RetryEvent::OperationSucceeded => {
                self.finished = true;
                RetryAction::ReturnSuccess
            },
            RetryEvent::OperationFailed => {
                if self.attempt >= self.max_attempts {
                    self.finished = true;
                    RetryAction::ReturnLastError
                } else {
                    RetryAction::Backoff
                }
            },
        }
    }
}

/// Law: a retry never runs the operation more than `max_attempts` times:
/// from a state within the limit, every step keeps the count of runs within
/// it, and a run is only started while the count is below the limit.
pub proof fn lemma_retry_respects_max_attempts(s: RetryRun, ev: RetryEvent)
    requires
        s.attempt <= s.max_attempts,
        !s.finished ==> (s.attempt < s.max_attempts || ev != (RetryEvent::ReadyToRun {
            timed_out: false,
        })),
    ensures
        retry_step(s, ev).0.attempt <= s.max_attempts,
        retry_step(s, ev).1 == RetryAction::RunOperation ==> s.attempt < s.max_attempts,
{
}

/// Law: after a failed run the retry either pauses or ends, and it ends
/// with the failure exactly when the run was the last one allowed.
pub proof fn lemma_retry_failure_outcome(s: RetryRun)
    requires
        !s.finished,
    ensures
        retry_step(s, RetryEvent::OperationFailed).1 == RetryAction::ReturnLastError <==> s.attempt
            >= s.max_attempts,
        retry_step(s, RetryEvent::OperationFailed).1 == RetryAction::Backoff <==> s.attempt
            < s.max_attempts,
{
}

/// Whether a runner may hand the retry `ev` after its last action `last`
/// (`None` before the first step): a run is due at the start and after a
/// backoff, the outcome of a run follows the run, and nothing follows an
/// action that ends the retry.
pub open spec fn retry_event_expected(last: Option<RetryAction>, ev: RetryEvent) -> bool {
    match last {
        None => ev is ReadyToRun,
        Some(RetryAction::Backoff) => ev is ReadyToRun,
        Some(RetryAction::RunOperation) => !(ev is ReadyToRun),
        Some(_) => false,
    }
}

/// The state and last action after feeding the retry `evs` in order.
pub open spec fn retry_trace(s: RetryRun, last: Option<RetryAction>, evs: Seq<RetryEvent>) -> (
    RetryRun,
    Option<RetryAction>,
)
    decreases evs.len(),
{
    if evs.len() == 0 {
        (s, last)
    } else {
        let (s1, a) = retry_step(s, evs[0]);
        retry_trace(s1, Some(a), evs.drop_first())
    }
}

/// Whether every event of `evs` is one the runner may hand the retry at
/// that point.
pub open spec fn retry_trace_expected(s: RetryRun, last: Option<RetryAction>, evs: Seq<RetryEvent>) -> bool
    decreases evs.len(),
{
    if evs.len() == 0 {
        true
    } else {
        let (s1, a) = retry_step(s, evs[0]);
        retry_event_expected(last, evs[0]) && retry_trace_expected(s1, Some(a), evs.drop_first())
    }
}

/// What holds of a retry between steps, by its last action.
pub open spec fn retry_between_steps(s: RetryRun, last: Option<RetryAction>) -> bool {
    &&& 1 <= s.max_attempts
    &&& s.attempt <= s.max_attempts
    &&& match last {
        None => s.attempt == 0 && !s.finished,
        Some(RetryAction::Backoff) => s.attempt < s.max_attempts && !s.finished,
        Some(RetryAction::RunOperation) => 1 <= s.attempt && !s.finished,
        Some(RetryAction::ReturnLastError) => s.finished && s.attempt == s.max_attempts,
        Some(_) => s.finished,
    }
}

proof fn lemma_retry_between_steps_kept(s: RetryRun, last: Option<RetryAction>, evs: Seq<RetryEvent>)
    requires
        retry_between_steps(s, last),
        retry_trace_expected(s, last, evs),
    ensures
        retry_between_steps(retry_trace(s, last, evs).0, retry_trace(s, last, evs).1),
    decreases evs.len(),
{
    if evs.len() > 0 {
        let (s1, a) = retry_step(s, evs[0]);
        lemma_retry_between_steps_kept(s1, Some(a), evs.drop_first());
    }
}

/// Law: over any run of a retry started by `new(max_attempts)` and fed the
/// events its runner may hand it, the operation is run at most
/// `max_attempts` times, the retry returns the last error only after all
/// `max_attempts` runs have failed, and the run count and the retry's end
/// follow its last action.
pub proof fn lemma_retry_whole_run(max_attempts: u32, evs: Seq<RetryEvent>)
    requires
        max_attempts >= 1,
        retry_trace_expected(
            RetryRun { max_attempts: max_attempts, attempt: 0, finished: false },
            None,
            evs,
        ),
    ensures
        ({
            let (s, last) = retry_trace(
                RetryRun { max_attempts: max_attempts, attempt: 0, finished: false },
                None,
                evs,
            );
            &&& s.max_attempts == max_attempts
            &&& s.attempt <= max_attempts
            &&& last == Some(RetryAction::ReturnLastError) ==> s.attempt == max_attempts
            &&& last == Some(RetryAction::Backoff) ==> s.attempt < max_attempts
            &&& (s.finished <==> (last == Some(RetryAction::ReturnSuccess) || last == Some(
                RetryAction::ReturnLastError,
            ) || last == Some(RetryAction::ReturnTimeout)))
        }),
{
    let s0 = RetryRun { max_attempts: max_attempts, attempt: 0, finished: false };
    lemma_retry_between_steps_kept(s0, None, evs);
    lemma_retry_trace_keeps_max(s0, None, evs);
}

proof fn lemma_retry_trace_keeps_max(s: RetryRun, last: Option<RetryAction>, evs: Seq<RetryEvent>)
    ensures
        retry_trace(s, last, evs).0.max_attempts == s.max_attempts,
    decreases evs.len(),
{
    if evs.len() > 0 {
        let (s1, a) = retry_step(s, evs[0]);
        lemma_retry_trace_keeps_max(s1, Some(a), evs.drop_first());
    }
}

/// Law: a plain-attempt recovery never reports an error other than the one
/// it started from, and a success is always passed on.
pub proof fn lemma_attempt_run_outcomes(s: AttemptRun, ev: RecoveryEvent)
    requires
        !s.finished,
    ensures
        ev == RecoveryEvent::OperationSucceeded ==> attempt_step(s, ev).1
            == RecoveryAction::ReturnSuccess,
        ev == RecoveryEvent::OperationFailed ==> (attempt_step(s, ev).1
            == RecoveryAction::ReturnOriginalError <==> s.runs >= s.plan.attempts),
{
}

/// `std::time::SystemTime`, carried as an opaque value.
#[verifier::external_type_specification]
#[verifier::external_body]
pub struct ExSystemTime(SystemTime);

/// Cloning a `SystemTime` copies it (it is `Copy`).
pub assume_specification[ <SystemTime as Clone>::clone ](t: &SystemTime) -> (r: SystemTime)
    ensures
        r == *t,
;

/// What the `Debug` formatting of a `SystemTime` writes.
pub uninterp spec fn system_time_debug_text(t: SystemTime) -> Seq<char>;

/// What the `Debug` formatting of a string writes (the text quoted, with
/// escapes).
pub uninterp spec fn str_debug_text(s: Seq<char>) -> Seq<char>;

/// The current time (`SystemTime::now`); nothing is known of its value.
#[verifier::external_body]
fn system_now() -> (t: SystemTime) {
    SystemTime::now()
}

/// `Debug` formatting of a `SystemTime`; named by `system_time_debug_text`.
#[verifier::external_body]
fn system_time_debug(t: &SystemTime) -> (s: String)
    ensures
        s@ == system_time_debug_text(*t),
{
    format!("{:?}", t)
}

/// `Debug` formatting of a string; named by `str_debug_text`.
#[verifier::external_body]
fn str_debug(s: &str) -> (r: String)
    ensures
        r@ == str_debug_text(s@),
{
    format!("{:?}", s)
}

/// Extra key/value information on an error, one value per key, in the order
/// the keys were first given.
#[derive(Debug)]
pub struct InfoMap {
    entries: Vec<(String, String)>,
}

/// The keys of a list of entries are distinct.
pub open spec fn keys_distinct(s: Seq<(Seq<char>, Seq<char>)>) -> bool {
    forall|i: int, j: int| 0 <= i < j < s.len() ==> s[i].0 != s[j].0
}

/// The value stored for `k`.
pub open spec fn lookup(s: Seq<(Seq<char>, Seq<char>)>, k: Seq<char>) -> Option<Seq<char>> {
    if exists|i: int| 0 <= i < s.len() && #[trigger] s[i].0 == k {
        let i = choose|i: int| 0 <= i < s.len() && #[trigger] s[i].0 == k;
        Some(s[i].1)
    } else {
        None
    }
}

/// The entries after setting `k` to `v`: an existing entry of `k` takes the
/// new value in place, otherwise the entry is added at the end.
pub open spec fn set_entry(s: Seq<(Seq<char>, Seq<char>)>, k: Seq<char>, v: Seq<char>) -> Seq<
    (Seq<char>, Seq<char>),
> {
    if exists|i: int| 0 <= i < s.len() && #[trigger] s[i].0 == k {
        let i = choose|i: int| 0 <= i < s.len() && #[trigger] s[i].0 == k;
        s.update(i, (k, v))
    } else {
        s.push((k, v))
    }
}

/// The views of a list of string pairs.
pub open spec fn entries_view(v: Seq<(String, String)>) -> Seq<(Seq<char>, Seq<char>)> {
    v.map_values(|e: (String, String)| (e.0@, e.1@))
}

impl View for InfoMap {
    type V = Seq<(Seq<char>, Seq<char>)>;

    closed spec fn view(&self) -> Seq<(Seq<char>, Seq<char>)> {
        entries_view(self.entries@)
    }
}

impl Clone for InfoMap {
    fn clone(&self) -> (r: Self)
        ensures
            r@ == self@,
    {
        proof {
            use_type_invariant(self);
        }
        let mut entries: Vec<(String, String)> = Vec::new();
        let mut i: usize = 0;
        while i < self.entries.len()
            invariant
                i <= self.entries.len(),
                keys_distinct(entries_view(self.entries@)),
                entries_view(entries@) == entries_view(self.entries@).subrange(0, i as int),
            decreases self.entries.len() - i,
        {
            let k = self.entries[i].0.clone();
            let v = self.entries[i].1.clone();
            let ghost old_e = entries@;
            entries.push((k, v));
            proof {
                assert(entries_view(entries@) =~= entries_view(old_e).push(
                    entries_view(self.entries@)[i as int],
                ));
                assert(entries_view(self.entries@).subrange(0, i + 1) =~= entries_view(
                    self.entries@,
                ).subrange(0, i as int).push(entries_view(self.entries@)[i as int]));
            }
            i = i + 1;
        }
        assert(entries_view(self.entries@).subrange(0, self.entries.len() as int) =~= entries_view(
            self.entries@,
        ));
        InfoMap { entries }
    }
}

impl InfoMap {
    #[verifier::type_invariant]
    closed spec fn distinct(self) -> bool {
        keys_distinct(entries_view(self.entries@))
    }

    /// No entries.
    pub fn new() -> (m: InfoMap)
        ensures
            m@ == Seq::<(Seq<char>, Seq<char>)>::empty(),
    {
        let m = InfoMap { entries: Vec::new() };
        assert(entries_view(m.entries@) =~= Seq::empty());
        m
    }

    /// The number of entries.
    pub fn len(&self) -> (n: usize)
        ensures
            n == self@.len(),
    {
        self.entries.len()
    }

    fn position(&self, key: &str) -> (r: Option<usize>)
        ensures
            match r {
                Some(i) => i < self@.len() && self@[i as int].0 == key@,
                None => forall|i: int| 0 <= i < self@.len() ==> #[trigger] self@[i].0 != key@,
            },
    {
        let mut i: usize = 0;
        while i < self.entries.len()
            invariant
                i <= self.entries.len(),
                self@ == entries_view(self.entries@),
                forall|j: int| 0 <= j < i ==> #[trigger] self@[j].0 != key@,
            decreases self.entries.len() - i,
        {
            if crate::text::str_eq(self.entries[i].0.as_str(), key) {
                return Some(i);
            }
            i = i + 1;
        }
        None
    }

    /// The value stored for a key.
    pub fn get(&self, key: &str) -> (r: Option<String>)
        ensures
            match r {
                Some(v) => lookup(self@, key@) == Some(v@),
                None => lookup(self@, key@) is None,
            },
    {
        proof {
            use_type_invariant(self);
        }
        match self.position(key) {
            Some(i) => {
                proof {
                    let k = key@;
                    let c = choose|j: int| 0 <= j < self@.len() && #[trigger] self@[j].0 == k;
                    assert(c == i as int);
                }
                Some(self.entries[i].1.clone())
            },
            None => None,
        }
    }

    /// Sets the value of a key.
    pub fn insert(&mut self, key: String, value: String)
        ensures
            final(self)@ == set_entry(old(self)@, key@, value@),
    {
        proof {
            use_type_invariant(&*self);
        }
        let ghost before = self@;
        assert(keys_distinct(before));
        match self.position(key.as_str()) {
            Some(i) => {
                proof {
                    let c = choose|j: int| 0 <= j < before.len() && #[trigger] before[j].0 == key@;
                    assert(c == i as int);
                }
                let ghost kv = (key@, value@);
                let mut entries: Vec<(String, String)> = Vec::new();
                std::mem::swap(&mut entries, &mut self.entries);
                entries.set(i, (key, value));
                proof {
                    assert(entries_view(entries@) =~= before.update(i as int, kv));
                    lemma_set_entry_read_back(before, kv.0, kv.1, kv.0);
                }
                self.entries = entries;
            },
            None => {
                let ghost kv = (key@, value@);
                let mut entries: Vec<(String, String)> = Vec::new();
                std::mem::swap(&mut entries, &mut self.entries);
                entries.push((key, value));
                proof {
                    assert(entries_view(entries@) =~= before.push(kv));
                    lemma_set_entry_read_back(before, kv.0, kv.1, kv.0);
                }
                self.entries = entries;
            },
        }
    }
}

/// Law: after setting a key, reading it gives the new value and reading any
/// other key gives what it gave before; the keys stay distinct.
pub proof fn lemma_set_entry_read_back(
    s: Seq<(Seq<char>, Seq<char>)>,
    k: Seq<char>,
    v: Seq<char>,
    other: Seq<char>,
)
    requires
        keys_distinct(s),
    ensures
        lookup(set_entry(s, k, v), k) == Some(v),
        other != k ==> lookup(set_entry(s, k, v), other) == lookup(s, other),
        keys_distinct(set_entry(s, k, v)),
{
    let t = set_entry(s, k, v);
    if exists|i: int| 0 <= i < s.len() && #[trigger] s[i].0 == k {
        let i = choose|i: int| 0 <= i < s.len() && #[trigger] s[i].0 == k;
        assert(t[i].0 == k);
        assert(keys_distinct(t));
        let c = choose|j: int| 0 <= j < t.len() && #[trigger] t[j].0 == k;
        assert(c == i);
        if other != k {
            if exists|j: int| 0 <= j < s.len() && #[trigger] s[j].0 == other {
                let j = choose|j: int| 0 <= j < s.len() && #[trigger] s[j].0 == other;
                assert(t[j].0 == other);
                let d = choose|j: int| 0 <= j < t.len() && #[trigger] t[j].0 == other;
                assert(d == j);
            } else {
                assert forall|j: int| 0 <= j < t.len() implies #[trigger] t[j].0 != other by {
                    if j != i {
                        assert(t[j] == s[j]);
                    }
                }
            }
        }
    } else {
        let n = s.len() as int;
        assert(t[n].0 == k);
        assert(keys_distinct(t));
        let c = choose|j: int| 0 <= j < t.len() && #[trigger] t[j].0 == k;
        assert(c == n);
        if other != k {
            if exists|j: int| 0 <= j < s.len() && #[trigger] s[j].0 == other {
                let j = choose|j: int| 0 <= j < s.len() && #[trigger] s[j].0 == other;
                assert(t[j].0 == other);
                let d = choose|j: int| 0 <= j < t.len() && #[trigger] t[j].0 == other;
                assert(d == j);
            } else {
                assert forall|j: int| 0 <= j < t.len() implies #[trigger] t[j].0 != other by {
                    if j < n {
                        assert(t[j] == s[j]);
                    }
                }
            }
        }
    }
}

/// Where and in what an error happened.
#[derive(Debug, Clone)]
pub struct ErrorContext {
    pub operation: String,
    pub component: String,
    pub session_id: Option<String>,
    pub instance_id: Option<String>,
    pub timestamp: SystemTime,
    pub additional_info: InfoMap,
}

/// The view of an optional string.
pub open spec fn opt_text(o: Option<String>) -> Option<Seq<char>> {
    match o {
        Some(s) => Some(s@),
        None => None,
    }
}

impl ErrorContext {
    /// A context for an operation of a component, stamped with the current
    /// time, without session, instance or extra information.
    pub fn new(operation: &str, component: &str) -> (c: Self)
        ensures
            c.operation@ == operation@,
            c.component@ == component@,
            c.session_id is None,
            c.instance_id is None,
            c.additional_info@ == Seq::<(Seq<char>, Seq<char>)>::empty(),
    {
        ErrorContext {
            operation: String::from_str(operation),
            component: String::from_str(component),
            session_id: None,
            instance_id: None,
            timestamp: system_now(),
            additional_info: InfoMap::new(),
        }
    }

    /// The same context with a session.
    pub fn with_session_id(self, session_id: &str) -> (c: Self)
        ensures
            c.operation == self.operation,
            c.component == self.component,
            opt_text(c.session_id) == Some(session_id@),
            c.instance_id == self.instance_id,
            c.timestamp == self.timestamp,
            c.additional_info@ == self.additional_info@,
    {
        ErrorContext { session_id: Some(String::from_str(session_id)), ..self }
    }

    /// The same context with an instance.
    pub fn with_instance_id(self, instance_id: &str) -> (c: Self)
        ensures
            c.operation == self.operation,
            c.component == self.component,
            c.session_id == self.session_id,
            opt_text(c.instance_id) == Some(instance_id@),
            c.timestamp == self.timestamp,
            c.additional_info@ == self.additional_info@,
    {
        ErrorContext { instance_id: Some(String::from_str(instance_id)), ..self }
    }

    /// The same context with `key` set to `value` in the extra information.
    pub fn with_info(self, key: &str, value: &str) -> (c: Self)
        ensures
            c.operation == self.operation,
            c.component == self.component,
            c.session_id == self.session_id,
            c.instance_id == self.instance_id,
            c.timestamp == self.timestamp,
            c.additional_info@ == set_entry(self.additional_info@, key@, value@),
    {
        let mut c = self;
        c.additional_info.insert(String::from_str(key), String::from_str(value));
        c
    }
}

/// An error with its context.
#[derive(Debug)]
pub struct ContextualError {
    pub error: NimbusError,
    pub context: ErrorContext,
}

/// The text of one extra-information entry: key and value, each as `Debug`
/// writes a string, separated by `": "`.
pub open spec fn entry_text(e: (Seq<char>, Seq<char>)) -> Seq<char> {
    str_debug_text(e.0) + ": "@ + str_debug_text(e.1)
}

/// The entries' texts separated by `", "`.
pub open spec fn entries_text(s: Seq<(Seq<char>, Seq<char>)>) -> Seq<char>
    decreases s.len(),
{
    if s.len() == 0 {
        Seq::empty()
    } else if s.len() == 1 {
        entry_text(s[0])
    } else {
        entries_text(s.drop_last()) + ", "@ + entry_text(s.last())
    }
}

/// The extra information as a map's `Debug` writes it, entries in the order
/// their keys were first given.
pub open spec fn info_text(s: Seq<(Seq<char>, Seq<char>)>) -> Seq<char> {
    "{"@ + entries_text(s) + "}"@
}

/// A present text, or `"N/A"`.
pub open spec fn or_na(o: Option<String>) -> Seq<char> {
    match o {
        Some(s) => s@,
        None => "N/A"@,
    }
}

/// The detailed description of an error in its context.
pub open spec fn detailed_info_text(e: ContextualError) -> Seq<char> {
    "Error in "@ + e.context.component@ + "."@ + e.context.operation@ + ": "@ + error_text(e.error)
        + " | Session: "@ + or_na(e.context.session_id) + " | Instance: "@ + or_na(
        e.context.instance_id,
    ) + " | Time: "@ + system_time_debug_text(e.context.timestamp) + " | Additional: "@
        + info_text(e.context.additional_info@)
}

fn info_debug(m: &InfoMap) -> (s: String)
    ensures
        s@ == info_text(m@),
{
    let mut body = String::new();
    let n = m.entries.len();
    let mut i: usize = 0;
    while i < n
        invariant
            n == m.entries.len(),
            i <= n,
            m@ == entries_view(m.entries@),
            body@ == entries_text(m@.subrange(0, i as int)),
        decreases n - i,
    {
        let k = str_debug(m.entries[i].0.as_str());
        let v = str_debug(m.entries[i].1.as_str());
        let ghost prefix = m@.subrange(0, i as int);
        let ghost next = m@.subrange(0, i + 1);
        assert(next.drop_last() =~= prefix);
        if i > 0 {
            body.append(", ");
        }
        body.append(k.as_str());
        body.append(": ");
        body.append(v.as_str());
        i = i + 1;
        proof {
            if i == 1 {
                assert(next.len() == 1);
                assert(body@ =~= entry_text(next[0]));
            } else {
                assert(body@ =~= entries_text(next));
            }
        }
    }
    assert(m@.subrange(0, n as int) =~= m@);
    let mut s = String::from_str("{");
    s.append(body.as_str());
    s.append("}");
    s
}

fn or_na_text(o: &Option<String>) -> (s: String)
    ensures
        s@ == or_na(*o),
{
    match o {
        Some(v) => v.clone(),
        None => String::from_str("N/A"),
    }
}

impl ContextualError {
    /// Pairs an error with its context.
    pub fn new(error: NimbusError, context: ErrorContext) -> (e: Self)
        ensures
            e.error == error,
            e.context == context,
    {
        ContextualError { error, context }
    }

    /// The detailed description for logging: component and operation, the
    /// error text, session, instance, time and extra information.
    pub fn detailed_info(&self) -> (s: String)
        ensures
            s@ == detailed_info_text(*self),
    {
        let mut s = concat2("Error in ", self.context.component.as_str());
        s.append(".");
        s.append(self.context.operation.as_str());
        s.append(": ");
        let et = self.error.display_text();
        s.append(et.as_str());
        s.append(" | Session: ");
        let sid = or_na_text(&self.context.session_id);
        s.append(sid.as_str());
        s.append(" | Instance: ");
        let iid = or_na_text(&self.context.instance_id);
        s.append(iid.as_str());
        s.append(" | Time: ");
        let t = system_time_debug(&self.context.timestamp);
        s.append(t.as_str());
        s.append(" | Additional: ");
        let info = info_debug(&self.context.additional_info);
        s.append(info.as_str());
        s
    }

    /// The message shown to the user.
    pub fn user_message(&self) -> (s: String)
        ensures
            s@ == user_message_text(self.error),
    {
        self.error.user_message()
    }

    /// How severe the error is.
    pub fn severity(&self) -> (s: ErrorSeverity)
        ensures
            s == error_severity(self.error),
    {
        self.error.severity()
    }
}

/// Law: the strategy follows the kind of error: resource and UI errors
/// degrade, configuration errors fall back, connection, AWS and session
/// errors are retried exactly when recoverable and otherwise fail, and
/// every other error fails.
pub proof fn lemma_strategy_by_kind(e: NimbusError)
    ensures
        e is Resource ==> strategy_for(e) == StrategyKind::Degrade,
        e is Ui ==> strategy_for(e) == StrategyKind::Degrade,
        e is Config ==> strategy_for(e) == StrategyKind::Fallback,
        (e is Connection || e is Aws || e is Session) ==> (strategy_for(e) == (if crate::error::recoverable(e) {
            StrategyKind::Retry
        } else {
            StrategyKind::Fail
        })),
        !(e is Resource || e is Ui || e is Config || e is Connection || e is Aws || e is Session)
            ==> strategy_for(e) == StrategyKind::Fail,
{
}

/// Law: on concrete errors, a connection refused by the preventive checks
/// and a session that could not be created are retried; a session that was
/// not found, every AWS error, and I/O, JSON and system errors fail at once.
pub proof fn lemma_strategy_examples(text: String, id: String, issues: Vec<String>, aws: crate::error::AwsError)
    ensures
        strategy_for(
            NimbusError::Connection(
                crate::error::ConnectionError::PreventiveCheckFailed { reason: text, issues: issues },
            ),
        ) == StrategyKind::Retry,
        strategy_for(NimbusError::Session(crate::error::SessionError::CreationFailed { reason: text }))
            == StrategyKind::Retry,
        strategy_for(NimbusError::Session(crate::error::SessionError::NotFound { session_id: id }))
            == StrategyKind::Fail,
        strategy_for(NimbusError::Aws(aws)) == StrategyKind::Fail,
        strategy_for(NimbusError::Io(text)) == StrategyKind::Fail,
        strategy_for(NimbusError::Json(text)) == StrategyKind::Fail,
        strategy_for(NimbusError::System(text)) == StrategyKind::Fail,
{
}

/// Law: a fallback waits 100 ms for a configuration error and 500 ms for
/// any other, then tries twice, 200 ms apart; a degradation waits a second
/// and tries twice for a resource error, and waits 100 ms and tries once
/// for a UI or VS Code error.
pub proof fn lemma_recovery_plans(e: NimbusError)
    ensures
        fallback_plan_for(e).attempts == 2,
        fallback_plan_for(e).between_ms == 200,
        fallback_plan_for(e).initial_delay_ms == (if e is Config { 100u64 } else { 500u64 }),
        degradation_plan_for(e).between_ms == 200,
        e is Resource ==> degradation_plan_for(e).initial_delay_ms == 1000 && degradation_plan_for(e).attempts
            == 2,
        (e is Ui || e is VsCode) ==> degradation_plan_for(e).initial_delay_ms == 100
            && degradation_plan_for(e).attempts == 1,
{
}

} // verus!
