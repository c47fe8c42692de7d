//! Running fixes: the result of a fix, which fixes of a plan run, and the
//! decisions taken while a fix runs (starting an instance and waiting for it,
//! restarting the SSM agent, terminating a local process). The calls to AWS
//! and to the operating system are made by the caller, which reports their
//! outcomes as events.

use crate::auto_fix::{
    actions_view, new_fix, safe_fixes_only, safe_to_auto_execute, FixAction, FixActionType, FixActionView, SsmAgentHealthStatus,
    SsmAgentState,
};
use crate::error::{error_text, AwsError, NimbusError};
use crate::text::{concat2, concat3, contains, decimal, decimal_string, parse_u32, parse_unsigned, str_contains, starts_with, str_starts_with};
use std::time::Duration;
use vstd::prelude::*;

verus! {

/// The outcome of running one fix.
#[derive(Debug)]
pub struct FixResult {
    pub action: FixAction,
    pub success: bool,
    pub message: String,
    pub details: Option<serde_json::Value>,
    pub duration: Duration,
    pub retry_count: u32,
}

impl FixResult {
    /// A fix that worked.
    pub fn success(action: FixAction, message: String, duration: Duration) -> (r: Self)
        ensures
            r == (FixResult { action, success: true, message, details: None, duration, retry_count: 0 }),
    {
        FixResult { action, success: true, message, details: None, duration, retry_count: 0 }
    }

    /// A fix that did not work.
    pub fn failure(action: FixAction, message: String, duration: Duration) -> (r: Self)
        ensures
            r == (FixResult { action, success: false, message, details: None, duration, retry_count: 0 }),
    {
        FixResult { action, success: false, message, details: None, duration, retry_count: 0 }
    }
}

// ---------------------------------------------------------------------------
// Which fixes run
// ---------------------------------------------------------------------------

/// How a list of fixes is run.
#[derive(Debug, Clone, Copy, PartialEq, Eq, Structural)]
pub enum FixRunMode {
    /// Every fix runs.
    All,
    /// Safe fixes run; the others are recorded as skipped.
    SafeOnly,
    /// Fixes that ask for confirmation are skipped unless it is a dry run.
    Interactive,
}

/// The mode in which a `fix` command runs the fixes `select_fixes` chose:
/// all of them with `--auto-fix`, else only the
/// safe ones with `--safe-only`, else fixes one by one.
pub fn fix_run_mode(auto_fix: bool, safe_only: bool) -> (m: FixRunMode)
    ensures
        m == (if auto_fix {
            FixRunMode::All
        } else if safe_only {
            FixRunMode::SafeOnly
        } else {
            FixRunMode::Interactive
        }),
{
    if auto_fix {
        FixRunMode::All
    } else if safe_only {
        FixRunMode::SafeOnly
    } else {
        FixRunMode::Interactive
    }
}

/// What happens to one fix in a run.
#[derive(Debug, Clone, Copy, PartialEq, Eq, Structural)]
pub enum FixDisposition {
    /// The fix is executed.
    Execute,
    /// The fix is recorded as skipped, a successful result saying so.
    RecordSkipped,
    /// The fix is left out without a result.
    Drop,
}

/// What happens to a fix in a run of the given mode.
pub open spec fn disposition(m: FixRunMode, a: FixActionView, dry_run: bool) -> FixDisposition {
    match m {
        FixRunMode::All => FixDisposition::Execute,
        FixRunMode::SafeOnly => if safe_to_auto_execute(a) {
            FixDisposition::Execute
        } else {
            FixDisposition::RecordSkipped
        },
        FixRunMode::Interactive => if a.requires_confirmation && !dry_run {
            FixDisposition::Drop
        } else {
            FixDisposition::Execute
        },
    }
}

/// What happens to a fix in a run of the given mode.
pub fn fix_disposition(m: FixRunMode, a: &FixAction, dry_run: bool) -> (d: FixDisposition)
    ensures
        d == disposition(m, a@, dry_run),
{
    match m {
        FixRunMode::All => FixDisposition::Execute,
        FixRunMode::SafeOnly => if a.is_safe_to_auto_execute() {
            FixDisposition::Execute
        } else {
            FixDisposition::RecordSkipped
        },
        FixRunMode::Interactive => if a.requires_confirmation && !dry_run {
            FixDisposition::Drop
        } else {
            FixDisposition::Execute
        },
    }
}

/// The fixes a run considers, before any runs.
#[derive(Debug)]
pub enum FixSelection {
    /// The findings call for no fix.
    NoFixes,
    /// Only safe fixes were asked for, and none is safe.
    NoSafeFixes,
    /// These fixes, in order.
    Run(Vec<FixAction>),
}

/// The fixes a run considers: with `--safe-only` only those that may run
/// without asking, otherwise all of them.
pub open spec fn selected_fixes(actions: Seq<FixActionView>, safe_only: bool) -> Seq<FixActionView> {
    if safe_only {
        actions.filter(|a: FixActionView| safe_to_auto_execute(a))
    } else {
        actions
    }
}

/// Chooses the fixes a run considers: none when the findings call for none;
/// with `--safe-only`, only the safe ones, and none at all when no fix is
/// safe; otherwise every fix.
pub fn select_fixes(actions: Vec<FixAction>, safe_only: bool) -> (s: FixSelection)
    ensures
        actions@.len() == 0 ==> s is NoFixes,
        actions@.len() > 0 && selected_fixes(actions_view(actions@), safe_only).len() == 0 ==> s is NoSafeFixes,
        actions@.len() > 0 && selected_fixes(actions_view(actions@), safe_only).len() > 0 ==> s is Run
            && actions_view(s->Run_0@) == selected_fixes(actions_view(actions@), safe_only),
{
    if actions.len() == 0 {
        return FixSelection::NoFixes;
    }
    if safe_only {
        let safe = safe_fixes_only(&actions);
        if safe.len() == 0 {
            FixSelection::NoSafeFixes
        } else {
            FixSelection::Run(safe)
        }
    } else {
        assert(actions_view(actions@).len() == actions@.len());
        FixSelection::Run(actions)
    }
}

/// Law: with `--safe-only`, whatever the mode, every fix the run considers
/// needs no confirmation and carries at most a low risk, and it is executed.
pub proof fn lemma_safe_only_selects_only_safe(
    actions: Seq<FixActionView>,
    m: FixRunMode,
    dry_run: bool,
    i: int,
)
    requires
        0 <= i < selected_fixes(actions, true).len(),
    ensures
        safe_to_auto_execute(selected_fixes(actions, true)[i]),
        !selected_fixes(actions, true)[i].requires_confirmation,
        selected_fixes(actions, true)[i].risk_level == crate::auto_fix::RiskLevel::Safe
            || selected_fixes(actions, true)[i].risk_level == crate::auto_fix::RiskLevel::Low,
        disposition(m, selected_fixes(actions, true)[i], dry_run) == FixDisposition::Execute,
{
    broadcast use vstd::seq_lib::group_filter_ensures;

    let sel = selected_fixes(actions, true);
    assert(sel.contains(sel[i]));
}

/// The message of a fix skipped because it needs confirmation.
pub fn skipped_message() -> (m: String)
    ensures
        m@ == "Skipped - requires manual confirmation"@,
{
    String::from_str("Skipped - requires manual confirmation")
}

/// The position of the first safe fix at or after `i`, or the length of the
/// plan when there is none.
pub open spec fn first_safe_from(actions: Seq<FixActionView>, i: int) -> int
    decreases actions.len() - i,
{
    if i >= actions.len() {
        actions.len() as int
    } else if safe_to_auto_execute(actions[i]) {
        i
    } else {
        first_safe_from(actions, i + 1)
    }
}

/// Law: a safe-fix run only hands out safe fixes, and the fixes it passes
/// over on the way (which it records as skipped) are all unsafe.
pub proof fn lemma_first_safe_from(actions: Seq<FixActionView>, i: int)
    requires
        0 <= i <= actions.len(),
    ensures
        i <= first_safe_from(actions, i) <= actions.len(),
        first_safe_from(actions, i) < actions.len() ==> safe_to_auto_execute(
            actions[first_safe_from(actions, i)],
        ),
        forall|j: int| i <= j < first_safe_from(actions, i) ==> !safe_to_auto_execute(#[trigger] actions[j]),
    decreases actions.len() - i,
{
    if i < actions.len() && !safe_to_auto_execute(actions[i]) {
        lemma_first_safe_from(actions, i + 1);
    }
}

/// Whether `r` records the fix `a` as skipped, taking `d`.
pub open spec fn skipped_result(a: FixActionView, r: FixResult, d: Duration) -> bool {
    &&& r.action@ == a
    &&& r.success
    &&& r.message@ == "Skipped - requires manual confirmation"@
    &&& r.details is None
    &&& r.duration == d
    &&& r.retry_count == 0
}

/// A run of the safe fixes of a plan, in order: each safe fix is handed
/// out to be executed and its result recorded; each other fix is recorded
/// as skipped. An error while executing a fix ends the run with that error.
#[derive(Debug)]
pub struct SafeFixRun {
    actions: Vec<FixAction>,
    next: usize,
    results: Vec<FixResult>,
}

impl View for SafeFixRun {
    type V = (Seq<FixActionView>, nat, Seq<FixResult>);

    closed spec fn view(&self) -> (Seq<FixActionView>, nat, Seq<FixResult>) {
        (actions_view(self.actions@), self.next as nat, self.results@)
    }
}

/// What a safe-fix run asks for next.
#[derive(Debug)]
pub enum SafeFixStep {
    /// Execute this fix and record its result.
    Execute(FixAction),
    /// Every fix was dealt with.
    Finished,
}

impl SafeFixRun {
    /// Well-formed: the next fix is within the plan.
    pub closed spec fn wf(&self) -> bool {
        self.next <= self.actions@.len()
    }

    /// A run over the fixes of a plan, none dealt with yet.
    pub fn new(actions: Vec<FixAction>) -> (r: Self)
        ensures
            r.wf(),
            r@ == (actions_view(actions@), 0nat, Seq::<FixResult>::empty()),
    {
        SafeFixRun { actions, next: 0, results: Vec::new() }
    }

    /// Deals with the fixes from the next one on: records each fix that is
    /// not safe as skipped, taking `skip_duration`, and hands out the first
    /// safe fix, or says that the plan is done.
    pub fn next_step(&mut self, skip_duration: Duration) -> (s: SafeFixStep)
        requires
            old(self).wf(),
        ensures
            final(self).wf(),
            ({
                let (acts, i, rs) = old(self)@;
                let k = first_safe_from(acts, i as int);
                &&& final(self)@.0 == acts
                &&& final(self)@.1 == (if k < acts.len() { k + 1 } else { k })
                &&& final(self)@.2.len() == rs.len() + (k - i)
                &&& final(self)@.2.subrange(0, rs.len() as int) == rs
                &&& forall|j: int|
                    i <= j < k ==> skipped_result(
                        acts[j],
                        #[trigger] final(self)@.2[rs.len() + (j - i)],
                        skip_duration,
                    )
                &&& (k < acts.len() ==> (s matches SafeFixStep::Execute(a) && a@ == acts[k]))
                &&& (k == acts.len() ==> s is Finished)
            }),
    {
        let ghost acts = actions_view(self.actions@);
        let ghost i0 = self.next as int;
        let ghost rs0 = self.results@;
        proof {
            lemma_first_safe_from(acts, i0);
        }
        let ghost k = first_safe_from(acts, i0);
        while self.next < self.actions.len() && !self.actions[self.next].is_safe_to_auto_execute()
            invariant
                acts == actions_view(self.actions@),
                acts.len() == self.actions@.len(),
                i0 <= self.next <= k,
                k == first_safe_from(acts, i0),
                k <= acts.len(),
                k < acts.len() ==> safe_to_auto_execute(acts[k]),
                forall|j: int| i0 <= j < k ==> !safe_to_auto_execute(#[trigger] acts[j]),
                self.results@.len() == rs0.len() + (self.next - i0),
                self.results@.subrange(0, rs0.len() as int) == rs0,
                forall|j: int|
                    i0 <= j < self.next ==> skipped_result(
                        acts[j],
                        #[trigger] self.results@[rs0.len() + (j - i0)],
                        skip_duration,
                    ),
            decreases self.actions.len() - self.next,
        {
            proof {
                assert(acts[self.next as int] == self.actions@[self.next as int]@);
            }
            let a = self.actions[self.next].clone();
            let msg = skipped_message();
            let r = FixResult::success(a, msg, skip_duration);
            let ghost before = self.results@;
            self.results.push(r);
            proof {
                assert(self.results@.subrange(0, rs0.len() as int) =~= before.subrange(0, rs0.len() as int));
                assert forall|j: int| i0 <= j < self.next + 1 implies skipped_result(
                    acts[j],
                    #[trigger] self.results@[rs0.len() + (j - i0)],
                    skip_duration,
                ) by {
                    if j < self.next {
                        assert(self.results@[rs0.len() + (j - i0)] == before[rs0.len() + (j - i0)]);
                    }
                }
            }
            self.next = self.next + 1;
        }
        if self.next < self.actions.len() {
            proof {
                assert(acts[self.next as int] == self.actions@[self.next as int]@);
            }
            let a = self.actions[self.next].clone();
            self.next = self.next + 1;
            SafeFixStep::Execute(a)
        } else {
            SafeFixStep::Finished
        }
    }

    /// Records the result of the fix that was handed out last.
    pub fn record(&mut self, r: FixResult)
        requires
            old(self).wf(),
        ensures
            final(self).wf(),
            final(self)@ == (old(self)@.0, old(self)@.1, old(self)@.2.push(r)),
    {
        self.results.push(r);
    }

    /// The results, in the order of the plan.
    pub fn into_results(self) -> (v: Vec<FixResult>)
        ensures
            v@ == self@.2,
    {
        self.results
    }
}

/// Law: in safe mode no fix that needs confirmation or carries more than a
/// low risk is executed.
pub proof fn lemma_safe_mode_executes_only_safe(a: FixActionView, dry_run: bool)
    requires
        disposition(FixRunMode::SafeOnly, a, dry_run) == FixDisposition::Execute,
    ensures
        !a.requires_confirmation,
        a.risk_level == crate::auto_fix::RiskLevel::Safe || a.risk_level == crate::auto_fix::RiskLevel::Low,
{
}

// ---------------------------------------------------------------------------
// How a fix is carried out
// ---------------------------------------------------------------------------

/// How a fix of each kind is carried out.
#[derive(Debug, Clone, Copy, PartialEq, Eq, Structural)]
pub enum FixRoute {
    StartInstance,
    RestartAgent,
    RefreshCredentials,
    TerminateProcess,
    /// Restoring a configuration is left to the user.
    ManualRestore,
    /// The fix is an instruction for the user.
    Manual,
}

/// The route of a fix kind.
pub open spec fn route_of(t: FixActionType) -> FixRoute {
    match t {
        FixActionType::StartInstance => FixRoute::StartInstance,
        FixActionType::RestartSsmAgent => FixRoute::RestartAgent,
        FixActionType::UpdateCredentials => FixRoute::RefreshCredentials,
        FixActionType::TerminateProcess => FixRoute::TerminateProcess,
        FixActionType::RestoreConfig => FixRoute::ManualRestore,
        _ => FixRoute::Manual,
    }
}

/// The route of a fix.
pub fn fix_route(t: FixActionType) -> (r: FixRoute)
    ensures
        r == route_of(t),
{
    match t {
        FixActionType::StartInstance => FixRoute::StartInstance,
        FixActionType::RestartSsmAgent => FixRoute::RestartAgent,
        FixActionType::UpdateCredentials => FixRoute::RefreshCredentials,
        FixActionType::TerminateProcess => FixRoute::TerminateProcess,
        FixActionType::RestoreConfig => FixRoute::ManualRestore,
        _ => FixRoute::Manual,
    }
}

/// The message of a fix that is left to the user.
pub fn manual_route_message(r: FixRoute) -> (m: String)
    requires
        r == FixRoute::ManualRestore || r == FixRoute::Manual,
    ensures
        r == FixRoute::ManualRestore ==> m@ == "Configuration restoration requires manual intervention"@,
        r == FixRoute::Manual ==> m@ == "Manual fix action - see instructions"@,
{
    if r == FixRoute::ManualRestore {
        String::from_str("Configuration restoration requires manual intervention")
    } else {
        String::from_str("Manual fix action - see instructions")
    }
}

/// The fix that starts an instance.
pub fn start_instance_action(instance_id: &str) -> (a: FixAction)
    ensures
        a@ == new_fix(FixActionType::StartInstance, "Starting instance: "@ + instance_id@, instance_id@),
{
    FixAction::new(
        FixActionType::StartInstance,
        concat2("Starting instance: ", instance_id),
        String::from_str(instance_id),
    )
}

/// The fix that restarts the SSM agent of an instance.
pub fn restart_agent_action(instance_id: &str) -> (a: FixAction)
    ensures
        a@ == new_fix(
            FixActionType::RestartSsmAgent,
            "Restarting SSM agent on instance: "@ + instance_id@,
            instance_id@,
        ),
{
    FixAction::new(
        FixActionType::RestartSsmAgent,
        concat2("Restarting SSM agent on instance: ", instance_id),
        String::from_str(instance_id),
    )
}

/// The fix that refreshes the AWS credentials.
pub fn refresh_credentials_action() -> (a: FixAction)
    ensures
        a@ == new_fix(
            FixActionType::UpdateCredentials,
            "Updating AWS credentials configuration"@,
            "credentials"@,
        ),
{
    FixAction::new(
        FixActionType::UpdateCredentials,
        String::from_str("Updating AWS credentials configuration"),
        String::from_str("credentials"),
    )
}

/// The fix that terminates a process.
pub fn terminate_process_action(target: &str) -> (a: FixAction)
    ensures
        a@ == new_fix(FixActionType::TerminateProcess, "Terminating process: "@ + target@, target@),
{
    FixAction::new(
        FixActionType::TerminateProcess,
        concat2("Terminating process: ", target),
        String::from_str(target),
    )
}

/// What a dry run of each route reports.
pub open spec fn dry_run_text(r: FixRoute, target: Seq<char>) -> Seq<char> {
    match r {
        FixRoute::StartInstance => "DRY RUN: Would start instance "@ + target,
        FixRoute::RestartAgent => "DRY RUN: Would restart SSM agent on instance "@ + target,
        FixRoute::RefreshCredentials => "DRY RUN: Would update AWS credentials"@,
        FixRoute::TerminateProcess => "DRY RUN: Would terminate process "@ + target,
        FixRoute::ManualRestore => "Configuration restoration requires manual intervention"@,
        FixRoute::Manual => "Manual fix action - see instructions"@,
    }
}

/// What a dry run of a fix reports (it succeeds without touching anything).
pub fn dry_run_message(r: FixRoute, target: &str) -> (m: String)
    ensures
        m@ == dry_run_text(r, target@),
{
    match r {
        FixRoute::StartInstance => concat2("DRY RUN: Would start instance ", target),
        FixRoute::RestartAgent => concat2("DRY RUN: Would restart SSM agent on instance ", target),
        FixRoute::RefreshCredentials => String::from_str("DRY RUN: Would update AWS credentials"),
        FixRoute::TerminateProcess => concat2("DRY RUN: Would terminate process ", target),
        FixRoute::ManualRestore => String::from_str("Configuration restoration requires manual intervention"),
        FixRoute::Manual => String::from_str("Manual fix action - see instructions"),
    }
}

/// The message once the credentials were refreshed.
pub fn credentials_refreshed_message() -> (m: String)
    ensures
        m@ == "AWS credentials refreshed successfully"@,
{
    String::from_str("AWS credentials refreshed successfully")
}

// ---------------------------------------------------------------------------
// Terminating a process
// ---------------------------------------------------------------------------

/// What terminating a process target comes to: a process id to signal, or
/// the message of a target that names none.
pub open spec fn process_target_pid(target: Seq<char>) -> Result<u32, Seq<char>> {
    if starts_with(target, "process:"@) {
        let rest = target.subrange(8, target.len() as int);
        match parse_unsigned(rest, u32::MAX as nat) {
            Some(n) => Ok(n as u32),
            None => Err("Invalid PID format: "@ + rest),
        }
    } else {
        Err("Invalid process target format: "@ + target)
    }
}

fn suffix_after(s: &str, n: usize) -> (r: String)
    requires
        n <= s@.len(),
    ensures
        r@ == s@.subrange(n as int, s@.len() as int),
{
    let chars = crate::text::chars_of(s);
    let mut out = String::new();
    let mut i: usize = n;
    while i < chars.len()
        invariant
            n <= i <= chars.len(),
            chars@ == s@,
            out@ == s@.subrange(n as int, i as int),
        decreases chars.len() - i,
    {
        out.push(chars[i]);
        i = i + 1;
        assert(out@ =~= s@.subrange(n as int, i as int));
    }
    out
}

/// The process id a `process:<pid>` target names.
pub fn parse_process_target(target: &str) -> (r: Result<u32, String>)
    ensures
        match process_target_pid(target@) {
            Ok(p) => r == Ok::<u32, String>(p),
            Err(m) => r is Err && r->Err_0@ == m,
        },
{
    proof {
        reveal_strlit("process:");
    }
    if str_starts_with(target, "process:") {
        let rest = suffix_after(target, 8);
        match parse_u32(rest.as_str()) {
            Some(p) => Ok(p),
            None => Err(concat2("Invalid PID format: ", rest.as_str())),
        }
    } else {
        Err(concat2("Invalid process target format: ", target))
    }
}

/// How the termination command ended.
#[derive(Debug)]
pub enum KillOutcome {
    /// It ran and succeeded.
    Succeeded,
    /// It ran and failed, with what it wrote to standard error.
    Failed(String),
    /// It could not be run, with the reason.
    NotRun(String),
}

/// The result of signalling a process: whether it worked, and the message.
pub open spec fn kill_result(pid: u32, k: KillOutcome, command: Seq<char>) -> (bool, Seq<char>) {
    match k {
        KillOutcome::Succeeded => (true, "Successfully terminated process with PID: "@ + decimal(pid as nat)),
        KillOutcome::Failed(err) => (
            false,
            "Failed to terminate process "@ + decimal(pid as nat) + ": "@ + err@,
        ),
        KillOutcome::NotRun(e) => (false, "Failed to execute "@ + command + " command: "@ + e@),
    }
}

/// The result of signalling a process with the named command (`kill` or
/// `taskkill`).
pub fn kill_outcome(pid: u32, k: KillOutcome, command: &str) -> (r: (bool, String))
    ensures
        r.0 == kill_result(pid, k, command@).0,
        r.1@ == kill_result(pid, k, command@).1,
{
    let p = decimal_string(pid as u64);
    match k {
        KillOutcome::Succeeded => (true, concat2("Successfully terminated process with PID: ", p.as_str())),
        KillOutcome::Failed(err) => {
            let head = concat3("Failed to terminate process ", p.as_str(), ": ");
            (false, concat2(head.as_str(), err.as_str()))
        },
        KillOutcome::NotRun(e) => {
            let head = concat3("Failed to execute ", command, " command: ");
            (false, concat2(head.as_str(), e.as_str()))
        },
    }
}

// ---------------------------------------------------------------------------
// The SSM agent
// ---------------------------------------------------------------------------

/// The agent state read from what the SSM service returned: registered with
/// the reported values (each "Unknown" when missing), or not registered.
pub open spec fn agent_state_of(
    info: Option<(Option<Seq<char>>, Option<Seq<char>>, Option<Seq<char>>)>,
    s: SsmAgentState,
) -> bool {
    match info {
        Some((ping, version, last)) => {
            &&& s.registered
            &&& s.ping_status@ == (match ping { Some(p) => p, None => "Unknown"@ })
            &&& s.agent_version@ == (match version { Some(v) => v, None => "Unknown"@ })
            &&& s.last_ping_time@ == (match last { Some(t) => t, None => "Unknown"@ })
        },
        None => {
            &&& !s.registered
            &&& s.ping_status@ == "Not registered"@
            &&& s.agent_version@ == "Unknown"@
            &&& s.last_ping_time@ == "Never"@
        },
    }
}

fn text_or_unknown(o: Option<String>) -> (r: String)
    ensures
        r@ == (match o { Some(p) => p@, None => "Unknown"@ }),
{
    match o {
        Some(p) => p,
        None => String::from_str("Unknown"),
    }
}

/// The agent state from the first instance the SSM service listed, given as
/// its ping status, agent version and last ping time.
pub fn agent_state_from(info: Option<(Option<String>, Option<String>, Option<String>)>) -> (s: SsmAgentState)
    ensures
        agent_state_of(
            match info {
                Some((a, b, c)) => Some((
                    crate::text::opt_view(a),
                    crate::text::opt_view(b),
                    crate::text::opt_view(c),
                )),
                None => None,
            },
            s,
        ),
{
    match info {
        Some((ping, version, last)) => SsmAgentState {
            registered: true,
            ping_status: text_or_unknown(ping),
            agent_version: text_or_unknown(version),
            last_ping_time: text_or_unknown(last),
        },
        None => SsmAgentState {
            registered: false,
            ping_status: String::from_str("Not registered"),
            agent_version: String::from_str("Unknown"),
            last_ping_time: String::from_str("Never"),
        },
    }
}

/// A poll of the agent's health after a restart.
#[derive(Debug)]
pub enum HealthPoll {
    /// The time since the restart was checked, in seconds.
    Tick(u64),
    /// The agent state was read.
    Read(SsmAgentState),
    /// Reading the agent state failed, with the error's text.
    ReadFailed(String),
}

/// The agent's health after a poll, or none to poll again (every 5 s, for
/// at most 60 s).
pub fn decide_health(p: HealthPoll) -> (r: Option<SsmAgentHealthStatus>)
    ensures
        match p {
            HealthPoll::Tick(elapsed) => r == (if elapsed > 60 {
                Some(SsmAgentHealthStatus::Unknown)
            } else {
                None
            }),
            HealthPoll::Read(s) => r == (if s.registered && contains(s.ping_status@, "Online"@) {
                Some(SsmAgentHealthStatus::Healthy)
            } else {
                None
            }),
            HealthPoll::ReadFailed(e) => r is Some && r->0 is Unhealthy && r->0->Unhealthy_0@
                == "Health check failed: "@ + e@,
        },
{
    match p {
        HealthPoll::Tick(elapsed) => if elapsed > 60 {
            Some(SsmAgentHealthStatus::Unknown)
        } else {
            None
        },
        HealthPoll::Read(s) => if s.registered && str_contains(s.ping_status.as_str(), "Online") {
            Some(SsmAgentHealthStatus::Healthy)
        } else {
            None
        },
        HealthPoll::ReadFailed(e) => Some(
            SsmAgentHealthStatus::Unhealthy(concat2("Health check failed: ", e.as_str())),
        ),
    }
}

/// The result of a restart: healthy is a success; the message names the
/// command that restarted the agent.
pub open spec fn restart_result(h: SsmAgentHealthStatus, command_id: Seq<char>) -> (bool, Seq<char>) {
    match h {
        SsmAgentHealthStatus::Healthy => (
            true,
            "SSM agent restarted successfully and is healthy. Command ID: "@ + command_id,
        ),
        SsmAgentHealthStatus::Unhealthy(reason) => (
            false,
            "SSM agent restart completed but agent is unhealthy: "@ + reason@ + ". Command ID: "@
                + command_id,
        ),
        SsmAgentHealthStatus::Unknown => (
            false,
            "SSM agent restart completed but health status unknown. Command ID: "@ + command_id,
        ),
    }
}

/// Whether a restart worked and its message.
pub fn restart_outcome(h: &SsmAgentHealthStatus, command_id: &str) -> (r: (bool, String))
    ensures
        r.0 == restart_result(*h, command_id@).0,
        r.1@ == restart_result(*h, command_id@).1,
{
    match h {
        SsmAgentHealthStatus::Healthy => (
            true,
            concat2("SSM agent restarted successfully and is healthy. Command ID: ", command_id),
        ),
        SsmAgentHealthStatus::Unhealthy(reason) => {
            let head = concat3(
                "SSM agent restart completed but agent is unhealthy: ",
                reason.as_str(),
                ". Command ID: ",
            );
            (false, concat2(head.as_str(), command_id))
        },
        SsmAgentHealthStatus::Unknown => (
            false,
            concat2("SSM agent restart completed but health status unknown. Command ID: ", command_id),
        ),
    }
}

// ---------------------------------------------------------------------------
// Starting an instance
// ---------------------------------------------------------------------------

/// Where starting an instance stands.
#[derive(Debug)]
pub enum StartPhase {
    /// The instance's state is being read.
    Describing,
    /// The start request was sent.
    Starting,
    /// The instance is watched until it runs (every 10 s, for at most 300 s).
    Monitoring,
    /// The SSM registration is awaited (every 3 s, for at most 300 s);
    /// `final_state` is the instance state reached, none when it was
    /// already running.
    Registering { final_state: Option<String> },
    /// The outcome is known.
    Done,
}

/// What the caller reports while an instance starts.
#[derive(Debug)]
pub enum StartEvent {
    /// The instance was described: its state (as its name's debug text), or
    /// none when no instance was returned; or the call's error.
    Described(Result<Option<String>, String>),
    /// The start request returned: the new state of the first instance, or
    /// none when no instance was returned; or the call's error.
    Started(Result<Option<String>, String>),
    /// Seconds since the current wait began.
    Tick(u64),
    /// A poll of the instance state: its state, or none when no instance
    /// was returned; or the call's error.
    Polled(Result<Option<String>, String>),
    /// The SSM agent state was read, or reading it failed.
    AgentRead(Result<SsmAgentState, NimbusError>),
}

/// What the caller is to do next.
#[derive(Debug)]
pub enum StartAction {
    /// Send the start request.
    SendStart,
    /// Begin a wait: reset the clock and report a tick.
    BeginWait,
    /// Read the instance state.
    PollInstance,
    /// Read the SSM agent state.
    ReadAgent,
    /// Sleep this many seconds, then report a tick.
    Sleep(u64),
    /// The fix is over: whether it worked, and its message.
    Finish(bool, String),
    /// The event does not belong to this phase.
    Ignore,
}

/// The steps to take when the SSM registration does not complete.
pub open spec fn troubleshooting_text(instance_id: Seq<char>) -> Seq<char> {
    "Troubleshooting steps for SSM registration timeout (instance: "@ + instance_id
        + "):\n1) Verify the instance has an IAM role with AmazonSSMManagedInstanceCore attached\n2) Verify outbound HTTPS (TCP/443) is allowed (Security Group / NACL / proxy)\n3) If in a private subnet, verify VPC Endpoints exist for: ssm, ssmmessages, ec2messages\n4) Verify the SSM agent is installed and running (Linux):\n   - sudo systemctl status amazon-ssm-agent\n   - sudo systemctl restart amazon-ssm-agent\n5) Verify registration via CLI:\n   - aws ssm describe-instance-information --filters Key=InstanceIds,Values="@
        + instance_id
        + "\n6) Check instance time sync and DNS resolution (SSM requires correct time/DNS)\n7) Review CloudWatch / system logs for amazon-ssm-agent errors"@
}

/// The steps to take when the SSM registration does not complete.
pub fn troubleshooting_instructions(instance_id: &str) -> (t: String)
    ensures
        t@ == troubleshooting_text(instance_id@),
{
    let a = concat3(
        "Troubleshooting steps for SSM registration timeout (instance: ",
        instance_id,
        "):\n1) Verify the instance has an IAM role with AmazonSSMManagedInstanceCore attached\n2) Verify outbound HTTPS (TCP/443) is allowed (Security Group / NACL / proxy)\n3) If in a private subnet, verify VPC Endpoints exist for: ssm, ssmmessages, ec2messages\n4) Verify the SSM agent is installed and running (Linux):\n   - sudo systemctl status amazon-ssm-agent\n   - sudo systemctl restart amazon-ssm-agent\n5) Verify registration via CLI:\n   - aws ssm describe-instance-information --filters Key=InstanceIds,Values=",
    );
    concat3(
        a.as_str(),
        instance_id,
        "\n6) Check instance time sync and DNS resolution (SSM requires correct time/DNS)\n7) Review CloudWatch / system logs for amazon-ssm-agent errors",
    )
}

/// The text of the error that ends a wait that took too long.
pub open spec fn timeout_text(operation: Seq<char>) -> Seq<char> {
    "AWS error: Timeout: "@ + operation
}

/// The message once the SSM registration is confirmed.
pub open spec fn registered_text(final_state: Option<Seq<char>>, s: SsmAgentState) -> Seq<char> {
    match final_state {
        None => "Instance is already running; SSM registration confirmed (ping_status: "@
            + s.ping_status@ + ", agent_version: "@ + s.agent_version@ + ")"@,
        Some(st) => "Instance started successfully (state: "@ + st
            + "). SSM registration confirmed (ping_status: "@ + s.ping_status@
            + ", agent_version: "@ + s.agent_version@ + ")"@,
    }
}

/// The message when the SSM registration did not complete.
pub open spec fn unregistered_text(final_state: Option<Seq<char>>, err: Seq<char>, instance_id: Seq<char>) -> Seq<char> {
    match final_state {
        None => "Instance is already running, but SSM registration did not complete: "@ + err
            + "\n\n"@ + troubleshooting_text(instance_id),
        Some(st) => "Instance started successfully (state: "@ + st
            + "), but SSM registration did not complete: "@ + err + "\n\n"@
            + troubleshooting_text(instance_id),
    }
}

/// The phase, action and (for a finish) outcome of one step of starting an
/// instance, as a relation between the phase before and after.
pub open spec fn start_step(
    instance_id: Seq<char>,
    p0: StartPhase,
    e: StartEvent,
    p1: StartPhase,
    a: StartAction,
) -> bool {
    match (p0, e) {
        (StartPhase::Describing, StartEvent::Described(Err(err))) => p1 is Done && a is Finish
            && !a->Finish_0 && a->Finish_1@ == "Failed to describe instance: "@ + err@,
        (StartPhase::Describing, StartEvent::Described(Ok(None))) => p1 is Done && a is Finish
            && !a->Finish_0 && a->Finish_1@ == "Instance not found"@,
        (StartPhase::Describing, StartEvent::Described(Ok(Some(st)))) => if contains(
            st@,
            "running"@,
        ) {
            p1 == StartPhase::Registering { final_state: None } && a is BeginWait
        } else if contains(st@, "terminated"@) || contains(st@, "terminating"@) {
            p1 is Done && a is Finish && !a->Finish_0 && a->Finish_1@
                == "Cannot start terminated instance"@
        } else {
            p1 is Starting && a is SendStart
        },
        (StartPhase::Starting, StartEvent::Started(Err(err))) => p1 is Done && a is Finish
            && !a->Finish_0 && a->Finish_1@ == "Failed to start instance: "@ + err@,
        (StartPhase::Starting, StartEvent::Started(Ok(None))) => p1 is Done && a is Finish
            && !a->Finish_0 && a->Finish_1@ == "No instance information returned"@,
        (StartPhase::Starting, StartEvent::Started(Ok(Some(_)))) => p1 is Monitoring && a is BeginWait,
        (StartPhase::Monitoring, StartEvent::Tick(secs)) => if secs > 300 {
            p1 is Done && a is Finish && a->Finish_0 && a->Finish_1@
                == "Instance start initiated but monitoring failed: "@ + timeout_text(
                "Instance startup monitoring"@,
            )
        } else {
            p1 is Monitoring && a is PollInstance
        },
        (StartPhase::Monitoring, StartEvent::Polled(Err(err))) => p1 is Done && a is Finish
            && a->Finish_0 && a->Finish_1@ == "Instance start initiated but monitoring failed: "@
            + "AWS error: EC2 service error: Failed to check instance state: "@ + err@,
        (StartPhase::Monitoring, StartEvent::Polled(Ok(None))) => p1 is Monitoring && a
            == StartAction::Sleep(10),
        (StartPhase::Monitoring, StartEvent::Polled(Ok(Some(st)))) => if contains(
            st@,
            "running"@,
        ) {
            p1 is Registering && p1->final_state is Some && p1->final_state->0@ == st@
                && a is BeginWait
        } else if contains(st@, "stopped"@) || contains(st@, "stopping"@) {
            p1 is Done && a is Finish && a->Finish_0 && a->Finish_1@
                == "Instance start initiated but monitoring failed: "@
                + "AWS error: EC2 service error: Instance startup failed, current state: "@ + st@
        } else {
            p1 is Monitoring && a == StartAction::Sleep(10)
        },
        (StartPhase::Registering { final_state }, StartEvent::Tick(secs)) => if secs > 300 {
            p1 is Done && a is Finish && !a->Finish_0 && a->Finish_1@ == unregistered_text(
                crate::text::opt_view(final_state),
                timeout_text("SSM registration wait"@),
                instance_id,
            )
        } else {
            p1 == StartPhase::Registering { final_state } && a is ReadAgent
        },
        (StartPhase::Registering { final_state }, StartEvent::AgentRead(Err(err))) => p1 is Done
            && a is Finish && !a->Finish_0 && a->Finish_1@ == unregistered_text(
            crate::text::opt_view(final_state),
            error_text(err),
            instance_id,
        ),
        (StartPhase::Registering { final_state }, StartEvent::AgentRead(Ok(s))) => if s.registered {
            p1 is Done && a is Finish && a->Finish_0 && a->Finish_1@ == registered_text(
                crate::text::opt_view(final_state),
                s,
            )
        } else {
            p1 == StartPhase::Registering { final_state } && a == StartAction::Sleep(3)
        },
        (q, _) => p1 == q && a is Ignore,
    }
}

/// Starting an instance.
#[derive(Debug)]
pub struct StartInstanceRun {
    pub instance_id: String,
    pub phase: StartPhase,
}

fn timeout_message(operation: &str) -> (m: String)
    ensures
        m@ == timeout_text(operation@),
{
    let e = NimbusError::Aws(AwsError::Timeout { operation: String::from_str(operation) });
    let t = e.display_text();
    proof {
        reveal_strlit("AWS error: ");
        reveal_strlit("Timeout: ");
        reveal_strlit("AWS error: Timeout: ");
        assert(t@ =~= timeout_text(operation@));
    }
    t
}

fn monitoring_failed(detail: &str) -> (m: String)
    ensures
        m@ == "Instance start initiated but monitoring failed: "@ + detail@,
{
    concat2("Instance start initiated but monitoring failed: ", detail)
}

fn finish(success: bool, message: String) -> (a: StartAction)
    ensures
        a is Finish && a->Finish_0 == success && a->Finish_1 == message,
{
    StartAction::Finish(success, message)
}

fn registered_message(final_state: &Option<String>, s: &SsmAgentState) -> (m: String)
    ensures
        m@ == registered_text(crate::text::opt_view(*final_state), *s),
{
    let tail = concat3(s.ping_status.as_str(), ", agent_version: ", s.agent_version.as_str());
    let tail2 = concat2(tail.as_str(), ")");
    match final_state {
        None => {
            let r = concat2(
                "Instance is already running; SSM registration confirmed (ping_status: ",
                tail2.as_str(),
            );
            assert(r@ =~= registered_text(None, *s));
            r
        },
        Some(st) => {
            let head = concat3(
                "Instance started successfully (state: ",
                st.as_str(),
                "). SSM registration confirmed (ping_status: ",
            );
            let r = concat2(head.as_str(), tail2.as_str());
            assert(r@ =~= registered_text(Some(st@), *s));
            r
        },
    }
}

fn unregistered_message(final_state: &Option<String>, err: &str, instance_id: &str) -> (m: String)
    ensures
        m@ == unregistered_text(crate::text::opt_view(*final_state), err@, instance_id@),
{
    let help = troubleshooting_instructions(instance_id);
    let tail = concat3(err, "\n\n", help.as_str());
    match final_state {
        None => {
            let r = concat2(
                "Instance is already running, but SSM registration did not complete: ",
                tail.as_str(),
            );
            assert(r@ =~= unregistered_text(None, err@, instance_id@));
            r
        },
        Some(st) => {
            let head = concat3(
                "Instance started successfully (state: ",
                st.as_str(),
                "), but SSM registration did not complete: ",
            );
            let r = concat2(head.as_str(), tail.as_str());
            assert(r@ =~= unregistered_text(Some(st@), err@, instance_id@));
            r
        },
    }
}

impl StartInstanceRun {
    /// Starting the given instance: its state is read first.
    pub fn new(instance_id: String) -> (r: Self)
        ensures
            r.instance_id == instance_id,
            r.phase is Describing,
    {
        StartInstanceRun { instance_id, phase: StartPhase::Describing }
    }

    /// Takes what the caller reports and says what to do next.
    pub fn step(&mut self, e: StartEvent) -> (a: StartAction)
        ensures
            final(self).instance_id == old(self).instance_id,
            start_step(old(self).instance_id@, old(self).phase, e, final(self).phase, a),
    {
        let mut phase = StartPhase::Done;
        std::mem::swap(&mut phase, &mut self.phase);
        match (phase, e) {
            (StartPhase::Describing, StartEvent::Described(Err(err))) => {
                finish(false, concat2("Failed to describe instance: ", err.as_str()))
            },
            (StartPhase::Describing, StartEvent::Described(Ok(None))) => {
                finish(false, String::from_str("Instance not found"))
            },
            (StartPhase::Describing, StartEvent::Described(Ok(Some(st)))) => {
                if str_contains(st.as_str(), "running") {
                    self.phase = StartPhase::Registering { final_state: None };
                    StartAction::BeginWait
                } else if str_contains(st.as_str(), "terminated") || str_contains(
                    st.as_str(),
                    "terminating",
                ) {
                    finish(false, String::from_str("Cannot start terminated instance"))
                } else {
                    self.phase = StartPhase::Starting;
                    StartAction::SendStart
                }
            },
            (StartPhase::Starting, StartEvent::Started(Err(err))) => {
                finish(false, concat2("Failed to start instance: ", err.as_str()))
            },
            (StartPhase::Starting, StartEvent::Started(Ok(None))) => {
                finish(false, String::from_str("No instance information returned"))
            },
            (StartPhase::Starting, StartEvent::Started(Ok(Some(_)))) => {
                self.phase = StartPhase::Monitoring;
                StartAction::BeginWait
            },
            (StartPhase::Monitoring, StartEvent::Tick(secs)) => {
                if secs > 300 {
                    let t = timeout_message("Instance startup monitoring");
                    finish(true, monitoring_failed(t.as_str()))
                } else {
                    self.phase = StartPhase::Monitoring;
                    StartAction::PollInstance
                }
            },
            (StartPhase::Monitoring, StartEvent::Polled(Err(err))) => {
                let d = concat2("AWS error: EC2 service error: Failed to check instance state: ", err.as_str());
                let m = monitoring_failed(d.as_str());
                proof {
                    assert(m@ =~= "Instance start initiated but monitoring failed: "@
                        + "AWS error: EC2 service error: Failed to check instance state: "@ + err@);
                }
                finish(true, m)
            },
            (StartPhase::Monitoring, StartEvent::Polled(Ok(None))) => {
                self.phase = StartPhase::Monitoring;
                StartAction::Sleep(10)
            },
            (StartPhase::Monitoring, StartEvent::Polled(Ok(Some(st)))) => {
                if str_contains(st.as_str(), "running") {
                    self.phase = StartPhase::Registering { final_state: Some(st) };
                    StartAction::BeginWait
                } else if str_contains(st.as_str(), "stopped") || str_contains(st.as_str(), "stopping") {
                    let d = concat2(
                        "AWS error: EC2 service error: Instance startup failed, current state: ",
                        st.as_str(),
                    );
                    let m = monitoring_failed(d.as_str());
                    proof {
                        assert(m@ =~= "Instance start initiated but monitoring failed: "@
                            + "AWS error: EC2 service error: Instance startup failed, current state: "@
                            + st@);
                    }
                    finish(true, m)
                } else {
                    self.phase = StartPhase::Monitoring;
                    StartAction::Sleep(10)
                }
            },
            (StartPhase::Registering { final_state }, StartEvent::Tick(secs)) => {
                if secs > 300 {
                    let t = timeout_message("SSM registration wait");
                    finish(false, unregistered_message(&final_state, t.as_str(), self.instance_id.as_str()))
                } else {
                    self.phase = StartPhase::Registering { final_state };
                    StartAction::ReadAgent
                }
            },
            (StartPhase::Registering { final_state }, StartEvent::AgentRead(Err(err))) => {
                let t = err.display_text();
                finish(false, unregistered_message(&final_state, t.as_str(), self.instance_id.as_str()))
            },
            (StartPhase::Registering { final_state }, StartEvent::AgentRead(Ok(s))) => {
                if s.registered {
                    finish(true, registered_message(&final_state, &s))
                } else {
                    self.phase = StartPhase::Registering { final_state };
                    StartAction::Sleep(3)
                }
            },
            (q, _) => {
                self.phase = q;
                StartAction::Ignore
            },
        }
    }
}

/// Law: starting an instance is never reported done while it still waits,
/// and a finished run ignores every further report.
pub proof fn lemma_start_done_is_final(id: Seq<char>, e: StartEvent, p1: StartPhase, a: StartAction)
    requires
        start_step(id, StartPhase::Done, e, p1, a),
    ensures
        p1 is Done,
        a is Ignore,
{
}

/// Law: every wait of a start is bounded: a tick past 300 seconds ends the
/// monitoring and the registration wait.
pub proof fn lemma_start_waits_are_bounded(id: Seq<char>, p0: StartPhase, secs: u64, p1: StartPhase, a: StartAction)
    requires
        p0 is Monitoring || p0 is Registering,
        secs > 300,
        start_step(id, p0, StartEvent::Tick(secs), p1, a),
    ensures
        p1 is Done,
        a is Finish,
{
}

} // verus!
