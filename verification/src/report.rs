//! What the diagnostic and fix commands make of their results: the run
//! settings they ask for, the counts and verdicts they report, the marks
//! beside each line, and the text written to an output file.

use crate::auto_fix::RiskLevel;
use crate::diagnostic::{DiagnosticConfig, DiagnosticResult, DiagnosticStatus, Severity};
use crate::feedback::{result_line, result_lines};
use crate::fix_run::FixResult;
use crate::text::{concat3, join_strings, joined, str_eq, strings_view};
use crate::time::duration_nanos;
use std::time::Duration;
use vstd::prelude::*;

verus! {

// ---------------------------------------------------------------------------
// Run settings of the commands
// ---------------------------------------------------------------------------

/// The settings of a full diagnostic run: ports only when both are given.
pub fn full_run_config(
    instance_id: String,
    local_port: Option<u16>,
    remote_port: Option<u16>,
    profile: Option<String>,
    region: Option<String>,
    parallel: bool,
    timeout_secs: u64,
) -> (c: DiagnosticConfig)
    ensures
        c.instance_id == instance_id,
        c.parallel_execution == parallel,
        duration_nanos(c.timeout) == timeout_secs as nat * 1_000_000_000,
        c.region == region,
        c.profile == profile,
        (local_port is Some && remote_port is Some) ==> c.local_port == local_port && c.remote_port
            == remote_port,
        !(local_port is Some && remote_port is Some) ==> c.local_port is None && c.remote_port is None,
{
    let mut c = DiagnosticConfig::new(instance_id).with_timeout(Duration::from_secs(timeout_secs)).with_parallel_execution(
        parallel,
    );
    match (local_port, remote_port) {
        (Some(l), Some(r)) => {
            c = c.with_ports(l, r);
        },
        _ => {},
    }
    c.with_aws_config(region, profile)
}

/// The settings of a pre-connection check: sequential, and the local port
/// paired with the SSH port when one is given.
pub fn precheck_run_config(
    instance_id: String,
    local_port: Option<u16>,
    profile: Option<String>,
    region: Option<String>,
    timeout_secs: u64,
) -> (c: DiagnosticConfig)
    ensures
        c.instance_id == instance_id,
        !c.parallel_execution,
        duration_nanos(c.timeout) == timeout_secs as nat * 1_000_000_000,
        c.region == region,
        c.profile == profile,
        c.local_port == local_port,
        local_port is Some ==> c.remote_port == Some(22u16),
        local_port is None ==> c.remote_port is None,
{
    let mut c = DiagnosticConfig::new(instance_id).with_timeout(Duration::from_secs(timeout_secs)).with_parallel_execution(
        false,
    );
    match local_port {
        Some(l) => {
            c = c.with_ports(l, 22);
        },
        None => {},
    }
    c.with_aws_config(region, profile)
}

// ---------------------------------------------------------------------------
// Counts and verdicts
// ---------------------------------------------------------------------------

/// How many results have the given status.
pub open spec fn count_status(rs: Seq<DiagnosticResult>, st: DiagnosticStatus) -> nat
    decreases rs.len(),
{
    if rs.len() == 0 {
        0
    } else {
        count_status(rs.drop_last(), st) + (if rs.last().status == st { 1nat } else { 0nat })
    }
}

/// How many results are critical errors.
pub open spec fn count_critical_errors(rs: Seq<DiagnosticResult>) -> nat
    decreases rs.len(),
{
    if rs.len() == 0 {
        0
    } else {
        count_critical_errors(rs.drop_last()) + (if rs.last().status == DiagnosticStatus::Error
            && rs.last().severity == Severity::Critical {
            1nat
        } else {
            0nat
        })
    }
}

/// The counts of a diagnostic run.
#[derive(Debug, Clone, Copy, PartialEq, Eq, Structural)]
pub struct ResultTally {
    pub success: usize,
    pub warning: usize,
    pub error: usize,
    pub critical: usize,
    pub total: usize,
}

/// Counts the results of a run by status, and the critical errors.
pub fn tally_results(rs: &Vec<DiagnosticResult>) -> (t: ResultTally)
    ensures
        t.success == count_status(rs@, DiagnosticStatus::Success),
        t.warning == count_status(rs@, DiagnosticStatus::Warning),
        t.error == count_status(rs@, DiagnosticStatus::Error),
        t.critical == count_critical_errors(rs@),
        t.total == rs@.len(),
{
    let mut t = ResultTally { success: 0, warning: 0, error: 0, critical: 0, total: rs.len() };
    let mut i: usize = 0;
    while i < rs.len()
        invariant
            i <= rs.len(),
            t.total == rs@.len(),
            t.success == count_status(rs@.subrange(0, i as int), DiagnosticStatus::Success),
            t.warning == count_status(rs@.subrange(0, i as int), DiagnosticStatus::Warning),
            t.error == count_status(rs@.subrange(0, i as int), DiagnosticStatus::Error),
            t.critical == count_critical_errors(rs@.subrange(0, i as int)),
            t.success <= i && t.warning <= i && t.error <= i && t.critical <= i,
        decreases rs.len() - i,
    {
        let ghost next = rs@.subrange(0, i + 1);
        assert(next.drop_last() =~= rs@.subrange(0, i as int));
        assert(next.last() == rs@[i as int]);
        match rs[i].status {
            DiagnosticStatus::Success => {
                t.success = t.success + 1;
            },
            DiagnosticStatus::Warning => {
                t.warning = t.warning + 1;
            },
            DiagnosticStatus::Error => {
                t.error = t.error + 1;
                if rs[i].severity == Severity::Critical {
                    t.critical = t.critical + 1;
                }
            },
            DiagnosticStatus::Skipped => {},
        }
        i = i + 1;
    }
    assert(rs@.subrange(0, rs.len() as int) =~= rs@);
    t
}

/// What a full run advises after its summary.
#[derive(Debug, Clone, Copy, PartialEq, Eq, Structural)]
pub enum RunVerdict {
    /// Some check failed: review the errors.
    ReviewErrors,
    /// Only warnings: the connection should work.
    ConsiderWarnings,
    /// Everything passed.
    AllPassed,
}

/// The advice after a full run: errors first, then warnings.
pub fn run_verdict(t: &ResultTally) -> (v: RunVerdict)
    ensures
        v == (if t.error > 0 {
            RunVerdict::ReviewErrors
        } else if t.warning > 0 {
            RunVerdict::ConsiderWarnings
        } else {
            RunVerdict::AllPassed
        }),
{
    if t.error > 0 {
        RunVerdict::ReviewErrors
    } else if t.warning > 0 {
        RunVerdict::ConsiderWarnings
    } else {
        RunVerdict::AllPassed
    }
}

/// A result that stops a connection: a failed check of critical or high
/// severity.
pub open spec fn blocks_connection(r: DiagnosticResult) -> bool {
    r.status == DiagnosticStatus::Error && (r.severity == Severity::Critical || r.severity
        == Severity::High)
}

/// Whether a connection may proceed after a pre-connection check: no result
/// blocks it.
pub fn can_proceed(rs: &Vec<DiagnosticResult>) -> (b: bool)
    ensures
        b == (forall|i: int| 0 <= i < rs@.len() ==> !blocks_connection(#[trigger] rs@[i])),
{
    let mut i: usize = 0;
    while i < rs.len()
        invariant
            i <= rs.len(),
            forall|j: int| 0 <= j < i ==> !blocks_connection(#[trigger] rs@[j]),
        decreases rs.len() - i,
    {
        let r = &rs[i];
        if r.status == DiagnosticStatus::Error && (r.severity == Severity::Critical || r.severity
            == Severity::High) {
            assert(blocks_connection(rs@[i as int]));
            return false;
        }
        i = i + 1;
    }
    true
}

/// A result the fix command works on: fixable, and a failure or warning.
pub open spec fn is_fixable_issue(r: DiagnosticResult) -> bool {
    r.auto_fixable && (r.status == DiagnosticStatus::Error || r.status == DiagnosticStatus::Warning)
}

/// The results the fix command works on, in order.
pub fn fixable_issues(rs: &Vec<DiagnosticResult>) -> (v: Vec<DiagnosticResult>)
    ensures
        v@ == rs@.filter(|r: DiagnosticResult| is_fixable_issue(r)),
{
    let mut v: Vec<DiagnosticResult> = Vec::new();
    let mut i: usize = 0;
    while i < rs.len()
        invariant
            i <= rs.len(),
            v@ == rs@.subrange(0, i as int).filter(|r: DiagnosticResult| is_fixable_issue(r)),
        decreases rs.len() - i,
    {
        let ghost prefix = rs@.subrange(0, i as int);
        let ghost next = rs@.subrange(0, i + 1);
        assert(next.drop_last() =~= prefix);
        assert(next.last() == rs@[i as int]);
        proof {
            reveal(Seq::filter);
        }
        let r = &rs[i];
        if r.auto_fixable && (r.status == DiagnosticStatus::Error || r.status == DiagnosticStatus::Warning) {
            v.push(r.clone());
        }
        i = i + 1;
    }
    assert(rs@.subrange(0, rs.len() as int) =~= rs@);
    v
}

/// How many fix results worked and how many did not.
pub open spec fn count_fix_success(rs: Seq<FixResult>) -> nat
    decreases rs.len(),
{
    if rs.len() == 0 {
        0
    } else {
        count_fix_success(rs.drop_last()) + (if rs.last().success { 1nat } else { 0nat })
    }
}

/// The number of fixes that worked and of those that did not.
pub fn tally_fixes(rs: &Vec<FixResult>) -> (t: (usize, usize))
    ensures
        t.0 == count_fix_success(rs@),
        t.0 + t.1 == rs@.len(),
{
    let mut ok: usize = 0;
    let mut failed: usize = 0;
    let mut i: usize = 0;
    while i < rs.len()
        invariant
            i <= rs.len(),
            ok == count_fix_success(rs@.subrange(0, i as int)),
            ok + failed == i,
        decreases rs.len() - i,
    {
        assert(rs@.subrange(0, i + 1).drop_last() =~= rs@.subrange(0, i as int));
        if rs[i].success {
            ok = ok + 1;
        } else {
            failed = failed + 1;
        }
        i = i + 1;
    }
    assert(rs@.subrange(0, rs.len() as int) =~= rs@);
    (ok, failed)
}

// ---------------------------------------------------------------------------
// Marks and labels
// ---------------------------------------------------------------------------

/// The mark beside a result of each status.
pub open spec fn status_mark(s: DiagnosticStatus) -> Seq<char> {
    match s {
        DiagnosticStatus::Success => "✅"@,
        DiagnosticStatus::Warning => "⚠️"@,
        DiagnosticStatus::Error => "❌"@,
        DiagnosticStatus::Skipped => "⏭️"@,
    }
}

/// The mark beside a result.
pub fn status_icon(s: DiagnosticStatus) -> (t: &'static str)
    ensures
        t@ == status_mark(s),
{
    match s {
        DiagnosticStatus::Success => "✅",
        DiagnosticStatus::Warning => "⚠️",
        DiagnosticStatus::Error => "❌",
        DiagnosticStatus::Skipped => "⏭️",
    }
}

/// The label of a severity.
pub open spec fn severity_text(s: Severity) -> Seq<char> {
    match s {
        Severity::Critical => "CRITICAL"@,
        Severity::High => "HIGH"@,
        Severity::Medium => "MEDIUM"@,
        Severity::Low => "LOW"@,
        Severity::Info => "INFO"@,
    }
}

/// The label of a severity.
pub fn severity_label(s: Severity) -> (t: &'static str)
    ensures
        t@ == severity_text(s),
{
    match s {
        Severity::Critical => "CRITICAL",
        Severity::High => "HIGH",
        Severity::Medium => "MEDIUM",
        Severity::Low => "LOW",
        Severity::Info => "INFO",
    }
}

/// The mark beside a fixable issue, by severity.
pub open spec fn severity_mark(s: Severity) -> Seq<char> {
    match s {
        Severity::Critical => "🚨"@,
        Severity::High => "🔴"@,
        Severity::Medium => "🟡"@,
        Severity::Low => "🟢"@,
        Severity::Info => "ℹ️"@,
    }
}

/// The mark beside a fixable issue.
pub fn severity_icon(s: Severity) -> (t: &'static str)
    ensures
        t@ == severity_mark(s),
{
    match s {
        Severity::Critical => "🚨",
        Severity::High => "🔴",
        Severity::Medium => "🟡",
        Severity::Low => "🟢",
        Severity::Info => "ℹ️",
    }
}

/// The mark beside a fix, by risk.
pub open spec fn risk_mark(r: RiskLevel) -> Seq<char> {
    match r {
        RiskLevel::Safe => "🟢"@,
        RiskLevel::Low => "🟡"@,
        RiskLevel::Medium => "🟠"@,
        RiskLevel::High => "🔴"@,
        RiskLevel::Critical => "🚨"@,
    }
}

/// The mark beside a fix.
pub fn risk_icon(r: RiskLevel) -> (t: &'static str)
    ensures
        t@ == risk_mark(r),
{
    match r {
        RiskLevel::Safe => "🟢",
        RiskLevel::Low => "🟡",
        RiskLevel::Medium => "🟠",
        RiskLevel::High => "🔴",
        RiskLevel::Critical => "🚨",
    }
}

/// The mark beside a fix result: a dry run that would work, a fix that
/// worked, or one that did not.
pub fn fix_result_icon(success: bool, dry_run: bool) -> (t: &'static str)
    ensures
        success && dry_run ==> t@ == "🔍"@,
        success && !dry_run ==> t@ == "✅"@,
        !success ==> t@ == "❌"@,
{
    if success {
        if dry_run {
            "🔍"
        } else {
            "✅"
        }
    } else {
        "❌"
    }
}

/// What each diagnostic item checks.
pub open spec fn item_description_text(item: Seq<char>) -> Seq<char> {
    if item == "instance_state"@ {
        "Check EC2 instance existence and state"@
    } else if item == "ssm_agent_enhanced"@ {
        "Enhanced SSM agent diagnostics with version analysis and registration details"@
    } else if item == "iam_permissions"@ {
        "Validate IAM roles and permissions"@
    } else if item == "vpc_endpoints"@ {
        "Check VPC endpoints for SSM connectivity"@
    } else if item == "security_groups"@ {
        "Verify security group rules"@
    } else if item == "network_connectivity"@ {
        "Test network connectivity to AWS services"@
    } else if item == "local_port_availability"@ {
        "Check local port availability for forwarding"@
    } else {
        "Unknown diagnostic item"@
    }
}

/// What a diagnostic item checks.
pub fn item_description(item: &str) -> (t: &'static str)
    ensures
        t@ == item_description_text(item@),
{
    if str_eq(item, "instance_state") {
        "Check EC2 instance existence and state"
    } else if str_eq(item, "ssm_agent_enhanced") {
        "Enhanced SSM agent diagnostics with version analysis and registration details"
    } else if str_eq(item, "iam_permissions") {
        "Validate IAM roles and permissions"
    } else if str_eq(item, "vpc_endpoints") {
        "Check VPC endpoints for SSM connectivity"
    } else if str_eq(item, "security_groups") {
        "Verify security group rules"
    } else if str_eq(item, "network_connectivity") {
        "Test network connectivity to AWS services"
    } else if str_eq(item, "local_port_availability") {
        "Check local port availability for forwarding"
    } else {
        "Unknown diagnostic item"
    }
}

// ---------------------------------------------------------------------------
// Text written to an output file
// ---------------------------------------------------------------------------

/// The text report of a pre-connection check.
pub open spec fn precheck_report_text(instance_id: Seq<char>, rs: Seq<DiagnosticResult>) -> Seq<char> {
    "Pre-connection Check Results for "@ + instance_id + "\n"@ + joined(
        rs.map_values(|r: DiagnosticResult| result_line(r)),
        "\n"@,
    )
}

/// The text report of a pre-connection check: a title line, then a line
/// "name: message" per result.
pub fn precheck_report(instance_id: &str, rs: &Vec<DiagnosticResult>) -> (t: String)
    ensures
        t@ == precheck_report_text(instance_id@, rs@),
{
    let lines = result_lines(rs);
    let body = join_strings(&lines, "\n");
    let head = concat3("Pre-connection Check Results for ", instance_id, "\n");
    let mut t = head;
    t.append(body.as_str());
    t
}

/// One line of the fix report: the fix's description and the message.
pub open spec fn fix_line(r: FixResult) -> Seq<char> {
    r.action.description@ + ": "@ + r.message@
}

/// The text report of a fix run.
pub open spec fn fix_report_text(instance_id: Seq<char>, rs: Seq<FixResult>) -> Seq<char> {
    "Auto-fix Results for "@ + instance_id + "\n"@ + joined(
        rs.map_values(|r: FixResult| fix_line(r)),
        "\n"@,
    )
}

proof fn lemma_strings_push(v: Seq<String>, s: String)
    ensures
        strings_view(v.push(s)) == strings_view(v).push(s@),
{
    assert(strings_view(v.push(s)) =~= strings_view(v).push(s@));
}

/// The text report of a fix run: a title line, then a line per fix.
pub fn fix_report(instance_id: &str, rs: &Vec<FixResult>) -> (t: String)
    ensures
        t@ == fix_report_text(instance_id@, rs@),
{
    let mut lines: Vec<String> = Vec::new();
    let mut i: usize = 0;
    while i < rs.len()
        invariant
            i <= rs.len(),
            strings_view(lines@) == rs@.subrange(0, i as int).map_values(|r: FixResult| fix_line(r)),
        decreases rs.len() - i,
    {
        let line = concat3(rs[i].action.description.as_str(), ": ", rs[i].message.as_str());
        let ghost before = lines@;
        let ghost l = line;
        lines.push(line);
        proof {
            lemma_strings_push(before, l);
            assert(rs@.subrange(0, i + 1).map_values(|r: FixResult| fix_line(r)) =~= rs@.subrange(
                0,
                i as int,
            ).map_values(|r: FixResult| fix_line(r)).push(fix_line(rs@[i as int])));
        }
        i = i + 1;
    }
    assert(rs@.subrange(0, rs.len() as int) =~= rs@);
    let body = join_strings(&lines, "\n");
    let mut t = concat3("Auto-fix Results for ", instance_id, "\n");
    t.append(body.as_str());
    t
}

/// Law: the counts of a run never exceed the number of results, and the
/// three statuses that are counted add up to at most that number.
pub proof fn lemma_tally_bounded(rs: Seq<DiagnosticResult>)
    ensures
        count_status(rs, DiagnosticStatus::Success) + count_status(rs, DiagnosticStatus::Warning)
            + count_status(rs, DiagnosticStatus::Error) <= rs.len(),
        count_critical_errors(rs) <= count_status(rs, DiagnosticStatus::Error),
    decreases rs.len(),
{
    if rs.len() > 0 {
        lemma_tally_bounded(rs.drop_last());
    }
}

/// Law: a connection may proceed after a pre-connection check exactly when
/// no result is a failure of critical or high severity; a single such
/// failure stops it, and warnings or failures of lower severity do not.
pub proof fn lemma_connection_blocked_by_serious_failures(rs: Seq<DiagnosticResult>)
    ensures
        (forall|i: int| 0 <= i < rs.len() ==> !blocks_connection(#[trigger] rs[i])) <==> (forall|i: int|
            0 <= i < rs.len() ==> !(#[trigger] rs[i].status == DiagnosticStatus::Error && (rs[i].severity
                == Severity::Critical || rs[i].severity == Severity::High))),
        forall|r: DiagnosticResult|
            #![trigger blocks_connection(r)]
            r.status == DiagnosticStatus::Error && (r.severity == Severity::Critical || r.severity
                == Severity::High) ==> blocks_connection(r),
        forall|r: DiagnosticResult|
            #![trigger blocks_connection(r)]
            r.status != DiagnosticStatus::Error ==> !blocks_connection(r),
        forall|r: DiagnosticResult|
            #![trigger blocks_connection(r)]
            r.severity != Severity::Critical && r.severity != Severity::High ==> !blocks_connection(r),
{
    assert forall|i: int| 0 <= i < rs.len() implies (!blocks_connection(rs[i]) <==> !(rs[i].status
        == DiagnosticStatus::Error && (rs[i].severity == Severity::Critical || rs[i].severity
        == Severity::High))) by {}
}

/// Law: the four statuses split the results, so their counts add up to
/// the number of results; a status is counted exactly when some result has
/// it, and critical errors are counted exactly when some result is a
/// failure of critical severity.
pub proof fn lemma_tally_counts_what_is_there(rs: Seq<DiagnosticResult>, st: DiagnosticStatus)
    ensures
        count_status(rs, DiagnosticStatus::Success) + count_status(rs, DiagnosticStatus::Warning)
            + count_status(rs, DiagnosticStatus::Error) + count_status(rs, DiagnosticStatus::Skipped)
            == rs.len(),
        count_status(rs, st) > 0 <==> exists|i: int| 0 <= i < rs.len() && #[trigger] rs[i].status == st,
        count_critical_errors(rs) > 0 <==> exists|i: int|
            0 <= i < rs.len() && #[trigger] rs[i].status == DiagnosticStatus::Error && rs[i].severity
                == Severity::Critical,
    decreases rs.len(),
{
    if rs.len() > 0 {
        let p = rs.drop_last();
        lemma_tally_counts_what_is_there(p, st);
        assert forall|i: int| 0 <= i < p.len() implies #[trigger] p[i] == rs[i] by {}
        if count_status(p, st) > 0 {
            let i = choose|i: int| 0 <= i < p.len() && #[trigger] p[i].status == st;
            assert(rs[i].status == st);
        }
        if count_critical_errors(p) > 0 {
            let i = choose|i: int|
                0 <= i < p.len() && #[trigger] p[i].status == DiagnosticStatus::Error && p[i].severity
                    == Severity::Critical;
            assert(rs[i].status == DiagnosticStatus::Error);
        }
        if exists|i: int| 0 <= i < rs.len() && #[trigger] rs[i].status == st {
            let i = choose|i: int| 0 <= i < rs.len() && #[trigger] rs[i].status == st;
            if i < p.len() {
                assert(p[i].status == st);
            }
        }
        if exists|i: int|
            0 <= i < rs.len() && #[trigger] rs[i].status == DiagnosticStatus::Error && rs[i].severity
                == Severity::Critical {
            let i = choose|i: int|
                0 <= i < rs.len() && #[trigger] rs[i].status == DiagnosticStatus::Error && rs[i].severity
                    == Severity::Critical;
            if i < p.len() {
                assert(p[i].status == DiagnosticStatus::Error);
            }
        }
    }
}

} // verus!
