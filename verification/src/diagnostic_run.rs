//! Running the diagnostic checks: which check an item names, the results
//! reported when a check cannot run, how the results of a group of checks
//! are summed up into one, the order in which a sequential run goes
//! through its items, and how the results of a parallel run are put back in
//! item order.

use crate::diagnostic::{
    full_diagnostic_items, precheck_items, DiagnosticResult, DiagnosticStatus, Severity,
};
use crate::json::{json_array, json_empty_object, json_insert, json_is_object, json_member, json_string};
use crate::report::{count_status, status_mark};
use crate::feedback::{result_line, result_lines};
use crate::text::{concat2, concat3, decimal, decimal_string, joined, join_strings, str_eq, strings_view};
use std::time::Duration;
use vstd::prelude::*;

verus! {

/// The checks a diagnostic item runs.
#[derive(Debug, Clone, Copy, PartialEq, Eq, Structural)]
pub enum DiagnosticCheck {
    InstanceState,
    SsmAgent,
    IamPermissions,
    VpcEndpoints,
    SecurityGroups,
    NetworkConnectivity,
    LocalPort,
}

/// The check an item names, if any.
pub open spec fn check_named(item: Seq<char>) -> Option<DiagnosticCheck> {
    if item == "instance_state"@ {
        Some(DiagnosticCheck::InstanceState)
    } else if item == "ssm_agent_enhanced"@ {
        Some(DiagnosticCheck::SsmAgent)
    } else if item == "iam_permissions"@ {
        Some(DiagnosticCheck::IamPermissions)
    } else if item == "vpc_endpoints"@ {
        Some(DiagnosticCheck::VpcEndpoints)
    } else if item == "security_groups"@ {
        Some(DiagnosticCheck::SecurityGroups)
    } else if item == "network_connectivity"@ {
        Some(DiagnosticCheck::NetworkConnectivity)
    } else if item == "local_port_availability"@ {
        Some(DiagnosticCheck::LocalPort)
    } else {
        None
    }
}

/// The check an item names.
pub fn check_for_item(item: &str) -> (c: Option<DiagnosticCheck>)
    ensures
        c == check_named(item@),
{
    if str_eq(item, "instance_state") {
        Some(DiagnosticCheck::InstanceState)
    } else if str_eq(item, "ssm_agent_enhanced") {
        Some(DiagnosticCheck::SsmAgent)
    } else if str_eq(item, "iam_permissions") {
        Some(DiagnosticCheck::IamPermissions)
    } else if str_eq(item, "vpc_endpoints") {
        Some(DiagnosticCheck::VpcEndpoints)
    } else if str_eq(item, "security_groups") {
        Some(DiagnosticCheck::SecurityGroups)
    } else if str_eq(item, "network_connectivity") {
        Some(DiagnosticCheck::NetworkConnectivity)
    } else if str_eq(item, "local_port_availability") {
        Some(DiagnosticCheck::LocalPort)
    } else {
        None
    }
}

/// Law: every item of a full run, and of a pre-connection check, names a
/// check.
pub proof fn lemma_run_items_name_checks(i: int)
    ensures
        0 <= i < full_diagnostic_items().len() ==> check_named(full_diagnostic_items()[i]) is Some,
        0 <= i < precheck_items().len() ==> check_named(precheck_items()[i]) is Some,
{
    reveal_strlit("instance_state");
    reveal_strlit("ssm_agent_enhanced");
    reveal_strlit("iam_permissions");
    reveal_strlit("vpc_endpoints");
    reveal_strlit("security_groups");
    reveal_strlit("network_connectivity");
    reveal_strlit("local_port_availability");
}

/// The result of an item that names no check: a low-severity error.
pub fn unknown_item_result(item: &str, duration: Duration) -> (r: DiagnosticResult)
    ensures
        r.item_name@ == item@,
        r.status == DiagnosticStatus::Error,
        r.severity == Severity::Low,
        r.message@ == "Unknown diagnostic item: "@ + item@,
        r.details is None,
        !r.auto_fixable,
        r.duration == duration,
{
    DiagnosticResult::error(String::from_str(item), concat2("Unknown diagnostic item: ", item), duration, Severity::Low)
}

/// The check a request for one diagnostic item runs: the check the item
/// names, which is one of the items of a full run; an item that is not one
/// of them is refused before any check runs.
pub fn specific_check(item: &str) -> (r: Result<DiagnosticCheck, String>)
    ensures
        match check_named(item@) {
            Some(c) => r == Ok::<DiagnosticCheck, String>(c),
            None => r is Err && r->Err_0@ == "Unknown diagnostic item: "@ + item@,
        },
        r is Ok <==> full_diagnostic_items().contains(item@),
{
    proof {
        let s = full_diagnostic_items();
        if check_named(item@) is Some {
            lemma_named_item_in_full_run(item@);
        } else {
            assert forall|i: int| 0 <= i < s.len() implies s[i] != item@ by {
                lemma_run_items_name_checks(i);
            }
        }
    }
    match check_for_item(item) {
        Some(c) => Ok(c),
        None => Err(concat2("Unknown diagnostic item: ", item)),
    }
}

proof fn lemma_named_item_in_full_run(item: Seq<char>)
    requires
        check_named(item) is Some,
    ensures
        full_diagnostic_items().contains(item),
{
    let s = full_diagnostic_items();
    if item == "instance_state"@ {
        assert(s[0] == item);
    } else if item == "ssm_agent_enhanced"@ {
        assert(s[1] == item);
    } else if item == "iam_permissions"@ {
        assert(s[2] == item);
    } else if item == "vpc_endpoints"@ {
        assert(s[3] == item);
    } else if item == "security_groups"@ {
        assert(s[4] == item);
    } else if item == "network_connectivity"@ {
        assert(s[5] == item);
    } else {
        assert(s[6] == item);
    }
}

/// Where a check failed: creating its client, or running it.
#[derive(Debug, Clone, Copy, PartialEq, Eq, Structural)]
pub enum FailureStage {
    Create,
    Run,
}

/// The item name of a check's result.
pub open spec fn check_item_name(c: DiagnosticCheck) -> Seq<char> {
    match c {
        DiagnosticCheck::InstanceState => "instance_state"@,
        DiagnosticCheck::SsmAgent => "ssm_agent_enhanced"@,
        DiagnosticCheck::IamPermissions => "iam_permissions"@,
        DiagnosticCheck::VpcEndpoints => "vpc_endpoints"@,
        DiagnosticCheck::SecurityGroups => "security_groups"@,
        DiagnosticCheck::NetworkConnectivity => "network_connectivity"@,
        DiagnosticCheck::LocalPort => "local_port_availability"@,
    }
}

/// The message before the error's text when a check fails.
pub open spec fn failure_prefix(c: DiagnosticCheck, s: FailureStage) -> Seq<char> {
    match (c, s) {
        (DiagnosticCheck::InstanceState, FailureStage::Create) => "Failed to create instance diagnostics: "@,
        (DiagnosticCheck::InstanceState, FailureStage::Run) => "Instance state check failed: "@,
        (DiagnosticCheck::SsmAgent, FailureStage::Create) => "Failed to create SSM agent diagnostics: "@,
        (DiagnosticCheck::SsmAgent, FailureStage::Run) => "Enhanced SSM agent diagnostics failed: "@,
        (DiagnosticCheck::IamPermissions, FailureStage::Create) => "Failed to create IAM diagnostics: "@,
        (DiagnosticCheck::IamPermissions, FailureStage::Run) => "IAM diagnostics failed: "@,
        (DiagnosticCheck::VpcEndpoints, FailureStage::Create) => "Failed to create network diagnostics: "@,
        (DiagnosticCheck::VpcEndpoints, FailureStage::Run) => "VPC endpoints check failed: "@,
        (DiagnosticCheck::SecurityGroups, FailureStage::Create) => "Failed to create network diagnostics: "@,
        (DiagnosticCheck::SecurityGroups, FailureStage::Run) => "Security groups check failed: "@,
        (DiagnosticCheck::NetworkConnectivity, FailureStage::Create) => "Failed to create network diagnostics: "@,
        (DiagnosticCheck::NetworkConnectivity, FailureStage::Run) => "Network connectivity check failed: "@,
        (DiagnosticCheck::LocalPort, _) => "Local port check failed: "@,
    }
}

fn item_name_of(c: DiagnosticCheck) -> (t: &'static str)
    ensures
        t@ == check_item_name(c),
{
    match c {
        DiagnosticCheck::InstanceState => "instance_state",
        DiagnosticCheck::SsmAgent => "ssm_agent_enhanced",
        DiagnosticCheck::IamPermissions => "iam_permissions",
        DiagnosticCheck::VpcEndpoints => "vpc_endpoints",
        DiagnosticCheck::SecurityGroups => "security_groups",
        DiagnosticCheck::NetworkConnectivity => "network_connectivity",
        DiagnosticCheck::LocalPort => "local_port_availability",
    }
}

fn failure_prefix_of(c: DiagnosticCheck, s: FailureStage) -> (t: &'static str)
    ensures
        t@ == failure_prefix(c, s),
{
    match (c, s) {
        (DiagnosticCheck::InstanceState, FailureStage::Create) => "Failed to create instance diagnostics: ",
        (DiagnosticCheck::InstanceState, FailureStage::Run) => "Instance state check failed: ",
        (DiagnosticCheck::SsmAgent, FailureStage::Create) => "Failed to create SSM agent diagnostics: ",
        (DiagnosticCheck::SsmAgent, FailureStage::Run) => "Enhanced SSM agent diagnostics failed: ",
        (DiagnosticCheck::IamPermissions, FailureStage::Create) => "Failed to create IAM diagnostics: ",
        (DiagnosticCheck::IamPermissions, FailureStage::Run) => "IAM diagnostics failed: ",
        (DiagnosticCheck::VpcEndpoints, FailureStage::Create) => "Failed to create network diagnostics: ",
        (DiagnosticCheck::VpcEndpoints, FailureStage::Run) => "VPC endpoints check failed: ",
        (DiagnosticCheck::SecurityGroups, FailureStage::Create) => "Failed to create network diagnostics: ",
        (DiagnosticCheck::SecurityGroups, FailureStage::Run) => "Security groups check failed: ",
        (DiagnosticCheck::NetworkConnectivity, FailureStage::Create) => "Failed to create network diagnostics: ",
        (DiagnosticCheck::NetworkConnectivity, FailureStage::Run) => "Network connectivity check failed: ",
        (DiagnosticCheck::LocalPort, _) => "Local port check failed: ",
    }
}

/// The result of a check that could not run: a high-severity error naming
/// the stage that failed and the error.
pub fn check_failure_result(c: DiagnosticCheck, stage: FailureStage, error: &str, duration: Duration) -> (r: DiagnosticResult)
    ensures
        r.item_name@ == check_item_name(c),
        r.status == DiagnosticStatus::Error,
        r.severity == Severity::High,
        r.message@ == failure_prefix(c, stage) + error@,
        r.details is None,
        !r.auto_fixable,
        r.duration == duration,
{
    DiagnosticResult::error(
        String::from_str(item_name_of(c)),
        concat2(failure_prefix_of(c, stage), error),
        duration,
        Severity::High,
    )
}

/// The result of the local port check when no port was given: it is
/// skipped, successfully.
pub fn no_port_result(duration: Duration) -> (r: DiagnosticResult)
    ensures
        r.item_name@ == "local_port_availability"@,
        r.status == DiagnosticStatus::Success,
        r.severity == Severity::Info,
        r.message@ == "No local port specified - skipping port availability check"@,
        r.details is None,
        r.duration == duration,
{
    DiagnosticResult::success(
        String::from_str("local_port_availability"),
        String::from_str("No local port specified - skipping port availability check"),
        duration,
    )
}

// ---------------------------------------------------------------------------
// Summing up a group of results
// ---------------------------------------------------------------------------

/// The status of a group: an error if any failed, else a warning if any
/// warned, else success.
pub open spec fn group_status(rs: Seq<DiagnosticResult>) -> DiagnosticStatus {
    if count_status(rs, DiagnosticStatus::Error) > 0 {
        DiagnosticStatus::Error
    } else if count_status(rs, DiagnosticStatus::Warning) > 0 {
        DiagnosticStatus::Warning
    } else {
        DiagnosticStatus::Success
    }
}

/// The summary line of a group: how many checks, and how many of each
/// outcome.
pub open spec fn summary_line(label: Seq<char>, rs: Seq<DiagnosticResult>) -> Seq<char> {
    label + " diagnostics completed: "@ + decimal(rs.len()) + " checks ("@ + decimal(
        count_status(rs, DiagnosticStatus::Success),
    ) + " success, "@ + decimal(count_status(rs, DiagnosticStatus::Warning)) + " warnings, "@
        + decimal(count_status(rs, DiagnosticStatus::Error)) + " errors)"@
}

/// The most severe severity among the results (`Critical` first), or
/// `Info` for no results.
pub open spec fn most_severe(rs: Seq<DiagnosticResult>) -> Severity
    decreases rs.len(),
{
    if rs.len() == 0 {
        Severity::Info
    } else {
        let before = most_severe(rs.drop_last());
        if crate::diagnostic::severity_rank(rs.last().severity) < crate::diagnostic::severity_rank(before) {
            rs.last().severity
        } else {
            before
        }
    }
}

/// The details a group's summary holds under a name: those of the last
/// result of that name that has details.
pub open spec fn details_under(rs: Seq<DiagnosticResult>, name: Seq<char>) -> Option<serde_json::Value>
    decreases rs.len(),
{
    if rs.len() == 0 {
        None
    } else if rs.last().item_name@ == name && rs.last().details is Some {
        rs.last().details
    } else {
        details_under(rs.drop_last(), name)
    }
}

/// The details of a group's summary: an object holding each result's
/// details under its name, and under `detailed_messages` an array of the
/// strings "name: message", one per result in order.
pub open spec fn group_details(rs: Seq<DiagnosticResult>, d: serde_json::Value) -> bool {
    &&& json_is_object(d)
    &&& forall|k: Seq<char>|
        k != "detailed_messages"@ ==> #[trigger] json_member(d, k) == details_under(rs, k)
    &&& exists|vs: Seq<serde_json::Value>|
        {
            &&& json_member(d, "detailed_messages"@) == Some(crate::json::json_array_of(vs))
            &&& vs.len() == rs.len()
            &&& forall|i: int|
                0 <= i < vs.len() ==> crate::json::json_as_str(#[trigger] vs[i]) == Some(
                    result_line(rs[i]),
                )
        }
}

/// One result summing up a group of results: its status follows the worst
/// outcome, its severity is the most severe of the results, its message
/// counts the outcomes, it is fixable when something
/// failed or warned, and its details hold each result's details under its
/// name and the lines "name: message" under `detailed_messages`.
pub fn summarize_group(
    label: &str,
    item_name: &str,
    rs: &Vec<DiagnosticResult>,
    duration: Duration,
) -> (r: DiagnosticResult)
    ensures
        r.item_name@ == item_name@,
        r.status == group_status(rs@),
        r.message@ == summary_line(label@, rs@),
        r.severity == most_severe(rs@),
        r.auto_fixable == (count_status(rs@, DiagnosticStatus::Error) > 0 || count_status(
            rs@,
            DiagnosticStatus::Warning,
        ) > 0),
        r.duration == duration,
        r.details is Some,
        group_details(rs@, r.details->0),
{
    let t = crate::report::tally_results(rs);
    let mut details = json_empty_object();
    let mut highest = Severity::Info;
    let mut i: usize = 0;
    while i < rs.len()
        invariant
            i <= rs@.len(),
            highest == most_severe(rs@.subrange(0, i as int)),
            json_is_object(details),
            forall|k: Seq<char>|
                #[trigger] json_member(details, k) == details_under(rs@.subrange(0, i as int), k),
        decreases rs.len() - i,
    {
        assert(rs@.subrange(0, i + 1).drop_last() =~= rs@.subrange(0, i as int));
        assert(rs@.subrange(0, i + 1).last() == rs@[i as int]);
        let r = &rs[i];
        if crate::diagnostic::severity_rank_of(r.severity) < crate::diagnostic::severity_rank_of(highest) {
            highest = r.severity;
        }
        match &r.details {
            Some(d) => {
                json_insert(&mut details, r.item_name.clone(), d.clone());
            },
            None => {},
        }
        i = i + 1;
    }
    assert(rs@.subrange(0, rs@.len() as int) =~= rs@);
    let lines = result_lines(rs);
    assert(strings_view(lines@).len() == lines@.len());
    let mut values: Vec<serde_json::Value> = Vec::new();
    let mut k: usize = 0;
    while k < lines.len()
        invariant
            k <= lines@.len(),
            strings_view(lines@) == rs@.map_values(|r: DiagnosticResult| result_line(r)),
            lines@.len() == rs@.len(),
            values@.len() == k,
            forall|j: int|
                0 <= j < k ==> crate::json::json_as_str(#[trigger] values@[j]) == Some(
                    result_line(rs@[j]),
                ),
        decreases lines.len() - k,
    {
        let v = json_string(lines[k].clone());
        proof {
            assert(strings_view(lines@)[k as int] == lines@[k as int]@);
            assert(rs@.map_values(|r: DiagnosticResult| result_line(r))[k as int] == result_line(
                rs@[k as int],
            ));
        }
        values.push(v);
        k = k + 1;
    }
    let ghost before = details;
    let ghost vs = values@;
    let array = json_array(values);
    json_insert(&mut details, String::from_str("detailed_messages"), array);
    proof {
        assert forall|key: Seq<char>| key != "detailed_messages"@ implies #[trigger] json_member(
            details,
            key,
        ) == details_under(rs@, key) by {
            assert(json_member(before, key) == details_under(rs@.subrange(0, rs@.len() as int), key));
        }
        assert(json_member(details, "detailed_messages"@) == Some(crate::json::json_array_of(vs)));
        assert(group_details(rs@, details));
    }
    let status = if t.error > 0 {
        DiagnosticStatus::Error
    } else if t.warning > 0 {
        DiagnosticStatus::Warning
    } else {
        DiagnosticStatus::Success
    };
    let n = decimal_string(t.total as u64);
    let s = decimal_string(t.success as u64);
    let w = decimal_string(t.warning as u64);
    let e = decimal_string(t.error as u64);
    let m1 = concat3(label, " diagnostics completed: ", n.as_str());
    let m2 = concat3(m1.as_str(), " checks (", s.as_str());
    let m3 = concat3(m2.as_str(), " success, ", w.as_str());
    let m4 = concat3(m3.as_str(), " warnings, ", e.as_str());
    let message = concat2(m4.as_str(), " errors)");
    proof {
        assert(message@ =~= summary_line(label@, rs@));
    }
    DiagnosticResult {
        item_name: String::from_str(item_name),
        status,
        message,
        details: Some(details),
        duration,
        severity: highest,
        auto_fixable: t.error > 0 || t.warning > 0,
    }
}

/// One line of the IAM overview: the mark of the result's status, its name
/// and its message.
pub open spec fn marked_line(r: DiagnosticResult) -> Seq<char> {
    status_mark(r.status) + " "@ + result_line(r)
}

/// The IAM overview of the parallel run: the marked lines joined by new
/// lines, under a heading that follows the worst outcome; errors make it a
/// critical error, warnings a medium warning.
pub fn iam_overview_result(rs: &Vec<DiagnosticResult>, duration: Duration) -> (r: DiagnosticResult)
    ensures
        r.item_name@ == "iam_permissions"@,
        r.status == group_status(rs@),
        r.details is None,
        !r.auto_fixable,
        r.duration == duration,
        r.message@ == (match group_status(rs@) {
            DiagnosticStatus::Error => "IAM configuration issues detected:\n"@,
            DiagnosticStatus::Warning => "IAM configuration warnings:\n"@,
            _ => "IAM configuration verified:\n"@,
        }) + joined(rs@.map_values(|x: DiagnosticResult| marked_line(x)), "\n"@),
        r.severity == (match group_status(rs@) {
            DiagnosticStatus::Error => Severity::Critical,
            DiagnosticStatus::Warning => Severity::Medium,
            _ => Severity::Info,
        }),
{
    let mut lines: Vec<String> = Vec::new();
    let mut i: usize = 0;
    while i < rs.len()
        invariant
            i <= rs@.len(),
            strings_view(lines@) == rs@.subrange(0, i as int).map_values(|x: DiagnosticResult| marked_line(x)),
        decreases rs.len() - i,
    {
        let x = &rs[i];
        let mark = crate::report::status_icon(x.status);
        let head = concat3(mark, " ", x.item_name.as_str());
        let line = concat3(head.as_str(), ": ", x.message.as_str());
        let ghost before = lines@;
        let ghost l = line;
        lines.push(line);
        proof {
            assert(l@ =~= marked_line(rs@[i as int]));
            assert(strings_view(lines@) =~= strings_view(before).push(l@));
            assert(rs@.subrange(0, i + 1).map_values(|x: DiagnosticResult| marked_line(x)) =~= rs@.subrange(
                0,
                i as int,
            ).map_values(|x: DiagnosticResult| marked_line(x)).push(marked_line(rs@[i as int])));
        }
        i = i + 1;
    }
    assert(rs@.subrange(0, rs@.len() as int) =~= rs@);
    let body = join_strings(&lines, "\n");
    let t = crate::report::tally_results(rs);
    if t.error > 0 {
        DiagnosticResult::error(
            String::from_str("iam_permissions"),
            concat2("IAM configuration issues detected:\n", body.as_str()),
            duration,
            Severity::Critical,
        )
    } else if t.warning > 0 {
        DiagnosticResult::warning(
            String::from_str("iam_permissions"),
            concat2("IAM configuration warnings:\n", body.as_str()),
            duration,
            Severity::Medium,
        )
    } else {
        DiagnosticResult::success(
            String::from_str("iam_permissions"),
            concat2("IAM configuration verified:\n", body.as_str()),
            duration,
        )
    }
}

// ---------------------------------------------------------------------------
// A sequential run
// ---------------------------------------------------------------------------

/// What a sequential run asks for next.
#[derive(Debug)]
pub enum RunStep {
    /// Report progress (the item, how many are done, how many in all) and
    /// run the item.
    RunItem { item: String, completed: usize, total: usize },
    /// Every item ran: report the final progress under this label, with all
    /// items done.
    Finished { label: String, total: usize },
}

/// The progress report a sequential run makes once `m` results are
/// recorded: the item it runs next, how many are done and how many in all,
/// and whether the report is the final one, which carries the label and
/// counts every item done.
pub open spec fn sequential_report(items: Seq<Seq<char>>, label: Seq<char>, m: nat) -> (Seq<char>, nat, nat, bool) {
    if m < items.len() {
        (items[m as int], m, items.len(), false)
    } else {
        (label, items.len(), items.len(), true)
    }
}

/// The report a step makes.
pub open spec fn step_report(s: RunStep) -> (Seq<char>, nat, nat, bool) {
    match s {
        RunStep::RunItem { item, completed, total } => (item@, completed as nat, total as nat, false),
        RunStep::Finished { label, total } => (label@, total as nat, total as nat, true),
    }
}

/// Law: a sequential run of `n` items, whose runner records one result
/// after each item it is told to run, makes exactly `n + 1` progress
/// reports: the `k`-th names item `k` with `k` of `n` done and comes
/// before that item runs, and the last carries the final label with `n` of
/// `n` done.
pub proof fn lemma_sequential_run_reports(items: Seq<Seq<char>>, label: Seq<char>)
    ensures
        forall|k: nat|
            k < items.len() ==> #[trigger] sequential_report(items, label, k) == (
                items[k as int],
                k,
                items.len(),
                false,
            ),
        sequential_report(items, label, items.len()) == (label, items.len(), items.len(), true),
        forall|k: nat| k <= items.len() ==> (#[trigger] sequential_report(items, label, k).3 <==> k == items.len()),
{
}

/// A sequential diagnostic run: its items, and the results so far.
#[derive(Debug)]
pub struct SequentialRun {
    items: Vec<String>,
    results: Vec<DiagnosticResult>,
    final_label: String,
}

impl View for SequentialRun {
    type V = (Seq<Seq<char>>, Seq<DiagnosticResult>, Seq<char>);

    closed spec fn view(&self) -> (Seq<Seq<char>>, Seq<DiagnosticResult>, Seq<char>) {
        (strings_view(self.items@), self.results@, self.final_label@)
    }
}

impl SequentialRun {
    /// A run of the given items, whose final progress carries the label.
    pub fn new(items: Vec<String>, final_label: String) -> (r: Self)
        ensures
            r@ == (strings_view(items@), Seq::<DiagnosticResult>::empty(), final_label@),
    {
        SequentialRun { items, results: Vec::new(), final_label }
    }

    /// A full run: all items, finishing with "Completed".
    pub fn full() -> (r: Self)
        ensures
            r@ == (full_diagnostic_items(), Seq::<DiagnosticResult>::empty(), "Completed"@),
    {
        let items = crate::diagnostic::diagnostic_items();
        SequentialRun::new(items, String::from_str("Completed"))
    }

    /// A pre-connection check, finishing with "Precheck Completed".
    pub fn precheck() -> (r: Self)
        ensures
            r@ == (precheck_items(), Seq::<DiagnosticResult>::empty(), "Precheck Completed"@),
    {
        let items = crate::diagnostic::precheck_item_names();
        SequentialRun::new(items, String::from_str("Precheck Completed"))
    }

    /// What to do next: the next item, or the end.
    pub fn next_step(&self) -> (s: RunStep)
        ensures
            self@.1.len() < self@.0.len() ==> s is RunItem && s->item@ == self@.0[self@.1.len() as int]
                && s->completed == self@.1.len() && s->RunItem_total == self@.0.len(),
            self@.1.len() >= self@.0.len() ==> s is Finished && s->label@ == self@.2 && s->Finished_total
                == self@.0.len(),
            step_report(s) == sequential_report(self@.0, self@.2, self@.1.len()),
    {
        let n = self.results.len();
        if n < self.items.len() {
            RunStep::RunItem { item: self.items[n].clone(), completed: n, total: self.items.len() }
        } else {
            RunStep::Finished { label: self.final_label.clone(), total: self.items.len() }
        }
    }

    /// Records the result of the item that ran.
    pub fn record(&mut self, result: DiagnosticResult)
        ensures
            final(self)@ == (old(self)@.0, old(self)@.1.push(result), old(self)@.2),
    {
        self.results.push(result);
    }

    /// The results, in the order of the items.
    pub fn into_results(self) -> (v: Vec<DiagnosticResult>)
        ensures
            v@ == self@.1,
    {
        self.results
    }
}

// ---------------------------------------------------------------------------
// Parallel runs
// ---------------------------------------------------------------------------

/// Whether the task result at position `a` goes before the one at `b`: a
/// lower item index first, and of two with the same index the one that
/// came first.
pub open spec fn goes_before(pairs: Seq<(usize, DiagnosticResult)>, a: int, b: int) -> bool {
    pairs[a].0 < pairs[b].0 || (pairs[a].0 == pairs[b].0 && a < b)
}

/// Whether `order` lists the positions of `pairs` each once, sorted by item
/// index and, for equal indices, by position, and `out` holds the results
/// in that order.
pub open spec fn in_item_order(pairs: Seq<(usize, DiagnosticResult)>, order: Seq<int>, out: Seq<DiagnosticResult>) -> bool {
    &&& order.len() == pairs.len()
    &&& out.len() == pairs.len()
    &&& forall|i: int| 0 <= i < order.len() ==> 0 <= #[trigger] order[i] < pairs.len()
    &&& forall|i: int| 0 <= i < out.len() ==> #[trigger] out[i] == pairs[order[i]].1
    &&& forall|i: int, j: int|
        0 <= i < j < order.len() ==> goes_before(pairs, #[trigger] order[i], #[trigger] order[j])
}

/// The results of a parallel run, whose tasks report each result with the
/// index of its item, put back in the order of the items: sorted by index,
/// results with the same index in the order they came.
pub fn results_in_item_order(pairs: &Vec<(usize, DiagnosticResult)>) -> (out: Vec<DiagnosticResult>)
    ensures
        exists|order: Seq<int>| in_item_order(pairs@, order, out@),
{
    let n = pairs.len();
    let mut keys: Vec<usize> = Vec::new();
    let mut out: Vec<DiagnosticResult> = Vec::new();
    let ghost mut order: Seq<int> = Seq::empty();
    let mut k: usize = 0;
    while k < n
        invariant
            n == pairs.len(),
            k <= n,
            keys.len() == k,
            out.len() == k,
            order.len() == k,
            forall|i: int| 0 <= i < k ==> 0 <= #[trigger] order[i] < k,
            forall|i: int| 0 <= i < k ==> #[trigger] keys[i] == pairs@[order[i]].0,
            forall|i: int| 0 <= i < k ==> #[trigger] out@[i] == pairs@[order[i]].1,
            forall|i: int, j: int|
                0 <= i < j < k ==> goes_before(pairs@, #[trigger] order[i], #[trigger] order[j]),
        decreases n - k,
    {
        let key = pairs[k].0;
        let mut pos: usize = 0;
        while pos < keys.len() && keys[pos] <= key
            invariant
                keys.len() == k,
                pos <= k,
                forall|t: int| 0 <= t < pos ==> #[trigger] keys@[t] <= key,
            decreases k - pos,
        {
            pos = pos + 1;
        }
        proof {
            assert forall|t: int| pos <= t < k implies #[trigger] keys@[t] > key by {
                if t > pos {
                    assert(goes_before(pairs@, order[pos as int], order[t]));
                }
            }
        }
        let r = pairs[k].1.clone();
        let ghost old_order = order;
        keys.insert(pos, key);
        out.insert(pos, r);
        proof {
            order = old_order.insert(pos as int, k as int);
            assert forall|i: int, j: int| 0 <= i < j < k + 1 implies goes_before(
                pairs@,
                #[trigger] order[i],
                #[trigger] order[j],
            ) by {
                if j < pos {
                    assert(goes_before(pairs@, old_order[i], old_order[j]));
                } else if j == pos {
                    assert(keys@[i] <= key);
                } else if i < pos {
                    assert(goes_before(pairs@, old_order[i], old_order[j - 1]));
                } else if i == pos {
                    assert(keys@[j] > key);
                } else {
                    assert(goes_before(pairs@, old_order[i - 1], old_order[j - 1]));
                }
            }
        }
        k = k + 1;
    }
    proof {
        assert(in_item_order(pairs@, order, out@));
    }
    out
}

/// Law: a group's summary is as severe as its most severe result: no
/// result is more severe than the summary, and the summary's severity is
/// that of one of the results (`Info` for an empty group). Its status is an
/// error exactly when some result failed, a warning exactly when none
/// failed and some warned, and a success otherwise.
pub proof fn lemma_group_summary_follows_the_worst(rs: Seq<DiagnosticResult>)
    ensures
        forall|i: int|
            0 <= i < rs.len() ==> crate::diagnostic::severity_rank(most_severe(rs))
                <= crate::diagnostic::severity_rank(#[trigger] rs[i].severity),
        rs.len() == 0 ==> most_severe(rs) == Severity::Info,
        rs.len() > 0 ==> most_severe(rs) == Severity::Info || exists|i: int|
            0 <= i < rs.len() && #[trigger] rs[i].severity == most_severe(rs),
        (group_status(rs) == DiagnosticStatus::Error) <==> exists|i: int|
            0 <= i < rs.len() && #[trigger] rs[i].status == DiagnosticStatus::Error,
        (group_status(rs) == DiagnosticStatus::Warning) <==> (!(exists|i: int|
            0 <= i < rs.len() && #[trigger] rs[i].status == DiagnosticStatus::Error) && exists|i: int|
            0 <= i < rs.len() && #[trigger] rs[i].status == DiagnosticStatus::Warning),
    decreases rs.len(),
{
    crate::report::lemma_tally_counts_what_is_there(rs, DiagnosticStatus::Error);
    crate::report::lemma_tally_counts_what_is_there(rs, DiagnosticStatus::Warning);
    if rs.len() > 0 {
        let p = rs.drop_last();
        lemma_group_summary_follows_the_worst(p);
        assert forall|i: int| 0 <= i < p.len() implies #[trigger] p[i] == rs[i] by {}
        if p.len() > 0 && most_severe(p) != Severity::Info {
            let i = choose|i: int| 0 <= i < p.len() && #[trigger] p[i].severity == most_severe(p);
            assert(rs[i].severity == most_severe(p));
        }
        assert(rs[rs.len() - 1] == rs.last());
        assert forall|i: int| 0 <= i < rs.len() implies crate::diagnostic::severity_rank(most_severe(rs))
            <= crate::diagnostic::severity_rank(#[trigger] rs[i].severity) by {
            if i < p.len() {
                assert(crate::diagnostic::severity_rank(most_severe(p)) <= crate::diagnostic::severity_rank(
                    p[i].severity,
                ));
            }
        }
    }
}

} // verus!
