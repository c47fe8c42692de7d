//! Planning of automatic fixes: which fix each diagnostic finding calls for,
//! how risky each fix is, the order in which fixes are offered, and the
//! decisions taken while a fix runs.

use crate::diagnostic::{DiagnosticResult, DiagnosticStatus};
use crate::json::{json_member, json_str_at, json_u64_at, str_member, u64_member, json_get};
use crate::text::{
    concat2, concat3, contains, decimal, decimal_string, parse_u32, parse_unsigned, starts_with,
    str_contains, str_eq, str_starts_with, chars_of, clone_strings, opt_view, strings_view,
};
use crate::time::duration_nanos;
use std::time::Duration;
use vstd::prelude::*;

verus! {

/// What the SSM service reports about the agent of an instance.
#[derive(Debug, Clone)]
pub struct SsmAgentState {
    pub registered: bool,
    pub ping_status: String,
    pub agent_version: String,
    pub last_ping_time: String,
}

/// Health of the SSM agent after a restart.
#[derive(Debug, Clone)]
pub enum SsmAgentHealthStatus {
    Healthy,
    Unhealthy(String),
    Unknown,
}

/// Kinds of fix.
#[derive(Debug, Clone, Copy, PartialEq, Eq, Structural)]
pub enum FixActionType {
    StartInstance,
    RestartSsmAgent,
    UpdateCredentials,
    RestoreConfig,
    TerminateProcess,
    CreateVpcEndpoint,
    UpdateSecurityGroup,
    SuggestManualFix,
}

/// Risk of a fix, declared and ordered from the safest to the most risky.
#[derive(Debug, Clone, Copy, PartialEq, Eq, PartialOrd, Ord, Structural)]
pub enum RiskLevel {
    Safe,
    Low,
    Medium,
    High,
    Critical,
}

/// The position of a risk level in its declaration order, which `<`
/// follows.
pub open spec fn risk_rank(r: RiskLevel) -> nat {
    match r {
        RiskLevel::Safe => 0,
        RiskLevel::Low => 1,
        RiskLevel::Medium => 2,
        RiskLevel::High => 3,
        RiskLevel::Critical => 4,
    }
}

fn risk_rank_of(r: RiskLevel) -> (n: u8)
    ensures
        n as nat == risk_rank(r),
{
    match r {
        RiskLevel::Safe => 0,
        RiskLevel::Low => 1,
        RiskLevel::Medium => 2,
        RiskLevel::High => 3,
        RiskLevel::Critical => 4,
    }
}

/// A fix that can be applied to resolve a finding.
#[derive(Debug)]
pub struct FixAction {
    pub action_type: FixActionType,
    pub description: String,
    pub command: Option<String>,
    pub requires_confirmation: bool,
    pub risk_level: RiskLevel,
    pub estimated_duration: Duration,
    pub target_resource: String,
    pub prerequisites: Vec<String>,
}

/// The content of a fix action.
pub struct FixActionView {
    pub action_type: FixActionType,
    pub description: Seq<char>,
    pub command: Option<Seq<char>>,
    pub requires_confirmation: bool,
    pub risk_level: RiskLevel,
    pub estimated_nanos: nat,
    pub target_resource: Seq<char>,
    pub prerequisites: Seq<Seq<char>>,
}

impl View for FixAction {
    type V = FixActionView;

    open spec fn view(&self) -> FixActionView {
        FixActionView {
            action_type: self.action_type,
            description: self.description@,
            command: opt_view(self.command),
            requires_confirmation: self.requires_confirmation,
            risk_level: self.risk_level,
            estimated_nanos: duration_nanos(self.estimated_duration),
            target_resource: self.target_resource@,
            prerequisites: strings_view(self.prerequisites@),
        }
    }
}

/// The views of a sequence of fix actions.
pub open spec fn actions_view(v: Seq<FixAction>) -> Seq<FixActionView> {
    v.map_values(|a: FixAction| a@)
}

fn clone_opt_string(o: &Option<String>) -> (r: Option<String>)
    ensures
        opt_view(r) == opt_view(*o),
{
    match o {
        Some(s) => Some(s.clone()),
        None => None,
    }
}

impl Clone for FixAction {
    fn clone(&self) -> (r: Self)
        ensures
            r@ == self@,
    {
        FixAction {
            action_type: self.action_type,
            description: self.description.clone(),
            command: clone_opt_string(&self.command),
            requires_confirmation: self.requires_confirmation,
            risk_level: self.risk_level,
            estimated_duration: self.estimated_duration.clone(),
            target_resource: self.target_resource.clone(),
            prerequisites: clone_strings(&self.prerequisites),
        }
    }
}

/// Whether a fix of this kind asks for confirmation.
pub open spec fn fix_requires_confirmation(t: FixActionType) -> bool {
    match t {
        FixActionType::StartInstance => false,
        FixActionType::RestartSsmAgent => true,
        FixActionType::UpdateCredentials => false,
        FixActionType::RestoreConfig => true,
        FixActionType::TerminateProcess => true,
        FixActionType::CreateVpcEndpoint => true,
        FixActionType::UpdateSecurityGroup => true,
        FixActionType::SuggestManualFix => false,
    }
}

/// The risk of a fix of this kind.
pub open spec fn fix_risk(t: FixActionType) -> RiskLevel {
    match t {
        FixActionType::StartInstance => RiskLevel::Low,
        FixActionType::RestartSsmAgent => RiskLevel::Medium,
        FixActionType::UpdateCredentials => RiskLevel::Safe,
        FixActionType::RestoreConfig => RiskLevel::Medium,
        FixActionType::TerminateProcess => RiskLevel::High,
        FixActionType::CreateVpcEndpoint => RiskLevel::High,
        FixActionType::UpdateSecurityGroup => RiskLevel::High,
        FixActionType::SuggestManualFix => RiskLevel::Safe,
    }
}

/// The estimated time a fix of this kind takes, in seconds.
pub open spec fn fix_seconds(t: FixActionType) -> nat {
    match t {
        FixActionType::StartInstance => 300,
        FixActionType::RestartSsmAgent => 30,
        FixActionType::UpdateCredentials => 5,
        FixActionType::RestoreConfig => 10,
        FixActionType::TerminateProcess => 5,
        FixActionType::CreateVpcEndpoint => 300,
        FixActionType::UpdateSecurityGroup => 30,
        FixActionType::SuggestManualFix => 0,
    }
}

/// A new fix action of the given kind, without command or prerequisites.
pub open spec fn new_fix(t: FixActionType, description: Seq<char>, target: Seq<char>) -> FixActionView {
    FixActionView {
        action_type: t,
        description: description,
        command: None,
        requires_confirmation: fix_requires_confirmation(t),
        risk_level: fix_risk(t),
        estimated_nanos: fix_seconds(t) * 1_000_000_000,
        target_resource: target,
        prerequisites: Seq::empty(),
    }
}

/// Whether a fix may run without asking: its risk is `Safe` or `Low` and it
/// does not require confirmation.
pub open spec fn safe_to_auto_execute(a: FixActionView) -> bool {
    (a.risk_level == RiskLevel::Safe || a.risk_level == RiskLevel::Low) && !a.requires_confirmation
}

impl FixAction {
    /// A fix of the given kind; its risk, whether it asks for confirmation
    /// and its estimated duration follow from the kind.
    pub fn new(action_type: FixActionType, description: String, target_resource: String) -> (a: Self)
        ensures
            a@ == new_fix(action_type, description@, target_resource@),
    {
        let (requires_confirmation, risk_level, secs): (bool, RiskLevel, u64) = match action_type {
            FixActionType::StartInstance => (false, RiskLevel::Low, 300),
            FixActionType::RestartSsmAgent => (true, RiskLevel::Medium, 30),
            FixActionType::UpdateCredentials => (false, RiskLevel::Safe, 5),
            FixActionType::RestoreConfig => (true, RiskLevel::Medium, 10),
            FixActionType::TerminateProcess => (true, RiskLevel::High, 5),
            FixActionType::CreateVpcEndpoint => (true, RiskLevel::High, 300),
            FixActionType::UpdateSecurityGroup => (true, RiskLevel::High, 30),
            FixActionType::SuggestManualFix => (false, RiskLevel::Safe, 0),
        };
        let prerequisites: Vec<String> = Vec::new();
        assert(strings_view(prerequisites@) =~= Seq::empty());
        FixAction {
            action_type,
            description,
            command: None,
            requires_confirmation,
            risk_level,
            estimated_duration: Duration::from_secs(secs),
            target_resource,
            prerequisites,
        }
    }

    /// The same fix, with a command to run.
    pub fn with_command(self, command: String) -> (a: Self)
        ensures
            a@ == (FixActionView { command: Some(command@), ..self@ }),
    {
        FixAction { command: Some(command), ..self }
    }

    /// Whether the fix may run without asking.
    pub fn is_safe_to_auto_execute(&self) -> (b: bool)
        ensures
            b == safe_to_auto_execute(self@),
    {
        match self.risk_level {
            RiskLevel::Safe | RiskLevel::Low => !self.requires_confirmation,
            _ => false,
        }
    }
}

/// The instance named in a finding's details, or `"unknown"`.
pub open spec fn detail_instance_id(r: DiagnosticResult) -> Seq<char> {
    match r.details {
        Some(d) => match json_str_at(d, "instance_id"@) {
            Some(s) => s,
            None => "unknown"@,
        },
        None => "unknown"@,
    }
}

/// The fixes a finding about the instance state calls for.
pub open spec fn instance_fixes(r: DiagnosticResult) -> Seq<FixActionView> {
    if r.status == DiagnosticStatus::Error {
        if contains(r.message@, "stopped"@) || contains(r.message@, "stopping"@) {
            let id = detail_instance_id(r);
            seq![
                new_fix(FixActionType::StartInstance, "Start the stopped EC2 instance: "@ + id, id),
            ]
        } else if contains(r.message@, "terminated"@) {
            seq![
                new_fix(
                    FixActionType::SuggestManualFix,
                    "Instance is terminated and cannot be recovered. Launch a new instance."@,
                    "manual"@,
                ),
            ]
        } else {
            Seq::empty()
        }
    } else {
        Seq::empty()
    }
}

/// The fixes a finding about the SSM agent calls for.
pub open spec fn ssm_agent_fixes(r: DiagnosticResult) -> Seq<FixActionView> {
    if r.status == DiagnosticStatus::Error && (contains(r.message@, "not registered"@) || contains(
        r.message@,
        "offline"@,
    )) {
        let id = detail_instance_id(r);
        seq![
            FixActionView {
                command: Some("sudo systemctl restart amazon-ssm-agent"@),
                ..new_fix(FixActionType::RestartSsmAgent, "Restart SSM agent on instance: "@ + id, id)
            },
        ]
    } else {
        Seq::empty()
    }
}

/// The fixes a finding about IAM calls for.
pub open spec fn iam_fixes(r: DiagnosticResult) -> Seq<FixActionView> {
    if r.status == DiagnosticStatus::Error {
        if contains(r.message@, "credentials"@) || contains(r.message@, "authentication"@) {
            seq![
                new_fix(
                    FixActionType::UpdateCredentials,
                    "Update AWS credentials configuration"@,
                    "credentials"@,
                ),
            ]
        } else if contains(r.message@, "permissions"@) || contains(r.message@, "access denied"@) {
            seq![
                new_fix(
                    FixActionType::SuggestManualFix,
                    "IAM permissions need to be updated manually by an administrator"@,
                    "iam"@,
                ),
            ]
        } else {
            Seq::empty()
        }
    } else {
        Seq::empty()
    }
}

/// The fixes a finding about the network calls for.
pub open spec fn network_fixes(r: DiagnosticResult) -> Seq<FixActionView> {
    if r.status == DiagnosticStatus::Error {
        if contains(r.message@, "VPC endpoint"@) {
            seq![
                new_fix(
                    FixActionType::SuggestManualFix,
                    "VPC endpoints need to be created manually for SSM connectivity"@,
                    "vpc"@,
                ),
            ]
        } else if contains(r.message@, "security group"@) {
            seq![
                new_fix(
                    FixActionType::SuggestManualFix,
                    "Security group rules need to be updated to allow HTTPS outbound traffic"@,
                    "security_group"@,
                ),
            ]
        } else {
            Seq::empty()
        }
    } else {
        Seq::empty()
    }
}

/// The fix that terminates the process holding a port, when the details
/// name it.
pub open spec fn terminate_process_fix(process_info: serde_json::Value) -> FixActionView {
    let name = match json_str_at(process_info, "name"@) {
        Some(s) => s,
        None => "unknown"@,
    };
    let pid: nat = match json_u64_at(process_info, "pid"@) {
        Some(p) => p as nat,
        None => 0,
    };
    new_fix(
        FixActionType::TerminateProcess,
        "Terminate process "@ + name + " (PID: "@ + decimal(pid) + ") that is using the port"@,
        "process:"@ + decimal(pid),
    )
}

/// The suggestion to use another port.
pub open spec fn alternative_port_fix() -> FixActionView {
    new_fix(FixActionType::SuggestManualFix, "Use an alternative port for the connection"@, "port"@)
}

/// The fixes a finding about the local port calls for.
pub open spec fn port_fixes(r: DiagnosticResult) -> Seq<FixActionView> {
    if r.status == DiagnosticStatus::Error && (contains(r.message@, "port in use"@) || contains(
        r.message@,
        "already bound"@,
    )) {
        let process_part: Seq<FixActionView> = match r.details {
            Some(d) => match json_member(d, "process_info"@) {
                Some(pi) => seq![terminate_process_fix(pi)],
                None => Seq::empty(),
            },
            None => Seq::empty(),
        };
        process_part.push(alternative_port_fix())
    } else {
        Seq::empty()
    }
}

/// The fixes one finding calls for, by the check that produced it.
pub open spec fn fixes_for(r: DiagnosticResult) -> Seq<FixActionView> {
    let n = r.item_name@;
    if n == "instance_state"@ || n == "detailed_instance_state"@ {
        instance_fixes(r)
    } else if n == "ssm_agent"@ || n == "ssm_agent_enhanced"@ {
        ssm_agent_fixes(r)
    } else if n == "iam_permissions"@ {
        iam_fixes(r)
    } else if n == "vpc_endpoints"@ || n == "security_groups"@ || n == "network_connectivity"@ {
        network_fixes(r)
    } else if n == "local_port_availability"@ {
        port_fixes(r)
    } else {
        Seq::empty()
    }
}

/// The fixes of all findings, in the order of the findings.
pub open spec fn all_fixes(rs: Seq<DiagnosticResult>) -> Seq<FixActionView>
    decreases rs.len(),
{
    if rs.len() == 0 {
        Seq::empty()
    } else {
        all_fixes(rs.drop_last()) + fixes_for(rs.last())
    }
}

/// The fixes of one risk level, in their original order.
pub open spec fn with_risk_rank(s: Seq<FixActionView>, k: nat) -> Seq<FixActionView> {
    s.filter(|a: FixActionView| risk_rank(a.risk_level) == k)
}

/// The fixes ordered from the safest to the most risky, keeping the
/// original order among fixes of equal risk (a stable sort by risk).
pub open spec fn sort_by_risk(s: Seq<FixActionView>) -> Seq<FixActionView> {
    with_risk_rank(s, 0) + with_risk_rank(s, 1) + with_risk_rank(s, 2) + with_risk_rank(s, 3)
        + with_risk_rank(s, 4)
}

/// The fixes that diagnostic findings call for, ordered from the safest to
/// the most risky.
pub open spec fn planned_fixes(rs: Seq<DiagnosticResult>) -> Seq<FixActionView> {
    sort_by_risk(all_fixes(rs))
}

fn contains_lit(h: &String, n: &str) -> (b: bool)
    ensures
        b == contains(h@, n@),
{
    str_contains(h.as_str(), n)
}

fn instance_id_of(r: &DiagnosticResult) -> (s: String)
    ensures
        s@ == detail_instance_id(*r),
{
    match &r.details {
        Some(d) => match str_member(d, "instance_id") {
            Some(s) => s,
            None => String::from_str("unknown"),
        },
        None => String::from_str("unknown"),
    }
}

/// The fixes a finding about the instance state calls for.
pub fn analyze_instance_fixes(r: &DiagnosticResult) -> (v: Vec<FixAction>)
    ensures
        actions_view(v@) == instance_fixes(*r),
{
    let mut fixes: Vec<FixAction> = Vec::new();
    if r.status == DiagnosticStatus::Error {
        if contains_lit(&r.message, "stopped") || contains_lit(&r.message, "stopping") {
            let id = instance_id_of(r);
            let description = concat2("Start the stopped EC2 instance: ", id.as_str());
            fixes.push(FixAction::new(FixActionType::StartInstance, description, id));
        } else if contains_lit(&r.message, "terminated") {
            fixes.push(
                FixAction::new(
                    FixActionType::SuggestManualFix,
                    String::from_str(
                        "Instance is terminated and cannot be recovered. Launch a new instance.",
                    ),
                    String::from_str("manual"),
                ),
            );
        }
    }
    assert(actions_view(fixes@) =~= instance_fixes(*r));
    fixes
}

/// The fixes a finding about the SSM agent calls for.
pub fn analyze_ssm_agent_fixes(r: &DiagnosticResult) -> (v: Vec<FixAction>)
    ensures
        actions_view(v@) == ssm_agent_fixes(*r),
{
    let mut fixes: Vec<FixAction> = Vec::new();
    if r.status == DiagnosticStatus::Error {
        if contains_lit(&r.message, "not registered") || contains_lit(&r.message, "offline") {
            let id = instance_id_of(r);
            let description = concat2("Restart SSM agent on instance: ", id.as_str());
            let fix = FixAction::new(FixActionType::RestartSsmAgent, description, id).with_command(
                String::from_str("sudo systemctl restart amazon-ssm-agent"),
            );
            fixes.push(fix);
        }
    }
    assert(actions_view(fixes@) =~= ssm_agent_fixes(*r));
    fixes
}

/// The fixes a finding about IAM calls for.
pub fn analyze_iam_fixes(r: &DiagnosticResult) -> (v: Vec<FixAction>)
    ensures
        actions_view(v@) == iam_fixes(*r),
{
    let mut fixes: Vec<FixAction> = Vec::new();
    if r.status == DiagnosticStatus::Error {
        if contains_lit(&r.message, "credentials") || contains_lit(&r.message, "authentication") {
            fixes.push(
                FixAction::new(
                    FixActionType::UpdateCredentials,
                    String::from_str("Update AWS credentials configuration"),
                    String::from_str("credentials"),
                ),
            );
        } else if contains_lit(&r.message, "permissions") || contains_lit(
            &r.message,
            "access denied",
        ) {
            fixes.push(
                FixAction::new(
                    FixActionType::SuggestManualFix,
                    String::from_str(
                        "IAM permissions need to be updated manually by an administrator",
                    ),
                    String::from_str("iam"),
                ),
            );
        }
    }
    assert(actions_view(fixes@) =~= iam_fixes(*r));
    fixes
}

/// The fixes a finding about the network calls for.
pub fn analyze_network_fixes(r: &DiagnosticResult) -> (v: Vec<FixAction>)
    ensures
        actions_view(v@) == network_fixes(*r),
{
    let mut fixes: Vec<FixAction> = Vec::new();
    if r.status == DiagnosticStatus::Error {
        if contains_lit(&r.message, "VPC endpoint") {
            fixes.push(
                FixAction::new(
                    FixActionType::SuggestManualFix,
                    String::from_str(
                        "VPC endpoints need to be created manually for SSM connectivity",
                    ),
                    String::from_str("vpc"),
                ),
            );
        } else if contains_lit(&r.message, "security group") {
            fixes.push(
                FixAction::new(
                    FixActionType::SuggestManualFix,
                    String::from_str(
                        "Security group rules need to be updated to allow HTTPS outbound traffic",
                    ),
                    String::from_str("security_group"),
                ),
            );
        }
    }
    assert(actions_view(fixes@) =~= network_fixes(*r));
    fixes
}

fn terminate_fix_for(pi: &serde_json::Value) -> (a: FixAction)
    ensures
        a@ == terminate_process_fix(*pi),
{
    let name = match str_member(pi, "name") {
        Some(s) => s,
        None => String::from_str("unknown"),
    };
    let pid: u64 = match u64_member(pi, "pid") {
        Some(p) => p,
        None => 0,
    };
    let pid_text = decimal_string(pid);
    let mut description = concat3("Terminate process ", name.as_str(), " (PID: ");
    description.append(pid_text.as_str());
    description.append(") that is using the port");
    let target = concat2("process:", pid_text.as_str());
    FixAction::new(FixActionType::TerminateProcess, description, target)
}

/// The fixes a finding about the local port calls for.
pub fn analyze_port_fixes(r: &DiagnosticResult) -> (v: Vec<FixAction>)
    ensures
        actions_view(v@) == port_fixes(*r),
{
    let mut fixes: Vec<FixAction> = Vec::new();
    if r.status == DiagnosticStatus::Error {
        if contains_lit(&r.message, "port in use") || contains_lit(&r.message, "already bound") {
            match &r.details {
                Some(d) => match json_get(d, "process_info") {
                    Some(pi) => {
                        fixes.push(terminate_fix_for(&pi));
                    },
                    None => {},
                },
                None => {},
            }
            fixes.push(
                FixAction::new(
                    FixActionType::SuggestManualFix,
                    String::from_str("Use an alternative port for the connection"),
                    String::from_str("port"),
                ),
            );
        }
    }
    assert(actions_view(fixes@) =~= port_fixes(*r));
    fixes
}

fn is_name(s: &String, lit: &str) -> (b: bool)
    ensures
        b == (s@ == lit@),
{
    str_eq(s.as_str(), lit)
}

/// The fixes one finding calls for, by the check that produced it.
pub fn fixes_for_result(r: &DiagnosticResult) -> (v: Vec<FixAction>)
    ensures
        actions_view(v@) == fixes_for(*r),
{
    let n = &r.item_name;
    if is_name(n, "instance_state") || is_name(n, "detailed_instance_state") {
        analyze_instance_fixes(r)
    } else if is_name(n, "ssm_agent") || is_name(n, "ssm_agent_enhanced") {
        analyze_ssm_agent_fixes(r)
    } else if is_name(n, "iam_permissions") {
        analyze_iam_fixes(r)
    } else if is_name(n, "vpc_endpoints") || is_name(n, "security_groups") || is_name(
        n,
        "network_connectivity",
    ) {
        analyze_network_fixes(r)
    } else if is_name(n, "local_port_availability") {
        analyze_port_fixes(r)
    } else {
        let v: Vec<FixAction> = Vec::new();
        assert(actions_view(v@) =~= Seq::empty());
        v
    }
}

/// Appends the fixes of `k`-th risk rank of `src` to `out`, in order.
fn push_rank(out: &mut Vec<FixAction>, src: &Vec<FixAction>, k: u8)
    ensures
        actions_view(final(out)@) == actions_view(old(out)@) + with_risk_rank(
            actions_view(src@),
            k as nat,
        ),
{
    let ghost start = actions_view(out@);
    let ghost pred = |a: FixActionView| risk_rank(a.risk_level) == k as nat;
    let mut i: usize = 0;
    while i < src.len()
        invariant
            i <= src.len(),
            pred == (|a: FixActionView| risk_rank(a.risk_level) == k as nat),
            actions_view(out@) == start + actions_view(src@).subrange(0, i as int).filter(pred),
        decreases src.len() - i,
    {
        let ghost prefix = actions_view(src@).subrange(0, i as int);
        let ghost next = actions_view(src@).subrange(0, i + 1);
        assert(next.drop_last() =~= prefix);
        let ghost old_out = out@;
        proof {
            reveal_with_fuel(Seq::filter, 1);
            assert(next.last() == src@[i as int]@);
            assert(next.filter(pred) == if pred(next.last()) {
                prefix.filter(pred).push(next.last())
            } else {
                prefix.filter(pred)
            });
        }
        if risk_rank_of(src[i].risk_level) == k {
            let a = src[i].clone();
            out.push(a);
            proof {
                assert(actions_view(out@) =~= actions_view(old_out).push(src@[i as int]@));
            }
        }
        i = i + 1;
        assert(actions_view(out@) =~= start + next.filter(pred));
    }
    assert(actions_view(src@).subrange(0, src.len() as int) =~= actions_view(src@));
}

/// Orders fixes from the safest to the most risky, keeping the original
/// order among fixes of equal risk.
pub fn sort_fixes_by_risk(v: &Vec<FixAction>) -> (r: Vec<FixAction>)
    ensures
        actions_view(r@) == sort_by_risk(actions_view(v@)),
{
    let mut r: Vec<FixAction> = Vec::new();
    assert(actions_view(r@) =~= Seq::empty());
    push_rank(&mut r, v, 0);
    push_rank(&mut r, v, 1);
    push_rank(&mut r, v, 2);
    push_rank(&mut r, v, 3);
    push_rank(&mut r, v, 4);
    assert(actions_view(r@) =~= sort_by_risk(actions_view(v@)));
    r
}

/// The fixes the findings call for, ordered from the safest to the most
/// risky (the plan of `AutoFixManager::analyze_fixes`).
pub fn analyze_fixes(diagnostics: &Vec<DiagnosticResult>) -> (v: Vec<FixAction>)
    ensures
        actions_view(v@) == planned_fixes(diagnostics@),
{
    let mut all: Vec<FixAction> = Vec::new();
    let mut i: usize = 0;
    while i < diagnostics.len()
        invariant
            i <= diagnostics.len(),
            actions_view(all@) == all_fixes(diagnostics@.subrange(0, i as int)),
        decreases diagnostics.len() - i,
    {
        let mut fixes = fixes_for_result(&diagnostics[i]);
        let ghost before = actions_view(all@);
        let ghost added = actions_view(fixes@);
        all.append(&mut fixes);
        proof {
            let next = diagnostics@.subrange(0, i + 1);
            assert(next.drop_last() =~= diagnostics@.subrange(0, i as int));
            assert(next.last() == diagnostics@[i as int]);
            assert(actions_view(all@) =~= before + added);
        }
        i = i + 1;
    }
    assert(diagnostics@.subrange(0, diagnostics.len() as int) =~= diagnostics@);
    sort_fixes_by_risk(&all)
}

/// The fixes that may run without asking, in their order.
pub fn safe_fixes_only(actions: &Vec<FixAction>) -> (r: Vec<FixAction>)
    ensures
        actions_view(r@) == actions_view(actions@).filter(|a: FixActionView| safe_to_auto_execute(a)),
{
    let ghost pred = |a: FixActionView| safe_to_auto_execute(a);
    let mut r: Vec<FixAction> = Vec::new();
    let mut i: usize = 0;
    while i < actions.len()
        invariant
            i <= actions.len(),
            pred == (|a: FixActionView| safe_to_auto_execute(a)),
            actions_view(r@) == actions_view(actions@).subrange(0, i as int).filter(pred),
        decreases actions.len() - i,
    {
        let ghost prefix = actions_view(actions@).subrange(0, i as int);
        let ghost next = actions_view(actions@).subrange(0, i + 1);
        assert(next.drop_last() =~= prefix);
        let ghost old_r = r@;
        proof {
            reveal_with_fuel(Seq::filter, 1);
            assert(next.last() == actions@[i as int]@);
            assert(next.filter(pred) == if pred(next.last()) {
                prefix.filter(pred).push(next.last())
            } else {
                prefix.filter(pred)
            });
        }
        if actions[i].is_safe_to_auto_execute() {
            let a = actions[i].clone();
            r.push(a);
            proof {
                assert(actions_view(r@) =~= actions_view(old_r).push(actions@[i as int]@));
            }
        }
        i = i + 1;
        assert(actions_view(r@) =~= next.filter(pred));
    }
    assert(actions_view(actions@).subrange(0, actions.len() as int) =~= actions_view(actions@));
    r
}

proof fn lemma_bucket_push(s: Seq<FixActionView>, x: FixActionView, k: nat)
    ensures
        with_risk_rank(s.push(x), k) == if risk_rank(x.risk_level) == k {
            with_risk_rank(s, k).push(x)
        } else {
            with_risk_rank(s, k)
        },
{
    reveal_with_fuel(Seq::filter, 1);
    assert(s.push(x).drop_last() =~= s);
}

proof fn lemma_bucket_multiset(s: Seq<FixActionView>, x: FixActionView, k: nat)
    ensures
        with_risk_rank(s.push(x), k).to_multiset() == if risk_rank(x.risk_level) == k {
            with_risk_rank(s, k).to_multiset().insert(x)
        } else {
            with_risk_rank(s, k).to_multiset()
        },
{
    broadcast use vstd::seq_lib::to_multiset_build;

    lemma_bucket_push(s, x, k);
}

proof fn lemma_sum_of_buckets(s: Seq<FixActionView>)
    ensures
        sort_by_risk(s).to_multiset() == with_risk_rank(s, 0).to_multiset().add(
            with_risk_rank(s, 1).to_multiset(),
        ).add(with_risk_rank(s, 2).to_multiset()).add(with_risk_rank(s, 3).to_multiset()).add(
            with_risk_rank(s, 4).to_multiset(),
        ),
{
    broadcast use vstd::seq_lib::lemma_multiset_commutative;

    let b0 = with_risk_rank(s, 0);
    let b1 = with_risk_rank(s, 1);
    let b2 = with_risk_rank(s, 2);
    let b3 = with_risk_rank(s, 3);
    let b4 = with_risk_rank(s, 4);
    assert((b0 + b1).to_multiset() == b0.to_multiset().add(b1.to_multiset()));
    assert((b0 + b1 + b2).to_multiset() == (b0 + b1).to_multiset().add(b2.to_multiset()));
    assert((b0 + b1 + b2 + b3).to_multiset() == (b0 + b1 + b2).to_multiset().add(b3.to_multiset()));
    assert((b0 + b1 + b2 + b3 + b4).to_multiset() == (b0 + b1 + b2 + b3).to_multiset().add(
        b4.to_multiset(),
    ));
}

/// Law: ordering the fixes by risk neither drops nor adds a fix; the plan
/// holds exactly the fixes the findings call for.
pub proof fn lemma_sort_by_risk_is_permutation(s: Seq<FixActionView>)
    ensures
        sort_by_risk(s).to_multiset() == s.to_multiset(),
    decreases s.len(),
{
    broadcast use vstd::seq_lib::to_multiset_build;
    broadcast use vstd::multiset::group_multiset_axioms;

    if s.len() == 0 {
        reveal_with_fuel(Seq::filter, 1);
        assert(sort_by_risk(s) =~= s);
    } else {
        let t = s.drop_last();
        let x = s.last();
        assert(s =~= t.push(x));
        lemma_sort_by_risk_is_permutation(t);
        lemma_sum_of_buckets(t);
        lemma_sum_of_buckets(s);
        lemma_bucket_multiset(t, x, 0);
        lemma_bucket_multiset(t, x, 1);
        lemma_bucket_multiset(t, x, 2);
        lemma_bucket_multiset(t, x, 3);
        lemma_bucket_multiset(t, x, 4);
        assert(sort_by_risk(s).to_multiset() =~= sort_by_risk(t).to_multiset().insert(x));
    }
}

proof fn lemma_bucket_ranks(s: Seq<FixActionView>, k: nat)
    ensures
        forall|i: int|
            0 <= i < with_risk_rank(s, k).len() ==> risk_rank(
                #[trigger] with_risk_rank(s, k)[i].risk_level,
            ) == k,
{
    broadcast use vstd::seq_lib::group_filter_ensures;

    assert forall|i: int| 0 <= i < with_risk_rank(s, k).len() implies risk_rank(
        #[trigger] with_risk_rank(s, k)[i].risk_level,
    ) == k by {
        s.lemma_filter_pred(|a: FixActionView| risk_rank(a.risk_level) == k, i);
    }
}

/// Law: the plan offers fixes from the safest to the most risky.
pub proof fn lemma_sort_by_risk_is_ordered(s: Seq<FixActionView>)
    ensures
        forall|i: int, j: int|
            0 <= i < j < sort_by_risk(s).len() ==> risk_rank(sort_by_risk(s)[i].risk_level)
                <= risk_rank(sort_by_risk(s)[j].risk_level),
{
    let b0 = with_risk_rank(s, 0);
    let b1 = with_risk_rank(s, 1);
    let b2 = with_risk_rank(s, 2);
    let b3 = with_risk_rank(s, 3);
    let b4 = with_risk_rank(s, 4);
    lemma_bucket_ranks(s, 0);
    lemma_bucket_ranks(s, 1);
    lemma_bucket_ranks(s, 2);
    lemma_bucket_ranks(s, 3);
    lemma_bucket_ranks(s, 4);
    let r = sort_by_risk(s);
    let l0 = b0.len() as int;
    let l1 = l0 + b1.len();
    let l2 = l1 + b2.len();
    let l3 = l2 + b3.len();
    assert forall|i: int| 0 <= i < r.len() implies risk_rank(#[trigger] r[i].risk_level) == (if i
        < l0 {
        0nat
    } else if i < l1 {
        1
    } else if i < l2 {
        2
    } else if i < l3 {
        3
    } else {
        4
    }) by {
        if i < l0 {
            assert(r[i] == b0[i]);
        } else if i < l1 {
            assert(r[i] == b1[i - l0]);
        } else if i < l2 {
            assert(r[i] == b2[i - l1]);
        } else if i < l3 {
            assert(r[i] == b3[i - l2]);
        } else {
            assert(r[i] == b4[i - l3]);
        }
    }
}

/// Law: among fixes of equal risk the plan keeps the order of the findings
/// (the plan is a stable sort by risk).
pub proof fn lemma_sort_by_risk_is_stable(s: Seq<FixActionView>, k: nat)
    ensures
        with_risk_rank(sort_by_risk(s), k) == with_risk_rank(s, k),
{
    let p = |a: FixActionView| risk_rank(a.risk_level) == k;
    let b0 = with_risk_rank(s, 0);
    let b1 = with_risk_rank(s, 1);
    let b2 = with_risk_rank(s, 2);
    let b3 = with_risk_rank(s, 3);
    let b4 = with_risk_rank(s, 4);
    Seq::filter_distributes_over_add(b0, b1, p);
    Seq::filter_distributes_over_add(b0 + b1, b2, p);
    Seq::filter_distributes_over_add(b0 + b1 + b2, b3, p);
    Seq::filter_distributes_over_add(b0 + b1 + b2 + b3, b4, p);
    lemma_filter_of_bucket(s, 0, k);
    lemma_filter_of_bucket(s, 1, k);
    lemma_filter_of_bucket(s, 2, k);
    lemma_filter_of_bucket(s, 3, k);
    lemma_filter_of_bucket(s, 4, k);
    if k > 4 {
        lemma_filter_of_bucket_empty(s, k);
        assert(with_risk_rank(sort_by_risk(s), k) =~= Seq::empty());
    } else {
        assert(with_risk_rank(sort_by_risk(s), k) =~= with_risk_rank(s, k));
    }
}

proof fn lemma_filter_of_bucket_empty(s: Seq<FixActionView>, k: nat)
    requires
        k > 4,
    ensures
        with_risk_rank(s, k) == Seq::<FixActionView>::empty(),
    decreases s.len(),
{
    reveal_with_fuel(Seq::filter, 1);
    if s.len() > 0 {
        lemma_filter_of_bucket_empty(s.drop_last(), k);
    }
}

proof fn lemma_filter_of_bucket(s: Seq<FixActionView>, m: nat, k: nat)
    ensures
        with_risk_rank(with_risk_rank(s, m), k) == if m == k {
            with_risk_rank(s, k)
        } else {
            Seq::empty()
        },
    decreases s.len(),
{
    if s.len() == 0 {
        reveal_with_fuel(Seq::filter, 2);
        assert(with_risk_rank(s, m) =~= s);
        assert(with_risk_rank(s, k) =~= s);
        assert(with_risk_rank(with_risk_rank(s, m), k) =~= Seq::empty());
    } else {
        let t = s.drop_last();
        let x = s.last();
        assert(s =~= t.push(x));
        lemma_filter_of_bucket(t, m, k);
        lemma_bucket_push(t, x, m);
        lemma_bucket_push(t, x, k);
        if risk_rank(x.risk_level) == m {
            lemma_bucket_push(with_risk_rank(t, m), x, k);
        }
    }
}

/// Law: a failed check of the SSM agent whose message says the agent is
/// offline or not registered calls for exactly one fix, the plan of that
/// finding alone: restarting the agent with systemd on the instance its
/// details name (or "unknown" when they name none).
#[verifier::spinoff_prover]
#[verifier::rlimit(50)]
pub proof fn lemma_agent_failure_plans_restart(r: DiagnosticResult)
    requires
        r.item_name@ == "ssm_agent"@ || r.item_name@ == "ssm_agent_enhanced"@,
        r.status == DiagnosticStatus::Error,
        contains(r.message@, "offline"@) || contains(r.message@, "not registered"@),
    ensures
        planned_fixes(seq![r]).len() == 1,
        planned_fixes(seq![r])[0].action_type == FixActionType::RestartSsmAgent,
        planned_fixes(seq![r])[0].command == Some("sudo systemctl restart amazon-ssm-agent"@),
        planned_fixes(seq![r])[0].risk_level == RiskLevel::Medium,
        planned_fixes(seq![r])[0].requires_confirmation,
        planned_fixes(seq![r])[0].estimated_nanos == 30_000_000_000,
        ({
            let id = match r.details {
                Some(d) => match json_str_at(d, "instance_id"@) {
                    Some(i) => i,
                    None => "unknown"@,
                },
                None => "unknown"@,
            };
            &&& planned_fixes(seq![r])[0].target_resource == id
            &&& planned_fixes(seq![r])[0].description == "Restart SSM agent on instance: "@ + id
        }),
{
    let rs = seq![r];
    reveal_strlit("instance_state");
    reveal_strlit("detailed_instance_state");
    reveal_strlit("ssm_agent");
    reveal_strlit("ssm_agent_enhanced");
    assert("instance_state"@.len() == 14 && "detailed_instance_state"@.len() == 23);
    assert("ssm_agent"@.len() == 9 && "ssm_agent_enhanced"@.len() == 18);
    assert(r.item_name@ != "instance_state"@);
    assert(r.item_name@ != "detailed_instance_state"@);
    assert(fixes_for(r) == ssm_agent_fixes(r));
    assert(rs.drop_last() =~= Seq::<DiagnosticResult>::empty());
    assert(rs.last() == r);
    assert(all_fixes(Seq::<DiagnosticResult>::empty()) =~= Seq::<FixActionView>::empty());
    assert(all_fixes(rs) =~= fixes_for(r));
    let a = fixes_for(r)[0];
    assert(fixes_for(r) =~= seq![a]);
    reveal_with_fuel(Seq::filter, 2);
    let k = risk_rank(a.risk_level);
    assert(k == 2);
    assert(with_risk_rank(seq![a], 0) =~= Seq::<FixActionView>::empty());
    assert(with_risk_rank(seq![a], 1) =~= Seq::<FixActionView>::empty());
    assert(with_risk_rank(seq![a], 2) =~= seq![a]);
    assert(with_risk_rank(seq![a], 3) =~= Seq::<FixActionView>::empty());
    assert(with_risk_rank(seq![a], 4) =~= Seq::<FixActionView>::empty());
    assert(planned_fixes(rs) =~= seq![a]);
}

/// Law: a finding of the SSM agent check that is not a failure saying the
/// agent is offline or not registered calls for no fix.
#[verifier::spinoff_prover]
#[verifier::rlimit(50)]
pub proof fn lemma_agent_without_failure_plans_nothing(r: DiagnosticResult)
    requires
        r.item_name@ == "ssm_agent"@ || r.item_name@ == "ssm_agent_enhanced"@,
        !(r.status == DiagnosticStatus::Error && (contains(r.message@, "offline"@) || contains(
            r.message@,
            "not registered"@,
        ))),
    ensures
        planned_fixes(seq![r]).len() == 0,
{
    let rs = seq![r];
    reveal_strlit("instance_state");
    reveal_strlit("detailed_instance_state");
    reveal_strlit("ssm_agent");
    reveal_strlit("ssm_agent_enhanced");
    assert("instance_state"@.len() == 14 && "detailed_instance_state"@.len() == 23);
    assert("ssm_agent"@.len() == 9 && "ssm_agent_enhanced"@.len() == 18);
    assert(fixes_for(r) =~= Seq::<FixActionView>::empty());
    assert(rs.drop_last() =~= Seq::<DiagnosticResult>::empty());
    assert(all_fixes(Seq::<DiagnosticResult>::empty()) =~= Seq::<FixActionView>::empty());
    assert(all_fixes(rs) =~= Seq::<FixActionView>::empty());
    reveal_with_fuel(Seq::filter, 2);
    let e = Seq::<FixActionView>::empty();
    assert(with_risk_rank(e, 0) =~= e && with_risk_rank(e, 1) =~= e && with_risk_rank(e, 2) =~= e);
    assert(with_risk_rank(e, 3) =~= e && with_risk_rank(e, 4) =~= e);
    assert(planned_fixes(rs) =~= e);
}

proof fn lemma_single_finding_plan(r: DiagnosticResult)
    requires
        fixes_for(r).len() <= 1,
    ensures
        planned_fixes(seq![r]) == fixes_for(r),
{
    let rs = seq![r];
    assert(rs.drop_last() =~= Seq::<DiagnosticResult>::empty());
    assert(rs.last() == r);
    assert(all_fixes(Seq::<DiagnosticResult>::empty()) =~= Seq::<FixActionView>::empty());
    assert(all_fixes(rs) =~= fixes_for(r));
    reveal_with_fuel(Seq::filter, 2);
    let f = fixes_for(r);
    if f.len() == 0 {
        assert(f =~= Seq::<FixActionView>::empty());
    } else {
        assert(f =~= seq![f[0]]);
    }
    assert(planned_fixes(rs) =~= f);
}

/// Law: a failed check of the instance state whose message says the
/// instance is stopped or stopping calls for exactly one fix, starting the
/// instance its details name; one saying it is terminated (and not
/// stopped) calls for a single manual suggestion to launch a new instance.
#[verifier::spinoff_prover]
#[verifier::rlimit(50)]
pub proof fn lemma_instance_failure_plans(r: DiagnosticResult)
    requires
        r.item_name@ == "instance_state"@,
        r.status == DiagnosticStatus::Error,
    ensures
        contains(r.message@, "stopped"@) || contains(r.message@, "stopping"@) ==> {
            let id = match r.details {
                Some(d) => match json_str_at(d, "instance_id"@) {
                    Some(i) => i,
                    None => "unknown"@,
                },
                None => "unknown"@,
            };
            &&& planned_fixes(seq![r]).len() == 1
            &&& planned_fixes(seq![r])[0].action_type == FixActionType::StartInstance
            &&& planned_fixes(seq![r])[0].target_resource == id
            &&& planned_fixes(seq![r])[0].description == "Start the stopped EC2 instance: "@ + id
            &&& planned_fixes(seq![r])[0].risk_level == RiskLevel::Low
            &&& !planned_fixes(seq![r])[0].requires_confirmation
        },
        !(contains(r.message@, "stopped"@) || contains(r.message@, "stopping"@)) && contains(
            r.message@,
            "terminated"@,
        ) ==> {
            &&& planned_fixes(seq![r]).len() == 1
            &&& planned_fixes(seq![r])[0].action_type == FixActionType::SuggestManualFix
            &&& planned_fixes(seq![r])[0].description
                == "Instance is terminated and cannot be recovered. Launch a new instance."@
        },
        !(contains(r.message@, "stopped"@) || contains(r.message@, "stopping"@) || contains(
            r.message@,
            "terminated"@,
        )) ==> planned_fixes(seq![r]).len() == 0,
{
    assert(fixes_for(r) == instance_fixes(r));
    lemma_single_finding_plan(r);
}

/// Law: a fix may run without asking exactly when its risk is safe or low
/// and it needs no confirmation; of the fix kinds, starting an instance,
/// updating credentials and a manual suggestion are the ones that may.
pub proof fn lemma_safe_fixes(a: FixActionView, t: FixActionType, d: Seq<char>, x: Seq<char>)
    ensures
        safe_to_auto_execute(a) <==> ((a.risk_level == RiskLevel::Safe || a.risk_level == RiskLevel::Low)
            && !a.requires_confirmation),
        safe_to_auto_execute(new_fix(t, d, x)) <==> (t == FixActionType::StartInstance || t
            == FixActionType::UpdateCredentials || t == FixActionType::SuggestManualFix),
{
}

/// Law: findings none of which failed call for no fix at all.
pub proof fn lemma_no_failure_no_fix(rs: Seq<DiagnosticResult>)
    requires
        forall|i: int| 0 <= i < rs.len() ==> #[trigger] rs[i].status != DiagnosticStatus::Error,
    ensures
        planned_fixes(rs).len() == 0,
{
    lemma_no_failure_no_fix_all(rs);
    let e = Seq::<FixActionView>::empty();
    reveal_with_fuel(Seq::filter, 2);
    assert(with_risk_rank(e, 0) =~= e && with_risk_rank(e, 1) =~= e && with_risk_rank(e, 2) =~= e);
    assert(with_risk_rank(e, 3) =~= e && with_risk_rank(e, 4) =~= e);
    assert(planned_fixes(rs) =~= e);
}

proof fn lemma_no_failure_no_fix_all(rs: Seq<DiagnosticResult>)
    requires
        forall|i: int| 0 <= i < rs.len() ==> #[trigger] rs[i].status != DiagnosticStatus::Error,
    ensures
        all_fixes(rs) =~= Seq::<FixActionView>::empty(),
    decreases rs.len(),
{
    if rs.len() > 0 {
        let p = rs.drop_last();
        assert forall|i: int| 0 <= i < p.len() implies #[trigger] p[i].status != DiagnosticStatus::Error by {
            assert(p[i] == rs[i]);
        }
        lemma_no_failure_no_fix_all(p);
        assert(rs.last() == rs[rs.len() - 1]);
        assert(fixes_for(rs.last()) =~= Seq::<FixActionView>::empty());
    }
}

/// Law: a failed IAM check about credentials or authentication calls for
/// exactly one fix, updating the credentials, which may run without asking;
/// one about permissions or denied access (and not credentials) calls for
/// a single manual suggestion for an administrator.
#[verifier::spinoff_prover]
#[verifier::rlimit(50)]
pub proof fn lemma_iam_failure_plans(r: DiagnosticResult)
    requires
        r.item_name@ == "iam_permissions"@,
        r.status == DiagnosticStatus::Error,
    ensures
        contains(r.message@, "credentials"@) || contains(r.message@, "authentication"@) ==> {
            &&& planned_fixes(seq![r]).len() == 1
            &&& planned_fixes(seq![r])[0].action_type == FixActionType::UpdateCredentials
            &&& planned_fixes(seq![r])[0].target_resource == "credentials"@
            &&& safe_to_auto_execute(planned_fixes(seq![r])[0])
        },
        !(contains(r.message@, "credentials"@) || contains(r.message@, "authentication"@)) && (contains(
            r.message@,
            "permissions"@,
        ) || contains(r.message@, "access denied"@)) ==> {
            &&& planned_fixes(seq![r]).len() == 1
            &&& planned_fixes(seq![r])[0].action_type == FixActionType::SuggestManualFix
            &&& planned_fixes(seq![r])[0].target_resource == "iam"@
        },
{
    reveal_strlit("instance_state");
    reveal_strlit("detailed_instance_state");
    reveal_strlit("ssm_agent");
    reveal_strlit("ssm_agent_enhanced");
    reveal_strlit("iam_permissions");
    assert("instance_state"@.len() == 14 && "detailed_instance_state"@.len() == 23);
    assert("ssm_agent"@.len() == 9 && "ssm_agent_enhanced"@.len() == 18);
    assert("iam_permissions"@.len() == 15);
    assert(fixes_for(r) == iam_fixes(r));
    lemma_single_finding_plan(r);
}

/// Law: a failed VPC endpoint check about VPC endpoints calls for a single
/// manual suggestion to create them; a failed security group check about
/// security groups (and not VPC endpoints) calls for a single manual
/// suggestion to allow HTTPS outbound.
#[verifier::spinoff_prover]
#[verifier::rlimit(50)]
pub proof fn lemma_network_failure_plans(r: DiagnosticResult)
    requires
        r.item_name@ == "vpc_endpoints"@ || r.item_name@ == "security_groups"@,
        r.status == DiagnosticStatus::Error,
    ensures
        contains(r.message@, "VPC endpoint"@) ==> {
            &&& planned_fixes(seq![r]).len() == 1
            &&& planned_fixes(seq![r])[0].action_type == FixActionType::SuggestManualFix
            &&& planned_fixes(seq![r])[0].target_resource == "vpc"@
        },
        !contains(r.message@, "VPC endpoint"@) && contains(r.message@, "security group"@) ==> {
            &&& planned_fixes(seq![r]).len() == 1
            &&& planned_fixes(seq![r])[0].action_type == FixActionType::SuggestManualFix
            &&& planned_fixes(seq![r])[0].target_resource == "security_group"@
        },
{
    reveal_strlit("instance_state");
    reveal_strlit("detailed_instance_state");
    reveal_strlit("ssm_agent");
    reveal_strlit("ssm_agent_enhanced");
    reveal_strlit("iam_permissions");
    reveal_strlit("vpc_endpoints");
    reveal_strlit("security_groups");
    assert("instance_state"@.len() == 14 && "detailed_instance_state"@.len() == 23);
    assert("ssm_agent"@.len() == 9 && "ssm_agent_enhanced"@.len() == 18);
    assert("iam_permissions"@.len() == 15 && "vpc_endpoints"@.len() == 13);
    assert("iam_permissions"@[0] != "security_groups"@[0]);
    assert(fixes_for(r) == network_fixes(r));
    lemma_single_finding_plan(r);
}

} // verus!
