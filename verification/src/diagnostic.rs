//! Diagnostic checks of an SSM connection: configuration, result records,
//! progress, and how the results of a group of sub-checks are combined into
//! one result.


use crate::time::duration_nanos;
use std::time::Duration;
use vstd::prelude::*;

verus! {

/// Settings of one diagnostic run against an instance.
#[derive(Debug, Clone)]
pub struct DiagnosticConfig {
    pub instance_id: String,
    pub local_port: Option<u16>,
    pub remote_port: Option<u16>,
    pub region: Option<String>,
    pub profile: Option<String>,
    pub parallel_execution: bool,
    pub timeout: Duration,
}

impl DiagnosticConfig {
    /// A configuration for the instance: no ports, default AWS settings,
    /// parallel execution, a 30 second timeout.
    pub fn new(instance_id: String) -> (c: Self)
        ensures
            c.instance_id == instance_id,
            c.local_port is None,
            c.remote_port is None,
            c.region is None,
            c.profile is None,
            c.parallel_execution,
            duration_nanos(c.timeout) == 30_000_000_000,
    {
        DiagnosticConfig {
            instance_id,
            local_port: None,
            remote_port: None,
            region: None,
            profile: None,
            parallel_execution: true,
            timeout: Duration::from_secs(30),
        }
    }

    /// Sets the local and remote ports.
    pub fn with_ports(self, local_port: u16, remote_port: u16) -> (c: Self)
        ensures
            c == (DiagnosticConfig {
                local_port: Some(local_port),
                remote_port: Some(remote_port),
                ..self
            }),
    {
        DiagnosticConfig { local_port: Some(local_port), remote_port: Some(remote_port), ..self }
    }

    /// Sets the AWS region and profile.
    pub fn with_aws_config(self, region: Option<String>, profile: Option<String>) -> (c: Self)
        ensures
            c == (DiagnosticConfig { region: region, profile: profile, ..self }),
    {
        DiagnosticConfig { region, profile, ..self }
    }

    /// Sets the timeout.
    pub fn with_timeout(self, timeout: Duration) -> (c: Self)
        ensures
            c == (DiagnosticConfig { timeout: timeout, ..self }),
    {
        DiagnosticConfig { timeout, ..self }
    }

    /// Sets whether the checks run in parallel.
    pub fn with_parallel_execution(self, parallel: bool) -> (c: Self)
        ensures
            c == (DiagnosticConfig { parallel_execution: parallel, ..self }),
    {
        DiagnosticConfig { parallel_execution: parallel, ..self }
    }
}

/// Outcome of one check.
#[derive(Debug, Clone, Copy, PartialEq, Eq, Structural)]
pub enum DiagnosticStatus {
    Success,
    Warning,
    Error,
    Skipped,
}

/// Severity of a finding; declared from the most to the least severe, and
/// ordered in that order.
#[derive(Debug, Clone, Copy, PartialEq, Eq, PartialOrd, Ord, Structural)]
pub enum Severity {
    Critical,
    High,
    Medium,
    Low,
    Info,
}

/// The position of a severity in its declaration order, which is the order
/// `<` compares by: `Critical` is least, `Info` greatest.
pub open spec fn severity_rank(s: Severity) -> nat {
    match s {
        Severity::Critical => 0,
        Severity::High => 1,
        Severity::Medium => 2,
        Severity::Low => 3,
        Severity::Info => 4,
    }
}

/// The rank of a severity, as a number.
pub fn severity_rank_of(s: Severity) -> (r: u8)
    ensures
        r as nat == severity_rank(s),
{
    match s {
        Severity::Critical => 0,
        Severity::High => 1,
        Severity::Medium => 2,
        Severity::Low => 3,
        Severity::Info => 4,
    }
}

/// The result of one diagnostic check.
#[derive(Debug)]
pub struct DiagnosticResult {
    pub item_name: String,
    pub status: DiagnosticStatus,
    pub message: String,
    pub details: Option<serde_json::Value>,
    pub duration: Duration,
    pub severity: Severity,
    pub auto_fixable: bool,
}

impl Clone for DiagnosticResult {
    fn clone(&self) -> (r: Self)
        ensures
            r == *self,
    {
        DiagnosticResult {
            item_name: self.item_name.clone(),
            status: self.status,
            message: self.message.clone(),
            details: match &self.details {
                Some(d) => Some(d.clone()),
                None => None,
            },
            duration: self.duration.clone(),
            severity: self.severity,
            auto_fixable: self.auto_fixable,
        }
    }
}

impl DiagnosticResult {
    /// A successful check, of severity `Info`.
    pub fn success(item_name: String, message: String, duration: Duration) -> (r: Self)
        ensures
            r == (DiagnosticResult {
                item_name: item_name,
                status: DiagnosticStatus::Success,
                message: message,
                details: None,
                duration: duration,
                severity: Severity::Info,
                auto_fixable: false,
            }),
    {
        DiagnosticResult {
            item_name,
            status: DiagnosticStatus::Success,
            message,
            details: None,
            duration,
            severity: Severity::Info,
            auto_fixable: false,
        }
    }

    /// A check that ended with a warning of the given severity.
    pub fn warning(item_name: String, message: String, duration: Duration, severity: Severity) -> (r:
        Self)
        ensures
            r == (DiagnosticResult {
                item_name: item_name,
                status: DiagnosticStatus::Warning,
                message: message,
                details: None,
                duration: duration,
                severity: severity,
                auto_fixable: false,
            }),
    {
        DiagnosticResult {
            item_name,
            status: DiagnosticStatus::Warning,
            message,
            details: None,
            duration,
            severity,
            auto_fixable: false,
        }
    }

    /// A failed check of the given severity.
    pub fn error(item_name: String, message: String, duration: Duration, severity: Severity) -> (r:
        Self)
        ensures
            r == (DiagnosticResult {
                item_name: item_name,
                status: DiagnosticStatus::Error,
                message: message,
                details: None,
                duration: duration,
                severity: severity,
                auto_fixable: false,
            }),
    {
        DiagnosticResult {
            item_name,
            status: DiagnosticStatus::Error,
            message,
            details: None,
            duration,
            severity,
            auto_fixable: false,
        }
    }

    /// Attaches details.
    pub fn with_details(self, details: serde_json::Value) -> (r: Self)
        ensures
            r == (DiagnosticResult { details: Some(details), ..self }),
    {
        DiagnosticResult { details: Some(details), ..self }
    }

    /// Marks whether the finding can be fixed automatically.
    pub fn with_auto_fixable(self, auto_fixable: bool) -> (r: Self)
        ensures
            r == (DiagnosticResult { auto_fixable: auto_fixable, ..self }),
    {
        DiagnosticResult { auto_fixable, ..self }
    }
}

/// Progress of a diagnostic run.
#[derive(Debug)]
pub struct DiagnosticProgress {
    pub current_item: String,
    pub completed: usize,
    pub total: usize,
    pub elapsed: Duration,
    pub estimated_remaining: Option<Duration>,
}

/// The estimate of the time left, in nanoseconds: the average time per
/// completed item times the items left.
pub open spec fn remaining_estimate_nanos(elapsed_nanos: nat, completed: nat, total: nat) -> nat
    recommends
        completed > 0,
{
    let left: nat = if total > completed {
        (total - completed) as nat
    } else {
        0
    };
    elapsed_nanos * left / completed
}

/// The longest duration, in nanoseconds, plus one: `u64::MAX + 1` seconds.
pub open spec fn duration_limit_nanos() -> nat {
    18_446_744_073_709_551_616 * 1_000_000_000
}

proof fn lemma_scaled_quotient(e: nat, c: nat, left: nat)
    requires
        c > 0,
    ensures
        (e * left) / c == (e / c) * left + ((e % c) * left) / c,
{
    let q = e / c;
    let r = e % c;
    vstd::arithmetic::div_mod::lemma_fundamental_div_mod(e as int, c as int);
    assert(e * left == r * left + (q * left) * c) by (nonlinear_arith)
        requires
            e == c * q + r,
    ;
    vstd::arithmetic::div_mod::lemma_hoist_over_denominator((r * left) as int, (q * left) as int, c);
}

impl Clone for DiagnosticProgress {
    fn clone(&self) -> (r: Self)
        ensures
            r == *self,
    {
        DiagnosticProgress {
            current_item: self.current_item.clone(),
            completed: self.completed,
            total: self.total,
            elapsed: self.elapsed.clone(),
            estimated_remaining: match &self.estimated_remaining {
                Some(d) => Some(d.clone()),
                None => None,
            },
        }
    }
}

impl DiagnosticProgress {
    /// Progress with an estimate of the time left, which exists once at
    /// least one item has completed: the time elapsed per completed item
    /// times the items left, to the nanosecond. The estimate must fit in a
    /// `Duration`.
    pub fn new(current_item: String, completed: usize, total: usize, elapsed: Duration) -> (p: Self)
        requires
            completed > 0 ==> remaining_estimate_nanos(duration_nanos(elapsed), completed as nat, total as nat)
                < duration_limit_nanos(),
        ensures
            p.current_item == current_item,
            p.completed == completed,
            p.total == total,
            p.elapsed == elapsed,
            completed == 0 ==> p.estimated_remaining is None,
            completed > 0 ==> p.estimated_remaining is Some && duration_nanos(
                p.estimated_remaining->0,
            ) == remaining_estimate_nanos(duration_nanos(elapsed), completed as nat, total as nat),
    {
        let estimated_remaining = if completed > 0 {
            let e: u128 = elapsed.as_nanos();
            let left: usize = if total > completed {
                total - completed
            } else {
                0
            };
            let l: u128 = left as u128;
            let c: u128 = completed as u128;
            let q: u128 = e / c;
            let r: u128 = e % c;
            proof {
                lemma_scaled_quotient(e as nat, c as nat, l as nat);
                assert(r * l <= 0xffff_ffff_ffff_ffff * 0xffff_ffff_ffff_ffff) by (nonlinear_arith)
                    requires
                        r < c <= 0xffff_ffff_ffff_ffff,
                        l <= 0xffff_ffff_ffff_ffff,
                ;
                let ei = e as int;
                let li = l as int;
                let ci = c as int;
                let qi = q as int;
                let ri = r as int;
                assert(qi * li <= (ei * li) / ci) by (nonlinear_arith)
                    requires
                        (ei * li) / ci == qi * li + (ri * li) / ci,
                        ri * li >= 0,
                        ci > 0,
                ;
            }
            let small: u128 = (r * l) / c;
            let est: u128 = q * l + small;
            let secs: u128 = est / 1_000_000_000;
            let nanos: u128 = est % 1_000_000_000;
            Some(Duration::new(secs as u64, nanos as u32))
        } else {
            None
        };
        DiagnosticProgress { current_item, completed, total, elapsed, estimated_remaining }
    }
}

/// The checks a full diagnostic run performs, in order.
pub open spec fn full_diagnostic_items() -> Seq<Seq<char>> {
    seq![
        "instance_state"@,
        "ssm_agent_enhanced"@,
        "iam_permissions"@,
        "vpc_endpoints"@,
        "security_groups"@,
        "network_connectivity"@,
        "local_port_availability"@,
    ]
}

/// The checks of a pre-connection check, in order.
pub open spec fn precheck_items() -> Seq<Seq<char>> {
    seq!["instance_state"@, "local_port_availability"@, "iam_permissions"@]
}

/// The names of the checks a full diagnostic run performs, in order.
pub fn diagnostic_items() -> (v: Vec<String>)
    ensures
        v@.map_values(|s: String| s@) == full_diagnostic_items(),
{
    let mut v: Vec<String> = Vec::new();
    v.push(String::from_str("instance_state"));
    v.push(String::from_str("ssm_agent_enhanced"));
    v.push(String::from_str("iam_permissions"));
    v.push(String::from_str("vpc_endpoints"));
    v.push(String::from_str("security_groups"));
    v.push(String::from_str("network_connectivity"));
    v.push(String::from_str("local_port_availability"));
    assert(v@.map_values(|s: String| s@) =~= full_diagnostic_items());
    v
}

/// The names of the checks of a pre-connection check, in order.
pub fn precheck_item_names() -> (v: Vec<String>)
    ensures
        v@.map_values(|s: String| s@) == precheck_items(),
{
    let mut v: Vec<String> = Vec::new();
    v.push(String::from_str("instance_state"));
    v.push(String::from_str("local_port_availability"));
    v.push(String::from_str("iam_permissions"));
    assert(v@.map_values(|s: String| s@) =~= precheck_items());
    v
}

} // verus!
