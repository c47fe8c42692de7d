//! Health checks: how the outcome of a probe and its response time become a
//! health verdict, how a network target is read, and how the AWS command
//! line output is read.

use crate::text::{concat2, concat3, contains, decimal, decimal_string, parse_u16, parse_unsigned, str_contains};
use vstd::prelude::*;

verus! {

/// The outcome of one health check.
#[derive(Debug, Clone)]
pub struct HealthCheckResult {
    pub is_healthy: bool,
    pub response_time_ms: u64,
    pub error_message: Option<String>,
    pub details: Option<String>,
}

/// Response times above which a healthy check is flagged (warning) or
/// failed (error), in milliseconds.
#[derive(Debug, Clone, Copy, PartialEq, Eq, Structural)]
pub struct HealthThresholds {
    pub warning_ms: u64,
    pub error_ms: u64,
}

impl HealthThresholds {
    /// One second for a warning, five for an error.
    pub fn standard() -> (t: Self)
        ensures
            t == (HealthThresholds { warning_ms: 1000, error_ms: 5000 }),
    {
        HealthThresholds { warning_ms: 1000, error_ms: 5000 }
    }
}

/// The words a probe's verdict is reported with.
pub struct ProbeTexts {
    /// Details when the probe succeeded.
    pub healthy_details: String,
    /// Error when it did not.
    pub unhealthy_error: String,
    /// Error when it could not run, the reason after it.
    pub failure_prefix: &'static str,
    /// Error when the response was too slow, the time after it.
    pub slow_error_prefix: &'static str,
    /// Details when the response was slow, the time after it.
    pub slow_warning_prefix: &'static str,
}

/// The verdict of a probe: healthy when it succeeded in time; an answer
/// slower than the error threshold fails it, one slower than the warning
/// threshold is noted.
pub open spec fn probe_verdict(
    probe: Result<bool, Seq<char>>,
    response_ms: u64,
    t: HealthThresholds,
    healthy_details: Seq<char>,
    unhealthy_error: Seq<char>,
    failure_prefix: Seq<char>,
    slow_error_prefix: Seq<char>,
    slow_warning_prefix: Seq<char>,
) -> (bool, Option<Seq<char>>, Option<Seq<char>>) {
    let (ok, err, det): (bool, Option<Seq<char>>, Option<Seq<char>>) = match probe {
        Ok(true) => (true, None, Some(healthy_details)),
        Ok(false) => (false, Some(unhealthy_error), None),
        Err(e) => (false, Some(failure_prefix + e), None),
    };
    if ok && response_ms > t.error_ms {
        (false, Some(slow_error_prefix + decimal(response_ms as nat) + "ms"@), det)
    } else if ok && response_ms > t.warning_ms {
        (true, err, Some(slow_warning_prefix + decimal(response_ms as nat) + "ms"@))
    } else {
        (ok, err, det)
    }
}

/// The result of a probe that answered (`Ok(answer)`) or could not run
/// (`Err(reason)`), given its response time.
pub fn probe_result(
    probe: Result<bool, String>,
    response_ms: u64,
    t: HealthThresholds,
    texts: ProbeTexts,
) -> (r: HealthCheckResult)
    ensures
        r.response_time_ms == response_ms,
        (r.is_healthy, crate::text::opt_view(r.error_message), crate::text::opt_view(r.details))
            == probe_verdict(
            match probe {
                Ok(b) => Ok(b),
                Err(e) => Err(e@),
            },
            response_ms,
            t,
            texts.healthy_details@,
            texts.unhealthy_error@,
            texts.failure_prefix@,
            texts.slow_error_prefix@,
            texts.slow_warning_prefix@,
        ),
{
    let ProbeTexts { healthy_details, unhealthy_error, failure_prefix, slow_error_prefix, slow_warning_prefix } =
        texts;
    let (mut ok, mut err, mut det): (bool, Option<String>, Option<String>) = match probe {
        Ok(true) => (true, None, Some(healthy_details)),
        Ok(false) => (false, Some(unhealthy_error), None),
        Err(e) => (false, Some(concat2(failure_prefix, e.as_str())), None),
    };
    if ok && response_ms > t.error_ms {
        ok = false;
        let ms = decimal_string(response_ms);
        err = Some(concat3(slow_error_prefix, ms.as_str(), "ms"));
    } else if ok && response_ms > t.warning_ms {
        let ms = decimal_string(response_ms);
        det = Some(concat3(slow_warning_prefix, ms.as_str(), "ms"));
    }
    HealthCheckResult { is_healthy: ok, response_time_ms: response_ms, error_message: err, details: det }
}

/// The result of checking an SSM session: whether the AWS command line tool
/// is there, what the session lookup answered, and how long it took.
pub fn session_check_result(
    cli_available: bool,
    lookup: Result<bool, String>,
    response_ms: u64,
    t: HealthThresholds,
) -> (r: HealthCheckResult)
    ensures
        r.response_time_ms == response_ms,
        !cli_available ==> !r.is_healthy && r.error_message is Some && r.error_message->0@
            == "AWS CLI not available"@ && r.details is None,
        cli_available ==> (r.is_healthy, crate::text::opt_view(r.error_message), crate::text::opt_view(
            r.details,
        )) == probe_verdict(
            match lookup {
                Ok(b) => Ok(b),
                Err(e) => Err(e@),
            },
            response_ms,
            t,
            "Session is active and responsive"@,
            "Session is not active or not found"@,
            "Failed to check session status: "@,
            "Response time too high: "@,
            "Warning: High response time: "@,
        ),
{
    if !cli_available {
        return HealthCheckResult {
            is_healthy: false,
            response_time_ms: response_ms,
            error_message: Some(String::from_str("AWS CLI not available")),
            details: None,
        };
    }
    probe_result(
        lookup,
        response_ms,
        t,
        ProbeTexts {
            healthy_details: String::from_str("Session is active and responsive"),
            unhealthy_error: String::from_str("Session is not active or not found"),
            failure_prefix: "Failed to check session status: ",
            slow_error_prefix: "Response time too high: ",
            slow_warning_prefix: "Warning: High response time: ",
        },
    )
}

/// The text of a host and port.
pub open spec fn host_port_text(host: Seq<char>, port: u16) -> Seq<char> {
    host + ":"@ + decimal(port as nat)
}

/// The result of a connection test to a host and port.
pub fn network_check_result(
    host: &str,
    port: u16,
    connected: Result<bool, String>,
    response_ms: u64,
    t: HealthThresholds,
) -> (r: HealthCheckResult)
    ensures
        r.response_time_ms == response_ms,
        (r.is_healthy, crate::text::opt_view(r.error_message), crate::text::opt_view(r.details))
            == probe_verdict(
            match connected {
                Ok(b) => Ok(b),
                Err(e) => Err(e@),
            },
            response_ms,
            t,
            "Successfully connected to "@ + host_port_text(host@, port),
            "Failed to connect to "@ + host_port_text(host@, port),
            "Network connectivity test failed: "@,
            "Network response time too high: "@,
            "Warning: High network latency: "@,
        ),
{
    let p = decimal_string(port as u64);
    let hp = concat3(host, ":", p.as_str());
    proof {
        assert(hp@ =~= host_port_text(host@, port));
    }
    let ok_text = concat2("Successfully connected to ", hp.as_str());
    let fail_text = concat2("Failed to connect to ", hp.as_str());
    probe_result(
        connected,
        response_ms,
        t,
        ProbeTexts {
            healthy_details: ok_text,
            unhealthy_error: fail_text,
            failure_prefix: "Network connectivity test failed: ",
            slow_error_prefix: "Network response time too high: ",
            slow_warning_prefix: "Warning: High network latency: ",
        },
    )
}

/// The position of the first `:` in a text (its length when there is none).
pub open spec fn colon_at(s: Seq<char>) -> int
    decreases s.len(),
{
    if s.len() == 0 {
        0
    } else if s[0] == ':' {
        0
    } else {
        1 + colon_at(s.drop_first())
    }
}

/// The host and port a network target names: with a `:`, the text before
/// the first one and the port between it and the next (443 when that is
/// not a port number); without, the whole target and 443.
pub open spec fn network_target(s: Seq<char>) -> (Seq<char>, u16) {
    let c = colon_at(s);
    if c < s.len() {
        let rest = s.subrange(c + 1, s.len() as int);
        let field = rest.subrange(0, colon_at(rest));
        (
            s.subrange(0, c),
            match parse_unsigned(field, u16::MAX as nat) {
                Some(n) => n as u16,
                None => 443u16,
            },
        )
    } else {
        (s, 443u16)
    }
}

proof fn lemma_colon_at(s: Seq<char>)
    ensures
        0 <= colon_at(s) <= s.len(),
        forall|j: int| 0 <= j < colon_at(s) ==> s[j] != ':',
        colon_at(s) < s.len() ==> s[colon_at(s)] == ':',
    decreases s.len(),
{
    if s.len() > 0 && s[0] != ':' {
        let t = s.drop_first();
        lemma_colon_at(t);
        assert forall|j: int| 0 <= j < colon_at(s) implies s[j] != ':' by {
            if j > 0 {
                assert(s[j] == t[j - 1]);
            }
        }
        if colon_at(s) < s.len() {
            assert(s[colon_at(s)] == t[colon_at(t)]);
        }
    }
}

pub(crate) proof fn lemma_colon_at_unique(s: Seq<char>, p: int)
    requires
        0 <= p <= s.len(),
        forall|j: int| 0 <= j < p ==> s[j] != ':',
        p < s.len() ==> s[p] == ':',
    ensures
        colon_at(s) == p,
    decreases s.len(),
{
    if s.len() > 0 && s[0] != ':' {
        let t = s.drop_first();
        assert forall|j: int| 0 <= j < p - 1 implies t[j] != ':' by {
            assert(t[j] == s[j + 1]);
        }
        if p - 1 < t.len() {
            assert(t[p - 1] == s[p]);
        }
        lemma_colon_at_unique(t, p - 1);
    }
}

fn find_colon(v: &Vec<char>, from: usize) -> (r: usize)
    requires
        from <= v@.len(),
    ensures
        from <= r <= v@.len(),
        r - from == colon_at(v@.subrange(from as int, v@.len() as int)),
{
    let mut i: usize = from;
    while i < v.len() && v[i] != ':'
        invariant
            from <= i <= v@.len(),
            forall|j: int| from <= j < i ==> v@[j] != ':',
        decreases v.len() - i,
    {
        i = i + 1;
    }
    proof {
        let s = v@.subrange(from as int, v@.len() as int);
        assert forall|j: int| 0 <= j < i - from implies s[j] != ':' by {
            assert(s[j] == v@[from + j]);
        }
        if i < v.len() {
            assert(s[i - from] == v@[i as int]);
        }
        lemma_colon_at_unique(s, i - from);
    }
    i
}

fn chars_between(v: &Vec<char>, a: usize, b: usize) -> (s: String)
    requires
        a <= b <= v@.len(),
    ensures
        s@ == v@.subrange(a as int, b as int),
{
    let mut s = String::new();
    let mut i: usize = a;
    while i < b
        invariant
            a <= i <= b,
            b <= v@.len(),
            s@ == v@.subrange(a as int, i as int),
        decreases b - i,
    {
        s.push(v[i]);
        i = i + 1;
        assert(s@ =~= v@.subrange(a as int, i as int));
    }
    s
}

/// Reads a network target into a host and a port (443 by default).
pub fn parse_network_target(target: &str) -> (r: (String, u16))
    ensures
        (r.0@, r.1) == network_target(target@),
{
    let v = crate::text::chars_of(target);
    let c = find_colon(&v, 0);
    assert(v@.subrange(0, v@.len() as int) =~= target@);
    if c < v.len() {
        let e = find_colon(&v, c + 1);
        let host = chars_between(&v, 0, c);
        let field = chars_between(&v, c + 1, e);
        proof {
            let rest = target@.subrange(c + 1, target@.len() as int);
            assert(rest =~= v@.subrange(c + 1, v@.len() as int));
            assert(field@ =~= rest.subrange(0, colon_at(rest)));
        }
        let port: u16 = match parse_u16(field.as_str()) {
            Some(p) => p,
            None => 443,
        };
        (host, port)
    } else {
        (String::from_str(target), 443)
    }
}

/// Whether the AWS command line output shows the session as active.
pub open spec fn reports_active(output: Seq<char>) -> bool {
    contains(output, "\"Status\": \"Connected\""@) || contains(output, "\"Status\": \"Active\""@)
}

/// Whether the output of `aws ssm describe-sessions` shows the session as
/// connected or active.
pub fn session_reported_active(output: &str) -> (b: bool)
    ensures
        b == reports_active(output@),
{
    str_contains(output, "\"Status\": \"Connected\"") || str_contains(output, "\"Status\": \"Active\"")
}

/// Whether everything checked is healthy: the session, the network path,
/// the network itself, and enough memory and processor time.
pub fn overall_healthy(
    ssm: &HealthCheckResult,
    network: &HealthCheckResult,
    network_available: bool,
    enough_memory: bool,
    enough_cpu: bool,
) -> (b: bool)
    ensures
        b == (ssm.is_healthy && network.is_healthy && network_available && enough_memory && enough_cpu),
{
    ssm.is_healthy && network.is_healthy && network_available && enough_memory && enough_cpu
}

/// The text of a boolean, as `Display` writes it.
pub open spec fn bool_text(b: bool) -> Seq<char> {
    if b {
        "true"@
    } else {
        "false"@
    }
}

/// The early warning sent when a comprehensive check fails.
pub fn health_warning(ssm_healthy: bool, network_healthy: bool) -> (w: String)
    ensures
        w@ == "Health check failed - SSM: "@ + bool_text(ssm_healthy) + ", Network: "@ + bool_text(
            network_healthy,
        ) + ", Resources: low"@,
{
    let a: &str = if ssm_healthy {
        "true"
    } else {
        "false"
    };
    let b: &str = if network_healthy {
        "true"
    } else {
        "false"
    };
    proof {
        reveal_strlit("true");
        reveal_strlit("false");
    }
    let head = concat3("Health check failed - SSM: ", a, ", Network: ");
    concat3(head.as_str(), b, ", Resources: low")
}

/// The advice after a failed comprehensive check, in order: for the
/// session, for the network, for memory below 50 MB and for processor time
/// below 10 percent.
pub open spec fn session_advice(ssm_ok: bool, network_ok: bool, low_memory: bool, low_cpu: bool) -> Seq<Seq<char>> {
    (if !ssm_ok {
        seq!["Check SSM session status and connectivity"@, "Verify AWS credentials and permissions"@]
    } else {
        Seq::empty()
    }) + (if !network_ok {
        seq!["Check internet connectivity"@, "Verify AWS service endpoints are accessible"@]
    } else {
        Seq::empty()
    }) + (if low_memory {
        seq!["Free up memory (less than 50MB available)"@]
    } else {
        Seq::empty()
    }) + (if low_cpu {
        seq!["Reduce CPU load (less than 10% available)"@]
    } else {
        Seq::empty()
    })
}

/// The advice after a failed comprehensive check.
pub fn session_recommendations(ssm_ok: bool, network_ok: bool, low_memory: bool, low_cpu: bool) -> (v: Vec<&'static str>)
    ensures
        v@.map_values(|s: &'static str| s@) == session_advice(ssm_ok, network_ok, low_memory, low_cpu),
{
    let mut v: Vec<&'static str> = Vec::new();
    if !ssm_ok {
        v.push("Check SSM session status and connectivity");
        v.push("Verify AWS credentials and permissions");
    }
    if !network_ok {
        v.push("Check internet connectivity");
        v.push("Verify AWS service endpoints are accessible");
    }
    if low_memory {
        v.push("Free up memory (less than 50MB available)");
    }
    if low_cpu {
        v.push("Reduce CPU load (less than 10% available)");
    }
    assert(v@.map_values(|s: &'static str| s@) =~= session_advice(ssm_ok, network_ok, low_memory, low_cpu));
    v
}

/// The issues a system check reports, in order: memory, processor time and
/// network.
pub open spec fn system_issues_of(memory_ok: bool, cpu_ok: bool, network_ok: bool) -> Seq<Seq<char>> {
    (if !memory_ok {
        seq!["Low memory available (< 50MB)"@]
    } else {
        Seq::empty()
    }) + (if !cpu_ok {
        seq!["High CPU usage (< 10% available)"@]
    } else {
        Seq::empty()
    }) + (if !network_ok {
        seq!["Network connectivity issues"@]
    } else {
        Seq::empty()
    })
}

/// The issues a system check reports; none when the system is healthy.
pub fn system_issues(memory_ok: bool, cpu_ok: bool, network_ok: bool) -> (v: Vec<&'static str>)
    ensures
        v@.map_values(|s: &'static str| s@) == system_issues_of(memory_ok, cpu_ok, network_ok),
        v@.len() == 0 <==> (memory_ok && cpu_ok && network_ok),
{
    let mut v: Vec<&'static str> = Vec::new();
    if !memory_ok {
        v.push("Low memory available (< 50MB)");
    }
    if !cpu_ok {
        v.push("High CPU usage (< 10% available)");
    }
    if !network_ok {
        v.push("Network connectivity issues");
    }
    assert(v@.map_values(|s: &'static str| s@) =~= system_issues_of(memory_ok, cpu_ok, network_ok));
    v
}

/// Law: a check is never healthy with an error, nor healthy when it took
/// longer than the error threshold.
pub proof fn lemma_verdict_consistent(
    probe: Result<bool, Seq<char>>,
    response_ms: u64,
    t: HealthThresholds,
    a: Seq<char>,
    b: Seq<char>,
    c: Seq<char>,
    d: Seq<char>,
    e: Seq<char>,
)
    ensures
        probe_verdict(probe, response_ms, t, a, b, c, d, e).0 ==> probe_verdict(
            probe,
            response_ms,
            t,
            a,
            b,
            c,
            d,
            e,
        ).1 is None,
        probe_verdict(probe, response_ms, t, a, b, c, d, e).0 ==> response_ms <= t.error_ms,
        !probe_verdict(probe, response_ms, t, a, b, c, d, e).0 ==> probe_verdict(
            probe,
            response_ms,
            t,
            a,
            b,
            c,
            d,
            e,
        ).1 is Some,
{
}

} // verus!
