//! Configuration: the settings groups, the reconnection policy and its
//! delays, validation of the values, and the diagnostic settings.

use crate::text::{concat3, str_eq, strings_view};
use crate::time::duration_nanos;
use std::path::PathBuf;
use std::time::Duration;
use vstd::prelude::*;
use vstd::arithmetic::power2::{
    lemma2_to64, lemma_pow2_strictly_increases, lemma_pow2_unfold, pow2,
};

verus! {

/// `std::path::PathBuf`, carried as an opaque value.
#[verifier::external_type_specification]
#[verifier::external_body]
pub struct ExPathBuf(PathBuf);

/// Cloning a `PathBuf` gives an equal path.
pub assume_specification[ <PathBuf as Clone>::clone ](p: &PathBuf) -> (r: PathBuf)
    ensures
        r == *p,
;

/// What `PathBuf::from` makes of a string.
pub uninterp spec fn path_from_text(s: Seq<char>) -> PathBuf;

/// `PathBuf::from(String)`; named by `path_from_text`.
#[verifier::external_body]
pub(crate) fn path_from_string(s: String) -> (p: PathBuf)
    ensures
        p == path_from_text(s@),
{
    PathBuf::from(s)
}

/// AWS settings.
#[derive(Debug, Clone)]
pub struct AwsConfig {
    pub default_profile: Option<String>,
    pub default_region: String,
    /// Seconds.
    pub connection_timeout: u64,
    /// Seconds.
    pub request_timeout: u64,
}

/// Session management settings.
#[derive(Debug, Clone, Copy, PartialEq, Eq, Structural)]
pub struct SessionConfig {
    pub max_sessions_per_instance: u32,
    /// Seconds.
    pub health_check_interval: u64,
    /// Seconds.
    pub timeout_prediction_threshold: u64,
    /// Seconds.
    pub inactive_timeout: u64,
    pub reconnection: ReconnectionConfig,
}

/// Automatic reconnection settings, delays in milliseconds.
#[derive(Debug, Clone, Copy, PartialEq, Eq, Structural)]
pub struct ReconnectionConfig {
    pub enabled: bool,
    pub max_attempts: u32,
    pub base_delay_ms: u64,
    pub max_delay_ms: u64,
    pub aggressive_mode: bool,
    pub aggressive_attempts: u32,
    pub aggressive_interval_ms: u64,
}

/// The reconnection policy a session uses, delays as durations.
#[derive(Debug, Clone)]
pub struct ReconnectionPolicy {
    pub enabled: bool,
    pub max_attempts: u32,
    pub base_delay: Duration,
    pub max_delay: Duration,
    pub aggressive_mode: bool,
    pub aggressive_attempts: u32,
    pub aggressive_interval: Duration,
}

/// Performance monitoring settings.
#[derive(Debug, Clone, Copy, PartialEq, Eq, Structural)]
pub struct PerformanceConfig {
    pub monitoring_enabled: bool,
    /// Seconds.
    pub metrics_interval: u64,
    pub latency_threshold_ms: u64,
    pub optimization_enabled: bool,
}

/// Resource limits: the integral part of the resource settings (the CPU
/// share, a fraction, is kept by the application).
#[derive(Debug, Clone, Copy, PartialEq, Eq, Structural)]
pub struct ResourceLimits {
    pub max_memory_mb: u64,
    pub low_power_mode: bool,
    /// Seconds.
    pub monitoring_interval: u64,
}

/// Terminal UI settings.
#[derive(Debug, Clone, Copy, PartialEq, Eq, Structural)]
pub struct UiConfig {
    pub rich_ui: bool,
    pub update_interval_ms: u64,
    pub show_progress: bool,
    pub notifications: bool,
}

/// Logging settings.
#[derive(Debug, Clone)]
pub struct LoggingConfig {
    /// One of trace, debug, info, warn, error.
    pub level: String,
    pub file_logging: bool,
    pub log_file: Option<PathBuf>,
    pub json_format: bool,
}

/// VS Code integration settings.
#[derive(Debug, Clone)]
pub struct VsCodeConfig {
    pub vscode_path: Option<String>,
    pub ssh_config_path: Option<String>,
    pub auto_launch_enabled: bool,
    pub notifications_enabled: bool,
    /// Seconds.
    pub launch_delay_seconds: u64,
    pub auto_update_ssh_config: bool,
}

impl ReconnectionConfig {
    /// The policy with the same settings, delays as durations.
    pub fn to_policy(&self) -> (p: ReconnectionPolicy)
        ensures
            p.enabled == self.enabled,
            p.max_attempts == self.max_attempts,
            duration_nanos(p.base_delay) == self.base_delay_ms as nat * 1_000_000,
            duration_nanos(p.max_delay) == self.max_delay_ms as nat * 1_000_000,
            p.aggressive_mode == self.aggressive_mode,
            p.aggressive_attempts == self.aggressive_attempts,
            duration_nanos(p.aggressive_interval) == self.aggressive_interval_ms as nat * 1_000_000,
    {
        ReconnectionPolicy {
            enabled: self.enabled,
            max_attempts: self.max_attempts,
            base_delay: Duration::from_millis(self.base_delay_ms),
            max_delay: Duration::from_millis(self.max_delay_ms),
            aggressive_mode: self.aggressive_mode,
            aggressive_attempts: self.aggressive_attempts,
            aggressive_interval: Duration::from_millis(self.aggressive_interval_ms),
        }
    }

    /// The settings of a policy, delays in whole milliseconds (a count of
    /// milliseconds beyond `u64` keeps its low 64 bits, as `as u64` does).
    pub fn from_policy(policy: &ReconnectionPolicy) -> (c: Self)
        ensures
            c.enabled == policy.enabled,
            c.max_attempts == policy.max_attempts,
            c.base_delay_ms == (duration_nanos(policy.base_delay) / 1_000_000) as u64,
            c.max_delay_ms == (duration_nanos(policy.max_delay) / 1_000_000) as u64,
            c.aggressive_mode == policy.aggressive_mode,
            c.aggressive_attempts == policy.aggressive_attempts,
            c.aggressive_interval_ms == (duration_nanos(policy.aggressive_interval) / 1_000_000) as u64,
    {
        ReconnectionConfig {
            enabled: policy.enabled,
            max_attempts: policy.max_attempts,
            base_delay_ms: millis_u64(&policy.base_delay),
            max_delay_ms: millis_u64(&policy.max_delay),
            aggressive_mode: policy.aggressive_mode,
            aggressive_attempts: policy.aggressive_attempts,
            aggressive_interval_ms: millis_u64(&policy.aggressive_interval),
        }
    }
}

fn millis_u64(d: &Duration) -> (m: u64)
    ensures
        m == (duration_nanos(*d) / 1_000_000) as u64,
{
    let wide: u128 = d.as_millis();
    #[verifier::truncate]
    let m = wide as u64;
    m
}

/// Law: turning settings into a policy and back gives the same settings.
pub proof fn lemma_policy_round_trip(c: ReconnectionConfig, p: ReconnectionPolicy)
    requires
        p.enabled == c.enabled,
        p.max_attempts == c.max_attempts,
        duration_nanos(p.base_delay) == c.base_delay_ms as nat * 1_000_000,
        duration_nanos(p.max_delay) == c.max_delay_ms as nat * 1_000_000,
        p.aggressive_mode == c.aggressive_mode,
        p.aggressive_attempts == c.aggressive_attempts,
        duration_nanos(p.aggressive_interval) == c.aggressive_interval_ms as nat * 1_000_000,
    ensures
        (ReconnectionConfig {
            enabled: p.enabled,
            max_attempts: p.max_attempts,
            base_delay_ms: (duration_nanos(p.base_delay) / 1_000_000) as u64,
            max_delay_ms: (duration_nanos(p.max_delay) / 1_000_000) as u64,
            aggressive_mode: p.aggressive_mode,
            aggressive_attempts: p.aggressive_attempts,
            aggressive_interval_ms: (duration_nanos(p.aggressive_interval) / 1_000_000) as u64,
        }) == c,
{
    assert((c.base_delay_ms as nat * 1_000_000) / 1_000_000 == c.base_delay_ms as nat) by (nonlinear_arith);
    assert((c.max_delay_ms as nat * 1_000_000) / 1_000_000 == c.max_delay_ms as nat) by (nonlinear_arith);
    assert((c.aggressive_interval_ms as nat * 1_000_000) / 1_000_000 == c.aggressive_interval_ms as nat)
        by (nonlinear_arith);
}

/// Whether an attempt falls in the aggressive phase.
pub open spec fn in_aggressive_phase(r: ReconnectionConfig, attempt: u32) -> bool {
    r.aggressive_mode && attempt <= r.aggressive_attempts
}

/// The exponential delay before an attempt, before the cap:
/// `base_delay_ms * 2^(attempt - 1)`, with attempt 0 counted as 1.
pub open spec fn exponential_delay(r: ReconnectionConfig, attempt: u32) -> nat {
    let e: nat = if attempt == 0 {
        0
    } else {
        (attempt - 1) as nat
    };
    r.base_delay_ms as nat * pow2(e)
}

/// The delay before a reconnection attempt, in milliseconds: the aggressive
/// interval during the aggressive phase, otherwise the exponential delay
/// capped at the maximum delay.
pub open spec fn reconnection_delay(r: ReconnectionConfig, attempt: u32) -> nat {
    if in_aggressive_phase(r, attempt) {
        r.aggressive_interval_ms as nat
    } else if exponential_delay(r, attempt) < r.max_delay_ms {
        exponential_delay(r, attempt)
    } else {
        r.max_delay_ms as nat
    }
}

proof fn lemma_pow2_monotone(a: nat, b: nat)
    requires
        a <= b,
    ensures
        pow2(a) <= pow2(b),
{
    if a < b {
        lemma_pow2_strictly_increases(a, b);
    }
}

/// The delay before a reconnection attempt, in milliseconds (what
/// `Config::get_reconnection_delay` returns as a duration). An exponential
/// delay too large for `u64` is past the cap, so the cap is returned.
pub fn reconnection_delay_ms(r: &ReconnectionConfig, attempt: u32) -> (d: u64)
    ensures
        d as nat == reconnection_delay(*r, attempt),
{
    if r.aggressive_mode && attempt <= r.aggressive_attempts {
        r.aggressive_interval_ms
    } else {
        let e: u32 = if attempt == 0 {
            0
        } else {
            attempt - 1
        };
        let mut p: u64 = 1;
        let mut i: u32 = 0;
        proof {
            lemma2_to64();
        }
        while i < e && p <= 0x7fff_ffff_ffff_ffff
            invariant
                i <= e,
                p as nat == pow2(i as nat),
            decreases e - i,
        {
            proof {
                lemma_pow2_unfold((i + 1) as nat);
            }
            p = p * 2;
            i = i + 1;
        }
        if i == e {
            match r.base_delay_ms.checked_mul(p) {
                Some(exp) => {
                    if exp < r.max_delay_ms {
                        exp
                    } else {
                        r.max_delay_ms
                    }
                },
                None => r.max_delay_ms,
            }
        } else {
            proof {
                lemma_pow2_monotone((i + 1) as nat, e as nat);
                lemma_pow2_unfold((i + 1) as nat);
                assert(pow2(e as nat) >= 0x1_0000_0000_0000_0000);
                assert(r.base_delay_ms > 0 ==> r.base_delay_ms as nat * pow2(e as nat) >= pow2(e as nat))
                    by (nonlinear_arith);
            }
            if r.base_delay_ms == 0 {
                0
            } else {
                r.max_delay_ms
            }
        }
    }
}

/// Law: whatever the attempt, the delay is at most the maximum delay or,
/// during the aggressive phase, the aggressive interval.
pub proof fn lemma_reconnection_delay_at_most(r: ReconnectionConfig, attempt: u32)
    ensures
        reconnection_delay(r, attempt) <= (if r.max_delay_ms >= r.aggressive_interval_ms {
            r.max_delay_ms
        } else {
            r.aggressive_interval_ms
        }),
{
}

/// Law: outside the aggressive phase the delay never exceeds the maximum
/// delay, and it never shrinks from one attempt to the next.
pub proof fn lemma_reconnection_delay_bounded_and_monotone(
    r: ReconnectionConfig,
    a: u32,
    b: u32,
)
    requires
        !in_aggressive_phase(r, a),
        !in_aggressive_phase(r, b),
        a <= b,
    ensures
        reconnection_delay(r, a) <= r.max_delay_ms,
        reconnection_delay(r, a) <= reconnection_delay(r, b),
{
    let ea: nat = if a == 0 {
        0
    } else {
        (a - 1) as nat
    };
    let eb: nat = if b == 0 {
        0
    } else {
        (b - 1) as nat
    };
    lemma_pow2_monotone(ea, eb);
    assert(r.base_delay_ms as nat * pow2(ea) <= r.base_delay_ms as nat * pow2(eb)) by (nonlinear_arith)
        requires
            pow2(ea) <= pow2(eb),
    ;
}


/// Diagnostic settings.
#[derive(Debug)]
pub struct DiagnosticSettings {
    pub enabled: bool,
    /// The diagnostic items that run.
    pub enabled_checks: Vec<String>,
    pub auto_fix_enabled: bool,
    pub safe_auto_fix_only: bool,
    pub parallel_execution: bool,
    pub timeout_seconds: u64,
    /// How many ports around the requested one the port check scans.
    pub port_scan_range: u16,
    /// One of text, json, yaml.
    pub report_format: String,
    pub output_directory: String,
    pub realtime_feedback: bool,
    pub feedback_refresh_interval_ms: u64,
    pub enable_colors: bool,
    pub auto_confirm_critical: bool,
}

/// The checks a default diagnostic run performs, in order.
pub open spec fn default_checks() -> Seq<Seq<char>> {
    seq![
        "instance_state"@,
        "ssm_agent"@,
        "iam_permissions"@,
        "vpc_endpoints"@,
        "security_groups"@,
        "network_connectivity"@,
        "local_port_availability"@,
    ]
}

/// The user's platform data directory (`dirs::data_dir`); it depends on the
/// environment, so nothing is stated of it.
#[verifier::external_body]
fn platform_data_dir() -> (d: Option<PathBuf>) {
    dirs::data_dir()
}

/// The user's home directory (`dirs::home_dir`); it depends on the
/// environment, so nothing is stated of it.
#[verifier::external_body]
fn platform_home_dir() -> (d: Option<PathBuf>) {
    dirs::home_dir()
}

/// The user's platform configuration directory (`dirs::config_dir`); it
/// depends on the environment, so nothing is stated of it.
#[verifier::external_body]
fn platform_config_dir() -> (d: Option<PathBuf>) {
    dirs::config_dir()
}

/// What `Path::join` makes of a path and a relative component.
pub uninterp spec fn joined_path(p: PathBuf, component: Seq<char>) -> PathBuf;

/// What `Path::to_string_lossy` renders of a path.
pub uninterp spec fn path_text(p: PathBuf) -> Seq<char>;

/// `Path::join`; named by `joined_path`.
#[verifier::external_body]
fn join_path(p: &PathBuf, component: &str) -> (r: PathBuf)
    ensures
        r == joined_path(*p, component@),
{
    p.join(component)
}

/// `Path::to_string_lossy`, as an owned string; named by `path_text`.
#[verifier::external_body]
fn render_path(p: &PathBuf) -> (r: String)
    ensures
        r@ == path_text(*p),
{
    p.to_string_lossy().to_string()
}

/// The reports directory below a base data directory.
pub open spec fn reports_dir_in(base: PathBuf) -> PathBuf {
    joined_path(joined_path(base, "ec2-connect"@), "reports"@)
}

/// The data directory derived from a home directory (`~/.local/share`).
pub open spec fn data_dir_in_home(home: PathBuf) -> PathBuf {
    joined_path(joined_path(home, ".local"@), "share"@)
}

/// The reports directory chosen from the platform data directory, else from
/// the home directory, else the relative `reports`.
pub open spec fn reports_dir(data: Option<PathBuf>, home: Option<PathBuf>) -> PathBuf {
    match data {
        Some(d) => reports_dir_in(d),
        None => match home {
            Some(h) => reports_dir_in(data_dir_in_home(h)),
            None => path_from_text("reports"@),
        },
    }
}

/// The reports directory for given platform directories.
pub fn choose_reports_dir(data: Option<PathBuf>, home: Option<PathBuf>) -> (r: PathBuf)
    ensures
        r == reports_dir(data, home),
{
    match data {
        Some(d) => join_path(&join_path(&d, "ec2-connect"), "reports"),
        None => match home {
            Some(h) => {
                let base = join_path(&join_path(&h, ".local"), "share");
                join_path(&join_path(&base, "ec2-connect"), "reports")
            },
            None => path_from_string(String::from_str("reports")),
        },
    }
}

/// The configuration file below a configuration directory.
pub open spec fn config_file_in(dir: PathBuf) -> PathBuf {
    joined_path(joined_path(dir, "nimbus"@), "config.json"@)
}

/// The configuration file for given platform directories: below the platform
/// configuration directory, else below `~/.config`; none without either.
pub open spec fn config_file_path(config: Option<PathBuf>, home: Option<PathBuf>) -> Result<PathBuf, Seq<char>> {
    match config {
        Some(c) => Ok(config_file_in(c)),
        None => match home {
            Some(h) => Ok(config_file_in(joined_path(h, ".config"@))),
            None => Err("Could not determine config directory"@),
        },
    }
}

/// The configuration file for given platform directories.
pub fn choose_config_path(config: Option<PathBuf>, home: Option<PathBuf>) -> (r: Result<PathBuf, String>)
    ensures
        match config_file_path(config, home) {
            Ok(p) => r == Ok::<PathBuf, String>(p),
            Err(m) => r is Err && r->Err_0@ == m,
        },
{
    let dir = match config {
        Some(c) => c,
        None => match home {
            Some(h) => join_path(&h, ".config"),
            None => {
                return Err(String::from_str("Could not determine config directory"));
            },
        },
    };
    Ok(join_path(&join_path(&dir, "nimbus"), "config.json"))
}

/// The default configuration file path of this user: `nimbus/config.json`
/// below the platform configuration directory, else below `~/.config`; an
/// error when neither directory is known.
pub fn default_config_path() -> (r: Result<PathBuf, String>)
    ensures
        exists|config: Option<PathBuf>, home: Option<PathBuf>|
            match #[trigger] config_file_path(config, home) {
                Ok(p) => r == Ok::<PathBuf, String>(p),
                Err(m) => r is Err && r->Err_0@ == m,
            },
        r is Err ==> r->Err_0@ == "Could not determine config directory"@,
{
    let config = platform_config_dir();
    let home = platform_home_dir();
    let ghost (gc, gh) = (config, home);
    let r = choose_config_path(config, home);
    assert(match config_file_path(gc, gh) {
        Ok(p) => r == Ok::<PathBuf, String>(p),
        Err(m) => r is Err && r->Err_0@ == m,
    });
    r
}

impl DiagnosticSettings {
    /// Default settings, with reports written below the given directory.
    pub fn with_output_directory(output_directory: String) -> (d: Self)
        ensures
            d.enabled,
            strings_view(d.enabled_checks@) == default_checks(),
            !d.auto_fix_enabled,
            d.safe_auto_fix_only,
            d.parallel_execution,
            d.timeout_seconds == 30,
            d.port_scan_range == 10,
            d.report_format@ == "text"@,
            d.output_directory@ == output_directory@,
            d.realtime_feedback,
            d.feedback_refresh_interval_ms == 100,
            d.enable_colors,
            !d.auto_confirm_critical,
    {
        let mut checks: Vec<String> = Vec::new();
        checks.push(String::from_str("instance_state"));
        checks.push(String::from_str("ssm_agent"));
        checks.push(String::from_str("iam_permissions"));
        checks.push(String::from_str("vpc_endpoints"));
        checks.push(String::from_str("security_groups"));
        checks.push(String::from_str("network_connectivity"));
        checks.push(String::from_str("local_port_availability"));
        assert(strings_view(checks@) =~= default_checks());
        DiagnosticSettings {
            enabled: true,
            enabled_checks: checks,
            auto_fix_enabled: false,
            safe_auto_fix_only: true,
            parallel_execution: true,
            timeout_seconds: 30,
            port_scan_range: 10,
            report_format: String::from_str("text"),
            output_directory,
            realtime_feedback: true,
            feedback_refresh_interval_ms: 100,
            enable_colors: true,
            auto_confirm_critical: false,
        }
    }
}

impl Default for DiagnosticSettings {
    /// Default settings; reports go to `ec2-connect/reports` below the
    /// user's data directory.
    fn default() -> (d: Self)
        ensures
            d.enabled,
            strings_view(d.enabled_checks@) == default_checks(),
            !d.auto_fix_enabled,
            d.safe_auto_fix_only,
            d.parallel_execution,
            d.timeout_seconds == 30,
            d.port_scan_range == 10,
            d.report_format@ == "text"@,
            exists|data: Option<PathBuf>, home: Option<PathBuf>|
                d.output_directory@ == path_text(#[trigger] reports_dir(data, home)),
            d.realtime_feedback,
            d.feedback_refresh_interval_ms == 100,
            d.enable_colors,
            !d.auto_confirm_critical,
    {
        let data = platform_data_dir();
        let home = platform_home_dir();
        let ghost (gd, gh) = (data, home);
        let dir = choose_reports_dir(data, home);
        let out = render_path(&dir);
        assert(out@ == path_text(reports_dir(gd, gh)));
        DiagnosticSettings::with_output_directory(out)
    }
}

/// All the settings of the tool but the CPU share, which the application
/// keeps beside them.
#[derive(Debug)]
pub struct Settings {
    pub aws: AwsConfig,
    pub session: SessionConfig,
    pub performance: PerformanceConfig,
    pub resources: ResourceLimits,
    pub ui: UiConfig,
    pub logging: LoggingConfig,
    pub vscode: VsCodeConfig,
    pub diagnostic: DiagnosticSettings,
}

/// The log levels the tool knows.
pub open spec fn is_log_level(s: Seq<char>) -> bool {
    s == "trace"@ || s == "debug"@ || s == "info"@ || s == "warn"@ || s == "error"@
}

/// Whether a text is one of the log levels.
pub fn log_level_known(s: &str) -> (r: bool)
    ensures
        r == is_log_level(s@),
{
    str_eq(s, "trace") || str_eq(s, "debug") || str_eq(s, "info") || str_eq(s, "warn") || str_eq(
        s,
        "error",
    )
}

/// The first rule that settings break, with its message; none when they are
/// valid. `cpu_in_range` says whether the CPU share lies in (0, 100].
pub open spec fn validation_error(s: Settings, cpu_in_range: bool) -> Option<Seq<char>> {
    let r = s.session.reconnection;
    if s.resources.max_memory_mb == 0 {
        Some("max_memory_mb must be greater than 0"@)
    } else if !cpu_in_range {
        Some("max_cpu_percent must be between 0.0 and 100.0"@)
    } else if s.session.max_sessions_per_instance == 0 {
        Some("max_sessions_per_instance must be greater than 0"@)
    } else if s.session.health_check_interval == 0 {
        Some("health_check_interval must be greater than 0"@)
    } else if r.enabled && r.max_attempts == 0 {
        Some("max_attempts must be greater than 0 when reconnection is enabled"@)
    } else if r.enabled && r.base_delay_ms == 0 {
        Some("base_delay_ms must be greater than 0"@)
    } else if r.enabled && r.max_delay_ms < r.base_delay_ms {
        Some("max_delay_ms must be greater than or equal to base_delay_ms"@)
    } else if r.enabled && r.aggressive_mode && r.aggressive_attempts == 0 {
        Some("aggressive_attempts must be greater than 0 when aggressive_mode is enabled"@)
    } else if r.enabled && r.aggressive_mode && r.aggressive_interval_ms == 0 {
        Some("aggressive_interval_ms must be greater than 0 when aggressive_mode is enabled"@)
    } else if s.performance.latency_threshold_ms == 0 {
        Some("latency_threshold_ms must be greater than 0"@)
    } else if s.performance.metrics_interval == 0 {
        Some("metrics_interval must be greater than 0"@)
    } else if s.ui.update_interval_ms == 0 {
        Some("update_interval_ms must be greater than 0"@)
    } else if !is_log_level(s.logging.level@) {
        Some(
            "Invalid log level '"@ + s.logging.level@
                + "'. Must be one of: trace, debug, info, warn, error"@,
        )
    } else if s.aws.connection_timeout == 0 {
        Some("connection_timeout must be greater than 0"@)
    } else if s.aws.request_timeout == 0 {
        Some("request_timeout must be greater than 0"@)
    } else {
        None
    }
}

fn invalid(msg: &str) -> (r: Result<(), String>)
    ensures
        r is Err && r->Err_0@ == msg@,
{
    Err(String::from_str(msg))
}

impl Settings {
    /// Checks the settings; the error names the first rule broken.
    /// `cpu_in_range` says whether the CPU share lies in (0, 100].
    pub fn validate(&self, cpu_in_range: bool) -> (r: Result<(), String>)
        ensures
            match validation_error(*self, cpu_in_range) {
                None => r is Ok,
                Some(m) => r is Err && r->Err_0@ == m,
            },
    {
        let r = self.session.reconnection;
        if self.resources.max_memory_mb == 0 {
            return invalid("max_memory_mb must be greater than 0");
        }
        if !cpu_in_range {
            return invalid("max_cpu_percent must be between 0.0 and 100.0");
        }
        if self.session.max_sessions_per_instance == 0 {
            return invalid("max_sessions_per_instance must be greater than 0");
        }
        if self.session.health_check_interval == 0 {
            return invalid("health_check_interval must be greater than 0");
        }
        if r.enabled {
            if r.max_attempts == 0 {
                return invalid("max_attempts must be greater than 0 when reconnection is enabled");
            }
            if r.base_delay_ms == 0 {
                return invalid("base_delay_ms must be greater than 0");
            }
            if r.max_delay_ms < r.base_delay_ms {
                return invalid("max_delay_ms must be greater than or equal to base_delay_ms");
            }
            if r.aggressive_mode {
                if r.aggressive_attempts == 0 {
                    return invalid(
                        "aggressive_attempts must be greater than 0 when aggressive_mode is enabled",
                    );
                }
                if r.aggressive_interval_ms == 0 {
                    return invalid(
                        "aggressive_interval_ms must be greater than 0 when aggressive_mode is enabled",
                    );
                }
            }
        }
        if self.performance.latency_threshold_ms == 0 {
            return invalid("latency_threshold_ms must be greater than 0");
        }
        if self.performance.metrics_interval == 0 {
            return invalid("metrics_interval must be greater than 0");
        }
        if self.ui.update_interval_ms == 0 {
            return invalid("update_interval_ms must be greater than 0");
        }
        if !log_level_known(self.logging.level.as_str()) {
            return Err(
                concat3(
                    "Invalid log level '",
                    self.logging.level.as_str(),
                    "'. Must be one of: trace, debug, info, warn, error",
                ),
            );
        }
        if self.aws.connection_timeout == 0 {
            return invalid("connection_timeout must be greater than 0");
        }
        if self.aws.request_timeout == 0 {
            return invalid("request_timeout must be greater than 0");
        }
        Ok(())
    }

    /// The delay before a reconnection attempt, in milliseconds.
    pub fn get_reconnection_delay(&self, attempt: u32) -> (d: Duration)
        ensures
            duration_nanos(d) == reconnection_delay(self.session.reconnection, attempt) * 1_000_000,
    {
        let ms = reconnection_delay_ms(&self.session.reconnection, attempt);
        Duration::from_millis(ms)
    }
}

/// The default values of the settings.
pub open spec fn is_default_settings(s: Settings) -> bool {
    &&& s.aws.default_profile is None
    &&& s.aws.default_region@ == "us-east-1"@
    &&& s.aws.connection_timeout == 30
    &&& s.aws.request_timeout == 60
    &&& s.session == SessionConfig {
        max_sessions_per_instance: 3,
        health_check_interval: 5,
        timeout_prediction_threshold: 300,
        inactive_timeout: 30,
        reconnection: ReconnectionConfig {
            enabled: true,
            max_attempts: 5,
            base_delay_ms: 1000,
            max_delay_ms: 16000,
            aggressive_mode: false,
            aggressive_attempts: 10,
            aggressive_interval_ms: 500,
        },
    }
    &&& s.performance == PerformanceConfig {
        monitoring_enabled: true,
        metrics_interval: 10,
        latency_threshold_ms: 200,
        optimization_enabled: true,
    }
    &&& s.resources == ResourceLimits { max_memory_mb: 10, low_power_mode: true, monitoring_interval: 5 }
    &&& s.ui == UiConfig { rich_ui: true, update_interval_ms: 1000, show_progress: true, notifications: true }
    &&& s.logging.level@ == "info"@
    &&& s.logging.file_logging
    &&& s.logging.log_file is None
    &&& !s.logging.json_format
}

impl Settings {
    /// The default settings, with the given VS Code and diagnostic settings.
    pub fn defaults(vscode: VsCodeConfig, diagnostic: DiagnosticSettings) -> (s: Settings)
        ensures
            is_default_settings(s),
            s.vscode == vscode,
            s.diagnostic == diagnostic,
    {
        Settings {
            aws: AwsConfig {
                default_profile: None,
                default_region: String::from_str("us-east-1"),
                connection_timeout: 30,
                request_timeout: 60,
            },
            session: SessionConfig {
                max_sessions_per_instance: 3,
                health_check_interval: 5,
                timeout_prediction_threshold: 300,
                inactive_timeout: 30,
                reconnection: ReconnectionConfig {
                    enabled: true,
                    max_attempts: 5,
                    base_delay_ms: 1000,
                    max_delay_ms: 16000,
                    aggressive_mode: false,
                    aggressive_attempts: 10,
                    aggressive_interval_ms: 500,
                },
            },
            performance: PerformanceConfig {
                monitoring_enabled: true,
                metrics_interval: 10,
                latency_threshold_ms: 200,
                optimization_enabled: true,
            },
            resources: ResourceLimits { max_memory_mb: 10, low_power_mode: true, monitoring_interval: 5 },
            ui: UiConfig { rich_ui: true, update_interval_ms: 1000, show_progress: true, notifications: true },
            logging: LoggingConfig {
                level: String::from_str("info"),
                file_logging: true,
                log_file: None,
                json_format: false,
            },
            vscode,
            diagnostic,
        }
    }
}

/// Law: the default settings pass validation (with the default CPU share,
/// which lies in range).
pub proof fn lemma_default_settings_valid(s: Settings)
    requires
        is_default_settings(s),
    ensures
        validation_error(s, true) is None,
{
    reveal_strlit("info");
    reveal_strlit("trace");
    reveal_strlit("debug");
}

/// Law: validation never fails on the reconnection rules while reconnection
/// is disabled, whatever the reconnection numbers.
pub proof fn lemma_disabled_reconnection_unchecked(s: Settings, t: Settings, cpu_in_range: bool)
    requires
        !s.session.reconnection.enabled,
        t.aws == s.aws,
        t.session.max_sessions_per_instance == s.session.max_sessions_per_instance,
        t.session.health_check_interval == s.session.health_check_interval,
        !t.session.reconnection.enabled,
        t.performance == s.performance,
        t.resources == s.resources,
        t.ui == s.ui,
        t.logging == s.logging,
    ensures
        validation_error(s, cpu_in_range) == validation_error(t, cpu_in_range),
{
}

/// Law: the settings pass validation exactly when every rule holds: memory
/// and the CPU share in range, at least one session per instance, a health
/// check interval, sane reconnection and aggressive-mode values when those
/// are on, positive performance and UI intervals, a known log level, and
/// positive AWS timeouts.
pub proof fn lemma_validation_accepts_exactly_valid(s: Settings, cpu_in_range: bool)
    ensures
        validation_error(s, cpu_in_range) is None <==> ({
            let r = s.session.reconnection;
            &&& s.resources.max_memory_mb > 0
            &&& cpu_in_range
            &&& s.session.max_sessions_per_instance > 0
            &&& s.session.health_check_interval > 0
            &&& r.enabled ==> r.max_attempts > 0 && r.base_delay_ms > 0 && r.max_delay_ms >= r.base_delay_ms
            &&& r.enabled && r.aggressive_mode ==> r.aggressive_attempts > 0 && r.aggressive_interval_ms > 0
            &&& s.performance.latency_threshold_ms > 0
            &&& s.performance.metrics_interval > 0
            &&& s.ui.update_interval_ms > 0
            &&& is_log_level(s.logging.level@)
            &&& s.aws.connection_timeout > 0
            &&& s.aws.request_timeout > 0
        }),
{
}

/// Law: settings with memory and the CPU share in range but no session
/// allowed per instance are refused for exactly that reason.
pub proof fn lemma_validation_requires_sessions(s: Settings, cpu_in_range: bool)
    requires
        s.resources.max_memory_mb > 0,
        cpu_in_range,
        s.session.max_sessions_per_instance == 0,
    ensures
        validation_error(s, cpu_in_range) == Some("max_sessions_per_instance must be greater than 0"@),
{
}

} // verus!
