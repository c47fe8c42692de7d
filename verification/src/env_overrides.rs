//! Overrides of the settings from environment variables: which variables
//! there are, what each one sets, and the message for a value that does not
//! parse.

use crate::config::{
    is_log_level, log_level_known, path_from_string, path_from_text, PerformanceConfig,
    ReconnectionConfig, ResourceLimits, SessionConfig, Settings, UiConfig,
};
use crate::text::{
    ascii_lower, opt_view, parse_bool, parse_bool_spec, parse_u32, parse_u64, parse_unsigned, str_eq, to_ascii_lower,
};
use std::path::PathBuf;
use vstd::prelude::*;

verus! {

/// The settings that environment variables can change, strings by their
/// characters.
pub struct OverridableView {
    pub profile: Option<Seq<char>>,
    pub region: Seq<char>,
    pub connection_timeout: u64,
    pub request_timeout: u64,
    pub session: SessionConfig,
    pub performance: PerformanceConfig,
    pub resources: ResourceLimits,
    pub ui: UiConfig,
    pub level: Seq<char>,
    pub file_logging: bool,
    pub log_file: Option<PathBuf>,
    pub json_format: bool,
    pub vscode_path: Option<Seq<char>>,
    pub ssh_config_path: Option<Seq<char>>,
    pub auto_launch: bool,
    pub vscode_notifications: bool,
    pub launch_delay: u64,
    pub auto_update_ssh: bool,
}

/// The part of the settings that environment variables can change.
pub open spec fn overridable(s: Settings) -> OverridableView {
    OverridableView {
        profile: opt_view(s.aws.default_profile),
        region: s.aws.default_region@,
        connection_timeout: s.aws.connection_timeout,
        request_timeout: s.aws.request_timeout,
        session: s.session,
        performance: s.performance,
        resources: s.resources,
        ui: s.ui,
        level: s.logging.level@,
        file_logging: s.logging.file_logging,
        log_file: s.logging.log_file,
        json_format: s.logging.json_format,
        vscode_path: opt_view(s.vscode.vscode_path),
        ssh_config_path: opt_view(s.vscode.ssh_config_path),
        auto_launch: s.vscode.auto_launch_enabled,
        vscode_notifications: s.vscode.notifications_enabled,
        launch_delay: s.vscode.launch_delay_seconds,
        auto_update_ssh: s.vscode.auto_update_ssh_config,
    }
}

/// Two settings agree on everything environment variables cannot change.
pub open spec fn same_fixed_part(a: Settings, b: Settings) -> bool {
    a.diagnostic == b.diagnostic
}

/// What a variable of one group does, when the name belongs to it.
pub open spec fn step_aws_session(v: OverridableView, name: Seq<char>, value: Seq<char>, cpu_ok: bool) -> Option<Result<OverridableView, Seq<char>>> {
    if name == "NIMBUS_AWS_PROFILE"@ {
        Some(Ok(OverridableView { profile: Some(value), ..v }))
    } else if name == "NIMBUS_AWS_REGION"@ {
        Some(Ok(OverridableView { region: value, ..v }))
    } else if name == "NIMBUS_CONNECTION_TIMEOUT"@ {
        Some(match parse_unsigned(value, u64::MAX as nat) {
            Some(n) => Ok(OverridableView { connection_timeout: n as u64, ..v }),
            None => Err("Invalid NIMBUS_CONNECTION_TIMEOUT value"@),
        })
    } else if name == "NIMBUS_REQUEST_TIMEOUT"@ {
        Some(match parse_unsigned(value, u64::MAX as nat) {
            Some(n) => Ok(OverridableView { request_timeout: n as u64, ..v }),
            None => Err("Invalid NIMBUS_REQUEST_TIMEOUT value"@),
        })
    } else if name == "NIMBUS_MAX_SESSIONS"@ {
        Some(match parse_unsigned(value, u32::MAX as nat) {
            Some(n) => Ok(OverridableView { session: SessionConfig { max_sessions_per_instance: n as u32, ..v.session }, ..v }),
            None => Err("Invalid NIMBUS_MAX_SESSIONS value"@),
        })
    } else if name == "NIMBUS_HEALTH_CHECK_INTERVAL"@ {
        Some(match parse_unsigned(value, u64::MAX as nat) {
            Some(n) => Ok(OverridableView { session: SessionConfig { health_check_interval: n as u64, ..v.session }, ..v }),
            None => Err("Invalid NIMBUS_HEALTH_CHECK_INTERVAL value"@),
        })
    } else if name == "NIMBUS_INACTIVE_TIMEOUT"@ {
        Some(match parse_unsigned(value, u64::MAX as nat) {
            Some(n) => Ok(OverridableView { session: SessionConfig { inactive_timeout: n as u64, ..v.session }, ..v }),
            None => Err("Invalid NIMBUS_INACTIVE_TIMEOUT value"@),
        })
    } else if name == "NIMBUS_RECONNECTION_ENABLED"@ {
        Some(match parse_bool_spec(value) {
            Some(b) => Ok(OverridableView { session: SessionConfig { reconnection: ReconnectionConfig { enabled: b, ..v.session.reconnection }, ..v.session }, ..v }),
            None => Err("Invalid NIMBUS_RECONNECTION_ENABLED value (use true/false)"@),
        })
    } else {
        None
    }
}

/// What a variable of one group does, when the name belongs to it.
pub open spec fn step_reconnection_performance(v: OverridableView, name: Seq<char>, value: Seq<char>, cpu_ok: bool) -> Option<Result<OverridableView, Seq<char>>> {
    if name == "NIMBUS_MAX_RECONNECTION_ATTEMPTS"@ {
        Some(match parse_unsigned(value, u32::MAX as nat) {
            Some(n) => Ok(OverridableView { session: SessionConfig { reconnection: ReconnectionConfig { max_attempts: n as u32, ..v.session.reconnection }, ..v.session }, ..v }),
            None => Err("Invalid NIMBUS_MAX_RECONNECTION_ATTEMPTS value"@),
        })
    } else if name == "NIMBUS_RECONNECTION_BASE_DELAY_MS"@ {
        Some(match parse_unsigned(value, u64::MAX as nat) {
            Some(n) => Ok(OverridableView { session: SessionConfig { reconnection: ReconnectionConfig { base_delay_ms: n as u64, ..v.session.reconnection }, ..v.session }, ..v }),
            None => Err("Invalid NIMBUS_RECONNECTION_BASE_DELAY_MS value"@),
        })
    } else if name == "NIMBUS_RECONNECTION_MAX_DELAY_MS"@ {
        Some(match parse_unsigned(value, u64::MAX as nat) {
            Some(n) => Ok(OverridableView { session: SessionConfig { reconnection: ReconnectionConfig { max_delay_ms: n as u64, ..v.session.reconnection }, ..v.session }, ..v }),
            None => Err("Invalid NIMBUS_RECONNECTION_MAX_DELAY_MS value"@),
        })
    } else if name == "NIMBUS_AGGRESSIVE_RECONNECTION"@ {
        Some(match parse_bool_spec(value) {
            Some(b) => Ok(OverridableView { session: SessionConfig { reconnection: ReconnectionConfig { aggressive_mode: b, ..v.session.reconnection }, ..v.session }, ..v }),
            None => Err("Invalid NIMBUS_AGGRESSIVE_RECONNECTION value (use true/false)"@),
        })
    } else if name == "NIMBUS_AGGRESSIVE_ATTEMPTS"@ {
        Some(match parse_unsigned(value, u32::MAX as nat) {
            Some(n) => Ok(OverridableView { session: SessionConfig { reconnection: ReconnectionConfig { aggressive_attempts: n as u32, ..v.session.reconnection }, ..v.session }, ..v }),
            None => Err("Invalid NIMBUS_AGGRESSIVE_ATTEMPTS value"@),
        })
    } else if name == "NIMBUS_AGGRESSIVE_INTERVAL_MS"@ {
        Some(match parse_unsigned(value, u64::MAX as nat) {
            Some(n) => Ok(OverridableView { session: SessionConfig { reconnection: ReconnectionConfig { aggressive_interval_ms: n as u64, ..v.session.reconnection }, ..v.session }, ..v }),
            None => Err("Invalid NIMBUS_AGGRESSIVE_INTERVAL_MS value"@),
        })
    } else if name == "NIMBUS_PERFORMANCE_MONITORING"@ {
        Some(match parse_bool_spec(value) {
            Some(b) => Ok(OverridableView { performance: PerformanceConfig { monitoring_enabled: b, ..v.performance }, ..v }),
            None => Err("Invalid NIMBUS_PERFORMANCE_MONITORING value (use true/false)"@),
        })
    } else if name == "NIMBUS_LATENCY_THRESHOLD_MS"@ {
        Some(match parse_unsigned(value, u64::MAX as nat) {
            Some(n) => Ok(OverridableView { performance: PerformanceConfig { latency_threshold_ms: n as u64, ..v.performance }, ..v }),
            None => Err("Invalid NIMBUS_LATENCY_THRESHOLD_MS value"@),
        })
    } else if name == "NIMBUS_OPTIMIZATION_ENABLED"@ {
        Some(match parse_bool_spec(value) {
            Some(b) => Ok(OverridableView { performance: PerformanceConfig { optimization_enabled: b, ..v.performance }, ..v }),
            None => Err("Invalid NIMBUS_OPTIMIZATION_ENABLED value (use true/false)"@),
        })
    } else {
        None
    }
}

/// What a variable of one group does, when the name belongs to it.
pub open spec fn step_resources_ui_logging(v: OverridableView, name: Seq<char>, value: Seq<char>, cpu_ok: bool) -> Option<Result<OverridableView, Seq<char>>> {
    if name == "NIMBUS_MAX_MEMORY_MB"@ {
        Some(match parse_unsigned(value, u64::MAX as nat) {
            Some(n) => Ok(OverridableView { resources: ResourceLimits { max_memory_mb: n as u64, ..v.resources }, ..v }),
            None => Err("Invalid NIMBUS_MAX_MEMORY_MB value"@),
        })
    } else if name == "NIMBUS_MAX_CPU_PERCENT"@ {
        Some(if cpu_ok {
            Ok(v)
        } else {
            Err("Invalid NIMBUS_MAX_CPU_PERCENT value"@)
        })
    } else if name == "NIMBUS_LOW_POWER_MODE"@ {
        Some(match parse_bool_spec(value) {
            Some(b) => Ok(OverridableView { resources: ResourceLimits { low_power_mode: b, ..v.resources }, ..v }),
            None => Err("Invalid NIMBUS_LOW_POWER_MODE value (use true/false)"@),
        })
    } else if name == "NIMBUS_RICH_UI"@ {
        Some(match parse_bool_spec(value) {
            Some(b) => Ok(OverridableView { ui: UiConfig { rich_ui: b, ..v.ui }, ..v }),
            None => Err("Invalid NIMBUS_RICH_UI value (use true/false)"@),
        })
    } else if name == "NIMBUS_UI_UPDATE_INTERVAL_MS"@ {
        Some(match parse_unsigned(value, u64::MAX as nat) {
            Some(n) => Ok(OverridableView { ui: UiConfig { update_interval_ms: n as u64, ..v.ui }, ..v }),
            None => Err("Invalid NIMBUS_UI_UPDATE_INTERVAL_MS value"@),
        })
    } else if name == "NIMBUS_NOTIFICATIONS"@ {
        Some(match parse_bool_spec(value) {
            Some(b) => Ok(OverridableView { ui: UiConfig { notifications: b, ..v.ui }, ..v }),
            None => Err("Invalid NIMBUS_NOTIFICATIONS value (use true/false)"@),
        })
    } else if name == "NIMBUS_LOG_LEVEL"@ {
        Some(if is_log_level(ascii_lower(value)) {
            Ok(OverridableView { level: ascii_lower(value), ..v })
        } else {
            Err("Invalid NIMBUS_LOG_LEVEL value. Must be one of: trace, debug, info, warn, error"@)
        })
    } else if name == "NIMBUS_FILE_LOGGING"@ {
        Some(match parse_bool_spec(value) {
            Some(b) => Ok(OverridableView { file_logging: b, ..v }),
            None => Err("Invalid NIMBUS_FILE_LOGGING value (use true/false)"@),
        })
    } else {
        None
    }
}

/// What a variable of one group does, when the name belongs to it.
pub open spec fn step_logging_vscode(v: OverridableView, name: Seq<char>, value: Seq<char>, cpu_ok: bool) -> Option<Result<OverridableView, Seq<char>>> {
    if name == "NIMBUS_LOG_FILE"@ {
        Some(Ok(OverridableView { log_file: Some(path_from_text(value)), ..v }))
    } else if name == "NIMBUS_JSON_LOGGING"@ {
        Some(match parse_bool_spec(value) {
            Some(b) => Ok(OverridableView { json_format: b, ..v }),
            None => Err("Invalid NIMBUS_JSON_LOGGING value (use true/false)"@),
        })
    } else if name == "NIMBUS_VSCODE_PATH"@ {
        Some(Ok(OverridableView { vscode_path: Some(value), ..v }))
    } else if name == "NIMBUS_SSH_CONFIG_PATH"@ {
        Some(Ok(OverridableView { ssh_config_path: Some(value), ..v }))
    } else if name == "NIMBUS_VSCODE_AUTO_LAUNCH"@ {
        Some(match parse_bool_spec(value) {
            Some(b) => Ok(OverridableView { auto_launch: b, ..v }),
            None => Err("Invalid NIMBUS_VSCODE_AUTO_LAUNCH value (use true/false)"@),
        })
    } else if name == "NIMBUS_VSCODE_NOTIFICATIONS"@ {
        Some(match parse_bool_spec(value) {
            Some(b) => Ok(OverridableView { vscode_notifications: b, ..v }),
            None => Err("Invalid NIMBUS_VSCODE_NOTIFICATIONS value (use true/false)"@),
        })
    } else if name == "NIMBUS_VSCODE_LAUNCH_DELAY"@ {
        Some(match parse_unsigned(value, u64::MAX as nat) {
            Some(n) => Ok(OverridableView { launch_delay: n as u64, ..v }),
            None => Err("Invalid NIMBUS_VSCODE_LAUNCH_DELAY value"@),
        })
    } else if name == "NIMBUS_VSCODE_AUTO_UPDATE_SSH"@ {
        Some(match parse_bool_spec(value) {
            Some(b) => Ok(OverridableView { auto_update_ssh: b, ..v }),
            None => Err("Invalid NIMBUS_VSCODE_AUTO_UPDATE_SSH value (use true/false)"@),
        })
    } else {
        None
    }
}

/// What one variable does to the settings: the new settings, or the message
/// when its value does not parse. A name that is not a variable of the tool
/// changes nothing. `cpu_ok` says whether the value parses as the CPU share
/// (a fraction, parsed by the application).
pub open spec fn override_step(
    v: OverridableView,
    name: Seq<char>,
    value: Seq<char>,
    cpu_ok: bool,
) -> Result<OverridableView, Seq<char>> {
    match step_aws_session(v, name, value, cpu_ok) {
        Some(r) => r,
        None => match step_reconnection_performance(v, name, value, cpu_ok) {
            Some(r) => r,
            None => match step_resources_ui_logging(v, name, value, cpu_ok) {
                Some(r) => r,
                None => match step_logging_vscode(v, name, value, cpu_ok) {
                    Some(r) => r,
                    None => Ok(v),
                },
            },
        },
    }
}

/// The settings after the variables are applied in order, up to the first
/// value that does not parse, and that value's message.
pub open spec fn apply_all(
    v: OverridableView,
    vars: Seq<(String, String)>,
    cpu_ok: bool,
) -> (OverridableView, Option<Seq<char>>)
    decreases vars.len(),
{
    if vars.len() == 0 {
        (v, None)
    } else {
        match override_step(v, vars[0].0@, vars[0].1@, cpu_ok) {
            Ok(w) => apply_all(w, vars.drop_first(), cpu_ok),
            Err(m) => (v, Some(m)),
        }
    }
}

proof fn lemma_step_aws_session_by_name(
    v: OverridableView,
    w: OverridableView,
    name: Seq<char>,
    x: Seq<char>,
    y: Seq<char>,
    cpu_ok: bool,
)
    ensures
        step_aws_session(v, name, x, cpu_ok) is Some <==> step_aws_session(w, name, y, cpu_ok) is Some,
{
}

proof fn lemma_step_aws_session_last_wins(
    v: OverridableView,
    name: Seq<char>,
    first: Seq<char>,
    second: Seq<char>,
    cpu_ok: bool,
)
    requires
        step_aws_session(v, name, first, cpu_ok) matches Some(Ok(_)),
    ensures
        step_aws_session(step_aws_session(v, name, first, cpu_ok)->0->Ok_0, name, second, cpu_ok)
            == step_aws_session(v, name, second, cpu_ok),
{
}

proof fn lemma_step_reconnection_performance_by_name(
    v: OverridableView,
    w: OverridableView,
    name: Seq<char>,
    x: Seq<char>,
    y: Seq<char>,
    cpu_ok: bool,
)
    ensures
        step_reconnection_performance(v, name, x, cpu_ok) is Some <==> step_reconnection_performance(w, name, y, cpu_ok) is Some,
{
}

#[verifier::rlimit(60)]
proof fn lemma_step_reconnection_performance_last_wins(
    v: OverridableView,
    name: Seq<char>,
    first: Seq<char>,
    second: Seq<char>,
    cpu_ok: bool,
)
    requires
        step_reconnection_performance(v, name, first, cpu_ok) matches Some(Ok(_)),
    ensures
        step_reconnection_performance(step_reconnection_performance(v, name, first, cpu_ok)->0->Ok_0, name, second, cpu_ok)
            == step_reconnection_performance(v, name, second, cpu_ok),
{
}

proof fn lemma_step_resources_ui_logging_by_name(
    v: OverridableView,
    w: OverridableView,
    name: Seq<char>,
    x: Seq<char>,
    y: Seq<char>,
    cpu_ok: bool,
)
    ensures
        step_resources_ui_logging(v, name, x, cpu_ok) is Some <==> step_resources_ui_logging(w, name, y, cpu_ok) is Some,
{
}

#[verifier::rlimit(60)]
proof fn lemma_step_resources_ui_logging_last_wins(
    v: OverridableView,
    name: Seq<char>,
    first: Seq<char>,
    second: Seq<char>,
    cpu_ok: bool,
)
    requires
        step_resources_ui_logging(v, name, first, cpu_ok) matches Some(Ok(_)),
    ensures
        step_resources_ui_logging(step_resources_ui_logging(v, name, first, cpu_ok)->0->Ok_0, name, second, cpu_ok)
            == step_resources_ui_logging(v, name, second, cpu_ok),
{
}

proof fn lemma_step_logging_vscode_by_name(
    v: OverridableView,
    w: OverridableView,
    name: Seq<char>,
    x: Seq<char>,
    y: Seq<char>,
    cpu_ok: bool,
)
    ensures
        step_logging_vscode(v, name, x, cpu_ok) is Some <==> step_logging_vscode(w, name, y, cpu_ok) is Some,
{
}

proof fn lemma_step_logging_vscode_last_wins(
    v: OverridableView,
    name: Seq<char>,
    first: Seq<char>,
    second: Seq<char>,
    cpu_ok: bool,
)
    requires
        step_logging_vscode(v, name, first, cpu_ok) matches Some(Ok(_)),
    ensures
        step_logging_vscode(step_logging_vscode(v, name, first, cpu_ok)->0->Ok_0, name, second, cpu_ok)
            == step_logging_vscode(v, name, second, cpu_ok),
{
}

/// Law: the value in effect is the last one given: once a variable has been
/// applied, applying it again with another value gives what applying only
/// that value would have given, so an environment variable replaces the
/// file's setting whatever the file held.
pub proof fn lemma_last_value_wins(
    v: OverridableView,
    name: Seq<char>,
    first: Seq<char>,
    second: Seq<char>,
    cpu_ok: bool,
)
    requires
        override_step(v, name, first, cpu_ok) is Ok,
    ensures
        override_step(override_step(v, name, first, cpu_ok)->Ok_0, name, second, cpu_ok)
            == override_step(v, name, second, cpu_ok),
{
    let w = override_step(v, name, first, cpu_ok)->Ok_0;
    lemma_step_aws_session_by_name(v, w, name, first, second, cpu_ok);
    lemma_step_aws_session_by_name(v, v, name, first, second, cpu_ok);
    lemma_step_reconnection_performance_by_name(v, w, name, first, second, cpu_ok);
    lemma_step_reconnection_performance_by_name(v, v, name, first, second, cpu_ok);
    lemma_step_resources_ui_logging_by_name(v, w, name, first, second, cpu_ok);
    lemma_step_resources_ui_logging_by_name(v, v, name, first, second, cpu_ok);
    lemma_step_logging_vscode_by_name(v, w, name, first, second, cpu_ok);
    lemma_step_logging_vscode_by_name(v, v, name, first, second, cpu_ok);
    if step_aws_session(v, name, first, cpu_ok) is Some {
        lemma_step_aws_session_last_wins(v, name, first, second, cpu_ok);
    } else if step_reconnection_performance(v, name, first, cpu_ok) is Some {
        lemma_step_reconnection_performance_last_wins(v, name, first, second, cpu_ok);
    } else if step_resources_ui_logging(v, name, first, cpu_ok) is Some {
        lemma_step_resources_ui_logging_last_wins(v, name, first, second, cpu_ok);
    } else if step_logging_vscode(v, name, first, cpu_ok) is Some {
        lemma_step_logging_vscode_last_wins(v, name, first, second, cpu_ok);
    }
}

impl Settings {
    /// Applies one environment variable; on a value that does not parse the
    /// settings stay as they were and the message is returned.
    pub fn apply_env_override(&mut self, name: &str, value: &str, cpu_ok: bool) -> (r: Result<(), String>)
        ensures
            same_fixed_part(*old(self), *final(self)),
            match override_step(overridable(*old(self)), name@, value@, cpu_ok) {
                Ok(w) => r is Ok && overridable(*final(self)) == w,
                Err(m) => r is Err && r->Err_0@ == m && overridable(*final(self)) == overridable(*old(self)),
            },
    {
        if let Some(r) = self.apply_aws_session(name, value, cpu_ok) {
            r
        } else if let Some(r) = self.apply_reconnection_performance(name, value, cpu_ok) {
            r
        } else if let Some(r) = self.apply_resources_ui_logging(name, value, cpu_ok) {
            r
        } else if let Some(r) = self.apply_logging_vscode(name, value, cpu_ok) {
            r
        } else {
            Ok(())
        }
    }

    fn apply_aws_session(&mut self, name: &str, value: &str, cpu_ok: bool) -> (r: Option<Result<(), String>>)
        ensures
            same_fixed_part(*old(self), *final(self)),
            match step_aws_session(overridable(*old(self)), name@, value@, cpu_ok) {
                None => r is None && overridable(*final(self)) == overridable(*old(self)),
                Some(Ok(w)) => r == Some(Ok::<(), String>(())) && overridable(*final(self)) == w,
                Some(Err(m)) => r is Some && r->Some_0 is Err && r->Some_0->Err_0@ == m
                    && overridable(*final(self)) == overridable(*old(self)),
            },
    {
        if str_eq(name, "NIMBUS_AWS_PROFILE") {
            Some({
            self.aws.default_profile = Some(String::from_str(value));
            Ok(())
            })
        } else if str_eq(name, "NIMBUS_AWS_REGION") {
            Some({
            self.aws.default_region = String::from_str(value);
            Ok(())
            })
        } else if str_eq(name, "NIMBUS_CONNECTION_TIMEOUT") {
            Some({
            match parse_u64(value) {
                Some(n) => {
                    self.aws.connection_timeout = n;
                    Ok(())
                },
                None => Err(String::from_str("Invalid NIMBUS_CONNECTION_TIMEOUT value")),
            }
            })
        } else if str_eq(name, "NIMBUS_REQUEST_TIMEOUT") {
            Some({
            match parse_u64(value) {
                Some(n) => {
                    self.aws.request_timeout = n;
                    Ok(())
                },
                None => Err(String::from_str("Invalid NIMBUS_REQUEST_TIMEOUT value")),
            }
            })
        } else if str_eq(name, "NIMBUS_MAX_SESSIONS") {
            Some({
            match parse_u32(value) {
                Some(n) => {
                    self.session.max_sessions_per_instance = n;
                    Ok(())
                },
                None => Err(String::from_str("Invalid NIMBUS_MAX_SESSIONS value")),
            }
            })
        } else if str_eq(name, "NIMBUS_HEALTH_CHECK_INTERVAL") {
            Some({
            match parse_u64(value) {
                Some(n) => {
                    self.session.health_check_interval = n;
                    Ok(())
                },
                None => Err(String::from_str("Invalid NIMBUS_HEALTH_CHECK_INTERVAL value")),
            }
            })
        } else if str_eq(name, "NIMBUS_INACTIVE_TIMEOUT") {
            Some({
            match parse_u64(value) {
                Some(n) => {
                    self.session.inactive_timeout = n;
                    Ok(())
                },
                None => Err(String::from_str("Invalid NIMBUS_INACTIVE_TIMEOUT value")),
            }
            })
        } else if str_eq(name, "NIMBUS_RECONNECTION_ENABLED") {
            Some({
            match parse_bool(value) {
                Some(b) => {
                    self.session.reconnection.enabled = b;
                    Ok(())
                },
                None => Err(String::from_str("Invalid NIMBUS_RECONNECTION_ENABLED value (use true/false)")),
            }
            })
        } else {
            None
        }
    }

    fn apply_reconnection_performance(&mut self, name: &str, value: &str, cpu_ok: bool) -> (r: Option<Result<(), String>>)
        ensures
            same_fixed_part(*old(self), *final(self)),
            match step_reconnection_performance(overridable(*old(self)), name@, value@, cpu_ok) {
                None => r is None && overridable(*final(self)) == overridable(*old(self)),
                Some(Ok(w)) => r == Some(Ok::<(), String>(())) && overridable(*final(self)) == w,
                Some(Err(m)) => r is Some && r->Some_0 is Err && r->Some_0->Err_0@ == m
                    && overridable(*final(self)) == overridable(*old(self)),
            },
    {
        if str_eq(name, "NIMBUS_MAX_RECONNECTION_ATTEMPTS") {
            Some({
            match parse_u32(value) {
                Some(n) => {
                    self.session.reconnection.max_attempts = n;
                    Ok(())
                },
                None => Err(String::from_str("Invalid NIMBUS_MAX_RECONNECTION_ATTEMPTS value")),
            }
            })
        } else if str_eq(name, "NIMBUS_RECONNECTION_BASE_DELAY_MS") {
            Some({
            match parse_u64(value) {
                Some(n) => {
                    self.session.reconnection.base_delay_ms = n;
                    Ok(())
                },
                None => Err(String::from_str("Invalid NIMBUS_RECONNECTION_BASE_DELAY_MS value")),
            }
            })
        } else if str_eq(name, "NIMBUS_RECONNECTION_MAX_DELAY_MS") {
            Some({
            match parse_u64(value) {
                Some(n) => {
                    self.session.reconnection.max_delay_ms = n;
                    Ok(())
                },
                None => Err(String::from_str("Invalid NIMBUS_RECONNECTION_MAX_DELAY_MS value")),
            }
            })
        } else if str_eq(name, "NIMBUS_AGGRESSIVE_RECONNECTION") {
            Some({
            match parse_bool(value) {
                Some(b) => {
                    self.session.reconnection.aggressive_mode = b;
                    Ok(())
                },
                None => Err(String::from_str("Invalid NIMBUS_AGGRESSIVE_RECONNECTION value (use true/false)")),
            }
            })
        } else if str_eq(name, "NIMBUS_AGGRESSIVE_ATTEMPTS") {
            Some({
            match parse_u32(value) {
                Some(n) => {
                    self.session.reconnection.aggressive_attempts = n;
                    Ok(())
                },
                None => Err(String::from_str("Invalid NIMBUS_AGGRESSIVE_ATTEMPTS value")),
            }
            })
        } else if str_eq(name, "NIMBUS_AGGRESSIVE_INTERVAL_MS") {
            Some({
            match parse_u64(value) {
                Some(n) => {
                    self.session.reconnection.aggressive_interval_ms = n;
                    Ok(())
                },
                None => Err(String::from_str("Invalid NIMBUS_AGGRESSIVE_INTERVAL_MS value")),
            }
            })
        } else if str_eq(name, "NIMBUS_PERFORMANCE_MONITORING") {
            Some({
            match parse_bool(value) {
                Some(b) => {
                    self.performance.monitoring_enabled = b;
                    Ok(())
                },
                None => Err(String::from_str("Invalid NIMBUS_PERFORMANCE_MONITORING value (use true/false)")),
            }
            })
        } else if str_eq(name, "NIMBUS_LATENCY_THRESHOLD_MS") {
            Some({
            match parse_u64(value) {
                Some(n) => {
                    self.performance.latency_threshold_ms = n;
                    Ok(())
                },
                None => Err(String::from_str("Invalid NIMBUS_LATENCY_THRESHOLD_MS value")),
            }
            })
        } else if str_eq(name, "NIMBUS_OPTIMIZATION_ENABLED") {
            Some({
            match parse_bool(value) {
                Some(b) => {
                    self.performance.optimization_enabled = b;
                    Ok(())
                },
                None => Err(String::from_str("Invalid NIMBUS_OPTIMIZATION_ENABLED value (use true/false)")),
            }
            })
        } else {
            None
        }
    }

    fn apply_resources_ui_logging(&mut self, name: &str, value: &str, cpu_ok: bool) -> (r: Option<Result<(), String>>)
        ensures
            same_fixed_part(*old(self), *final(self)),
            match step_resources_ui_logging(overridable(*old(self)), name@, value@, cpu_ok) {
                None => r is None && overridable(*final(self)) == overridable(*old(self)),
                Some(Ok(w)) => r == Some(Ok::<(), String>(())) && overridable(*final(self)) == w,
                Some(Err(m)) => r is Some && r->Some_0 is Err && r->Some_0->Err_0@ == m
                    && overridable(*final(self)) == overridable(*old(self)),
            },
    {
        if str_eq(name, "NIMBUS_MAX_MEMORY_MB") {
            Some({
            match parse_u64(value) {
                Some(n) => {
                    self.resources.max_memory_mb = n;
                    Ok(())
                },
                None => Err(String::from_str("Invalid NIMBUS_MAX_MEMORY_MB value")),
            }
            })
        } else if str_eq(name, "NIMBUS_MAX_CPU_PERCENT") {
            Some({
            if cpu_ok {
                Ok(())
            } else {
                Err(String::from_str("Invalid NIMBUS_MAX_CPU_PERCENT value"))
            }
            })
        } else if str_eq(name, "NIMBUS_LOW_POWER_MODE") {
            Some({
            match parse_bool(value) {
                Some(b) => {
                    self.resources.low_power_mode = b;
                    Ok(())
                },
                None => Err(String::from_str("Invalid NIMBUS_LOW_POWER_MODE value (use true/false)")),
            }
            })
        } else if str_eq(name, "NIMBUS_RICH_UI") {
            Some({
            match parse_bool(value) {
                Some(b) => {
                    self.ui.rich_ui = b;
                    Ok(())
                },
                None => Err(String::from_str("Invalid NIMBUS_RICH_UI value (use true/false)")),
            }
            })
        } else if str_eq(name, "NIMBUS_UI_UPDATE_INTERVAL_MS") {
            Some({
            match parse_u64(value) {
                Some(n) => {
                    self.ui.update_interval_ms = n;
                    Ok(())
                },
                None => Err(String::from_str("Invalid NIMBUS_UI_UPDATE_INTERVAL_MS value")),
            }
            })
        } else if str_eq(name, "NIMBUS_NOTIFICATIONS") {
            Some({
            match parse_bool(value) {
                Some(b) => {
                    self.ui.notifications = b;
                    Ok(())
                },
                None => Err(String::from_str("Invalid NIMBUS_NOTIFICATIONS value (use true/false)")),
            }
            })
        } else if str_eq(name, "NIMBUS_LOG_LEVEL") {
            Some({
            let lower = to_ascii_lower(value);
            if log_level_known(lower.as_str()) {
                self.logging.level = lower;
                Ok(())
            } else {
                Err(String::from_str("Invalid NIMBUS_LOG_LEVEL value. Must be one of: trace, debug, info, warn, error"))
            }
            })
        } else if str_eq(name, "NIMBUS_FILE_LOGGING") {
            Some({
            match parse_bool(value) {
                Some(b) => {
                    self.logging.file_logging = b;
                    Ok(())
                },
                None => Err(String::from_str("Invalid NIMBUS_FILE_LOGGING value (use true/false)")),
            }
            })
        } else {
            None
        }
    }

    fn apply_logging_vscode(&mut self, name: &str, value: &str, cpu_ok: bool) -> (r: Option<Result<(), String>>)
        ensures
            same_fixed_part(*old(self), *final(self)),
            match step_logging_vscode(overridable(*old(self)), name@, value@, cpu_ok) {
                None => r is None && overridable(*final(self)) == overridable(*old(self)),
                Some(Ok(w)) => r == Some(Ok::<(), String>(())) && overridable(*final(self)) == w,
                Some(Err(m)) => r is Some && r->Some_0 is Err && r->Some_0->Err_0@ == m
                    && overridable(*final(self)) == overridable(*old(self)),
            },
    {
        if str_eq(name, "NIMBUS_LOG_FILE") {
            Some({
            self.logging.log_file = Some(path_from_string(String::from_str(value)));
            Ok(())
            })
        } else if str_eq(name, "NIMBUS_JSON_LOGGING") {
            Some({
            match parse_bool(value) {
                Some(b) => {
                    self.logging.json_format = b;
                    Ok(())
                },
                None => Err(String::from_str("Invalid NIMBUS_JSON_LOGGING value (use true/false)")),
            }
            })
        } else if str_eq(name, "NIMBUS_VSCODE_PATH") {
            Some({
            self.vscode.vscode_path = Some(String::from_str(value));
            Ok(())
            })
        } else if str_eq(name, "NIMBUS_SSH_CONFIG_PATH") {
            Some({
            self.vscode.ssh_config_path = Some(String::from_str(value));
            Ok(())
            })
        } else if str_eq(name, "NIMBUS_VSCODE_AUTO_LAUNCH") {
            Some({
            match parse_bool(value) {
                Some(b) => {
                    self.vscode.auto_launch_enabled = b;
                    Ok(())
                },
                None => Err(String::from_str("Invalid NIMBUS_VSCODE_AUTO_LAUNCH value (use true/false)")),
            }
            })
        } else if str_eq(name, "NIMBUS_VSCODE_NOTIFICATIONS") {
            Some({
            match parse_bool(value) {
                Some(b) => {
                    self.vscode.notifications_enabled = b;
                    Ok(())
                },
                None => Err(String::from_str("Invalid NIMBUS_VSCODE_NOTIFICATIONS value (use true/false)")),
            }
            })
        } else if str_eq(name, "NIMBUS_VSCODE_LAUNCH_DELAY") {
            Some({
            match parse_u64(value) {
                Some(n) => {
                    self.vscode.launch_delay_seconds = n;
                    Ok(())
                },
                None => Err(String::from_str("Invalid NIMBUS_VSCODE_LAUNCH_DELAY value")),
            }
            })
        } else if str_eq(name, "NIMBUS_VSCODE_AUTO_UPDATE_SSH") {
            Some({
            match parse_bool(value) {
                Some(b) => {
                    self.vscode.auto_update_ssh_config = b;
                    Ok(())
                },
                None => Err(String::from_str("Invalid NIMBUS_VSCODE_AUTO_UPDATE_SSH value (use true/false)")),
            }
            })
        } else {
            None
        }
    }

    /// Applies environment variables in order; stops at the first value that
    /// does not parse and returns its message, the variables before it
    /// applied.
    pub fn apply_env_overrides(&mut self, vars: &Vec<(String, String)>, cpu_ok: bool) -> (r: Result<(), String>)
        ensures
            same_fixed_part(*old(self), *final(self)),
            overridable(*final(self)) == apply_all(overridable(*old(self)), vars@, cpu_ok).0,
            match apply_all(overridable(*old(self)), vars@, cpu_ok).1 {
                None => r is Ok,
                Some(m) => r is Err && r->Err_0@ == m,
            },
    {
        let ghost start = *self;
        assert(vars@.skip(0) =~= vars@);
        let mut i: usize = 0;
        while i < vars.len()
            invariant
                i <= vars.len(),
                start == *old(self),
                same_fixed_part(start, *self),
                apply_all(overridable(start), vars@, cpu_ok) == apply_all(
                    overridable(*self),
                    vars@.skip(i as int),
                    cpu_ok,
                ),
            decreases vars.len() - i,
        {
            let ghost before = *self;
            let ghost rest = vars@.skip(i as int);
            assert(rest[0] == vars@[i as int]);
            assert(rest.drop_first() =~= vars@.skip(i + 1));
            let (name, value) = (&vars[i].0, &vars[i].1);
            let r = self.apply_env_override(name.as_str(), value.as_str(), cpu_ok);
            proof {
                assert(name@ == rest[0].0@ && value@ == rest[0].1@);
                assert(apply_all(overridable(before), rest, cpu_ok) == match override_step(
                    overridable(before),
                    rest[0].0@,
                    rest[0].1@,
                    cpu_ok,
                ) {
                    Ok(w) => apply_all(w, rest.drop_first(), cpu_ok),
                    Err(m) => (overridable(before), Some(m)),
                });
            }
            match r {
                Ok(()) => {},
                Err(m) => {
                    return Err(m);
                },
            }
            i = i + 1;
        }
        assert(vars@.skip(i as int).len() == 0);
        Ok(())
    }
}

/// The environment variables the tool reads, in the order they are applied,
/// each with a line of help.
pub fn env_variables_help() -> (v: Vec<(&'static str, &'static str)>)
    ensures
        v@.len() == 33,
        v@[0].0@ == "NIMBUS_AWS_PROFILE"@,
        v@[1].0@ == "NIMBUS_AWS_REGION"@,
        v@[2].0@ == "NIMBUS_CONNECTION_TIMEOUT"@,
        v@[3].0@ == "NIMBUS_REQUEST_TIMEOUT"@,
        v@[4].0@ == "NIMBUS_MAX_SESSIONS"@,
        v@[5].0@ == "NIMBUS_HEALTH_CHECK_INTERVAL"@,
        v@[6].0@ == "NIMBUS_INACTIVE_TIMEOUT"@,
        v@[7].0@ == "NIMBUS_RECONNECTION_ENABLED"@,
        v@[8].0@ == "NIMBUS_MAX_RECONNECTION_ATTEMPTS"@,
        v@[9].0@ == "NIMBUS_RECONNECTION_BASE_DELAY_MS"@,
        v@[10].0@ == "NIMBUS_RECONNECTION_MAX_DELAY_MS"@,
        v@[11].0@ == "NIMBUS_AGGRESSIVE_RECONNECTION"@,
        v@[12].0@ == "NIMBUS_AGGRESSIVE_ATTEMPTS"@,
        v@[13].0@ == "NIMBUS_AGGRESSIVE_INTERVAL_MS"@,
        v@[14].0@ == "NIMBUS_PERFORMANCE_MONITORING"@,
        v@[15].0@ == "NIMBUS_LATENCY_THRESHOLD_MS"@,
        v@[16].0@ == "NIMBUS_OPTIMIZATION_ENABLED"@,
        v@[17].0@ == "NIMBUS_MAX_MEMORY_MB"@,
        v@[18].0@ == "NIMBUS_MAX_CPU_PERCENT"@,
        v@[19].0@ == "NIMBUS_LOW_POWER_MODE"@,
        v@[20].0@ == "NIMBUS_RICH_UI"@,
        v@[21].0@ == "NIMBUS_UI_UPDATE_INTERVAL_MS"@,
        v@[22].0@ == "NIMBUS_NOTIFICATIONS"@,
        v@[23].0@ == "NIMBUS_LOG_LEVEL"@,
        v@[24].0@ == "NIMBUS_FILE_LOGGING"@,
        v@[25].0@ == "NIMBUS_LOG_FILE"@,
        v@[26].0@ == "NIMBUS_JSON_LOGGING"@,
        v@[27].0@ == "NIMBUS_VSCODE_PATH"@,
        v@[28].0@ == "NIMBUS_SSH_CONFIG_PATH"@,
        v@[29].0@ == "NIMBUS_VSCODE_AUTO_LAUNCH"@,
        v@[30].0@ == "NIMBUS_VSCODE_NOTIFICATIONS"@,
        v@[31].0@ == "NIMBUS_VSCODE_LAUNCH_DELAY"@,
        v@[32].0@ == "NIMBUS_VSCODE_AUTO_UPDATE_SSH"@,
{
    let mut v: Vec<(&'static str, &'static str)> = Vec::new();
    v.push(("NIMBUS_AWS_PROFILE", "AWS profile to use for connections"));
    v.push(("NIMBUS_AWS_REGION", "AWS region for EC2 instances"));
    v.push(("NIMBUS_CONNECTION_TIMEOUT", "Connection timeout in seconds"));
    v.push(("NIMBUS_REQUEST_TIMEOUT", "Request timeout in seconds"));
    v.push(("NIMBUS_MAX_SESSIONS", "Maximum sessions per instance"));
    v.push(("NIMBUS_HEALTH_CHECK_INTERVAL", "Health check interval in seconds"));
    v.push(("NIMBUS_INACTIVE_TIMEOUT", "Inactive session timeout in seconds"));
    v.push(("NIMBUS_RECONNECTION_ENABLED", "Enable automatic reconnection (true/false)"));
    v.push(("NIMBUS_MAX_RECONNECTION_ATTEMPTS", "Maximum reconnection attempts"));
    v.push(("NIMBUS_RECONNECTION_BASE_DELAY_MS", "Base delay between reconnection attempts (ms)"));
    v.push(("NIMBUS_RECONNECTION_MAX_DELAY_MS", "Maximum delay between reconnection attempts (ms)"));
    v.push(("NIMBUS_AGGRESSIVE_RECONNECTION", "Enable aggressive reconnection mode (true/false)"));
    v.push(("NIMBUS_AGGRESSIVE_ATTEMPTS", "Number of aggressive reconnection attempts"));
    v.push(("NIMBUS_AGGRESSIVE_INTERVAL_MS", "Interval between aggressive attempts (ms)"));
    v.push(("NIMBUS_PERFORMANCE_MONITORING", "Enable performance monitoring (true/false)"));
    v.push(("NIMBUS_LATENCY_THRESHOLD_MS", "Latency threshold for optimization (ms)"));
    v.push(("NIMBUS_OPTIMIZATION_ENABLED", "Enable connection optimization (true/false)"));
    v.push(("NIMBUS_MAX_MEMORY_MB", "Maximum memory usage (MB)"));
    v.push(("NIMBUS_MAX_CPU_PERCENT", "Maximum CPU usage (%)"));
    v.push(("NIMBUS_LOW_POWER_MODE", "Enable low power mode (true/false)"));
    v.push(("NIMBUS_RICH_UI", "Enable rich terminal UI (true/false)"));
    v.push(("NIMBUS_UI_UPDATE_INTERVAL_MS", "UI update interval (ms)"));
    v.push(("NIMBUS_NOTIFICATIONS", "Enable desktop notifications (true/false)"));
    v.push(("NIMBUS_LOG_LEVEL", "Log level (trace/debug/info/warn/error)"));
    v.push(("NIMBUS_FILE_LOGGING", "Enable file logging (true/false)"));
    v.push(("NIMBUS_LOG_FILE", "Path to log file"));
    v.push(("NIMBUS_JSON_LOGGING", "Enable JSON log format (true/false)"));
    v.push(("NIMBUS_VSCODE_PATH", "Path to VS Code executable"));
    v.push(("NIMBUS_SSH_CONFIG_PATH", "Path to SSH config file"));
    v.push(("NIMBUS_VSCODE_AUTO_LAUNCH", "Enable VS Code auto launch (true/false)"));
    v.push(("NIMBUS_VSCODE_NOTIFICATIONS", "Enable VS Code integration notifications (true/false)"));
    v.push(("NIMBUS_VSCODE_LAUNCH_DELAY", "Delay before launching VS Code (seconds)"));
    v.push(("NIMBUS_VSCODE_AUTO_UPDATE_SSH", "Auto update SSH config (true/false)"));
    v
}

/// Law: the AWS profile and region variables set the profile and region to
/// their text, and the session limit variable sets the number of sessions
/// per instance to its value when that is a number that fits, and is
/// refused with its own message otherwise; nothing else changes.
pub proof fn lemma_session_and_aws_overrides(v: OverridableView, value: Seq<char>, cpu_ok: bool)
    ensures
        override_step(v, "NIMBUS_AWS_PROFILE"@, value, cpu_ok) == Ok::<OverridableView, Seq<char>>(
            OverridableView { profile: Some(value), ..v },
        ),
        override_step(v, "NIMBUS_AWS_REGION"@, value, cpu_ok) == Ok::<OverridableView, Seq<char>>(
            OverridableView { region: value, ..v },
        ),
        match parse_unsigned(value, u32::MAX as nat) {
            Some(n) => override_step(v, "NIMBUS_MAX_SESSIONS"@, value, cpu_ok) == Ok::<
                OverridableView,
                Seq<char>,
            >(
                OverridableView {
                    session: SessionConfig { max_sessions_per_instance: n as u32, ..v.session },
                    ..v
                },
            ),
            None => override_step(v, "NIMBUS_MAX_SESSIONS"@, value, cpu_ok) == Err::<OverridableView, Seq<char>>(
                "Invalid NIMBUS_MAX_SESSIONS value"@,
            ),
        },
{
    reveal_strlit("NIMBUS_AWS_PROFILE");
    reveal_strlit("NIMBUS_AWS_REGION");
    reveal_strlit("NIMBUS_CONNECTION_TIMEOUT");
    reveal_strlit("NIMBUS_REQUEST_TIMEOUT");
    reveal_strlit("NIMBUS_MAX_SESSIONS");
    assert("NIMBUS_AWS_PROFILE"@.len() == 18 && "NIMBUS_AWS_REGION"@.len() == 17);
    assert("NIMBUS_CONNECTION_TIMEOUT"@.len() == 25 && "NIMBUS_REQUEST_TIMEOUT"@.len() == 22);
    assert("NIMBUS_MAX_SESSIONS"@.len() == 19);
}

} // verus!
