use nimbus::config::{
    choose_config_path, choose_reports_dir, reconnection_delay_ms, DiagnosticSettings,
    ReconnectionConfig, Settings, VsCodeConfig,
};
use nimbus::env_overrides::env_variables_help;
use std::path::PathBuf;
use std::time::Duration;

fn vscode() -> VsCodeConfig {
    VsCodeConfig {
        vscode_path: None,
        ssh_config_path: None,
        auto_launch_enabled: false,
        notifications_enabled: true,
        launch_delay_seconds: 2,
        auto_update_ssh_config: true,
    }
}

fn defaults() -> Settings {
    Settings::defaults(vscode(), DiagnosticSettings::with_output_directory("reports".to_string()))
}

fn pairs(v: &[(&str, &str)]) -> Vec<(String, String)> {
    v.iter().map(|(a, b)| (a.to_string(), b.to_string())).collect()
}

#[test]
fn default_settings_are_valid() {
    let s = defaults();
    assert_eq!(s.aws.default_region, "us-east-1");
    assert_eq!(s.session.max_sessions_per_instance, 3);
    assert_eq!(s.session.reconnection.max_delay_ms, 16000);
    assert_eq!(s.logging.level, "info");
    assert!(s.validate(true).is_ok());
}

#[test]
fn validation_reports_the_first_rule_broken() {
    let mut s = defaults();
    assert_eq!(
        s.validate(false).unwrap_err(),
        "max_cpu_percent must be between 0.0 and 100.0"
    );
    s.resources.max_memory_mb = 0;
    assert_eq!(s.validate(false).unwrap_err(), "max_memory_mb must be greater than 0");
    s.resources.max_memory_mb = 10;
    s.session.reconnection.max_delay_ms = 10;
    assert_eq!(
        s.validate(true).unwrap_err(),
        "max_delay_ms must be greater than or equal to base_delay_ms"
    );
    s.session.reconnection.enabled = false;
    assert!(s.validate(true).is_ok());
    s.logging.level = "verbose".to_string();
    assert_eq!(
        s.validate(true).unwrap_err(),
        "Invalid log level 'verbose'. Must be one of: trace, debug, info, warn, error"
    );
    s.logging.level = "warn".to_string();
    s.aws.request_timeout = 0;
    assert_eq!(s.validate(true).unwrap_err(), "request_timeout must be greater than 0");
}

#[test]
fn aggressive_mode_rules_apply_only_when_enabled() {
    let mut s = defaults();
    s.session.reconnection.aggressive_attempts = 0;
    assert!(s.validate(true).is_ok());
    s.session.reconnection.aggressive_mode = true;
    assert_eq!(
        s.validate(true).unwrap_err(),
        "aggressive_attempts must be greater than 0 when aggressive_mode is enabled"
    );
}

#[test]
fn reconnection_delay_doubles_up_to_the_cap() {
    let r = defaults().session.reconnection;
    assert_eq!(reconnection_delay_ms(&r, 0), 1000);
    assert_eq!(reconnection_delay_ms(&r, 1), 1000);
    assert_eq!(reconnection_delay_ms(&r, 2), 2000);
    assert_eq!(reconnection_delay_ms(&r, 3), 4000);
    assert_eq!(reconnection_delay_ms(&r, 5), 16000);
    assert_eq!(reconnection_delay_ms(&r, 9), 16000);
    let mut aggressive = r;
    aggressive.aggressive_mode = true;
    assert_eq!(reconnection_delay_ms(&aggressive, 10), 500);
    assert_eq!(reconnection_delay_ms(&aggressive, 11), 16000);
    assert_eq!(defaults().get_reconnection_delay(4), Duration::from_millis(8000));
}

#[test]
fn policy_round_trip_keeps_the_settings() {
    let r = ReconnectionConfig {
        enabled: false,
        max_attempts: 7,
        base_delay_ms: 250,
        max_delay_ms: 9000,
        aggressive_mode: true,
        aggressive_attempts: 3,
        aggressive_interval_ms: 120,
    };
    let p = r.to_policy();
    assert_eq!(p.base_delay, Duration::from_millis(250));
    assert_eq!(p.aggressive_interval, Duration::from_millis(120));
    assert_eq!(ReconnectionConfig::from_policy(&p), r);
}

#[test]
fn environment_overrides_apply_in_order() {
    let mut s = defaults();
    let r = s.apply_env_overrides(
        &pairs(&[
            ("NIMBUS_AWS_REGION", "us-west-2"),
            ("NIMBUS_MAX_SESSIONS", "5"),
            ("NIMBUS_LOG_LEVEL", "DEBUG"),
            ("NIMBUS_RECONNECTION_ENABLED", "false"),
            ("NIMBUS_AWS_PROFILE", "dev"),
            ("NIMBUS_CONNECTION_TIMEOUT", "+45"),
            ("SOMETHING_ELSE", "x"),
        ]),
        true,
    );
    assert!(r.is_ok());
    assert_eq!(s.aws.default_region, "us-west-2");
    assert_eq!(s.session.max_sessions_per_instance, 5);
    assert_eq!(s.logging.level, "debug");
    assert!(!s.session.reconnection.enabled);
    assert_eq!(s.aws.default_profile.as_deref(), Some("dev"));
    assert_eq!(s.aws.connection_timeout, 45);
}

#[test]
fn environment_override_errors_stop_at_the_first_bad_value() {
    let mut s = defaults();
    let r = s.apply_env_overrides(
        &pairs(&[
            ("NIMBUS_AWS_REGION", "eu-central-1"),
            ("NIMBUS_REQUEST_TIMEOUT", "soon"),
            ("NIMBUS_MAX_SESSIONS", "9"),
        ]),
        true,
    );
    assert_eq!(r.unwrap_err(), "Invalid NIMBUS_REQUEST_TIMEOUT value");
    assert_eq!(s.aws.default_region, "eu-central-1");
    assert_eq!(s.session.max_sessions_per_instance, 3);

    let mut s = defaults();
    assert_eq!(
        s.apply_env_override("NIMBUS_RICH_UI", "yes", true).unwrap_err(),
        "Invalid NIMBUS_RICH_UI value (use true/false)"
    );
    assert_eq!(
        s.apply_env_override("NIMBUS_LOG_LEVEL", "loud", true).unwrap_err(),
        "Invalid NIMBUS_LOG_LEVEL value. Must be one of: trace, debug, info, warn, error"
    );
    assert_eq!(
        s.apply_env_override("NIMBUS_MAX_CPU_PERCENT", "abc", false).unwrap_err(),
        "Invalid NIMBUS_MAX_CPU_PERCENT value"
    );
    assert_eq!(
        s.apply_env_override("NIMBUS_MAX_SESSIONS", "4294967296", true).unwrap_err(),
        "Invalid NIMBUS_MAX_SESSIONS value"
    );
    assert!(s.apply_env_override("NIMBUS_LOG_FILE", "/tmp/nimbus.log", true).is_ok());
    assert_eq!(s.logging.log_file, Some(PathBuf::from("/tmp/nimbus.log")));
}

#[test]
fn environment_variable_list_starts_with_the_aws_settings() {
    let v = env_variables_help();
    assert_eq!(v.len(), 33);
    assert_eq!(v[0].0, "NIMBUS_AWS_PROFILE");
    assert_eq!(v[18].0, "NIMBUS_MAX_CPU_PERCENT");
    assert_eq!(v[32].0, "NIMBUS_VSCODE_AUTO_UPDATE_SSH");
}

#[test]
fn configuration_paths_follow_the_platform_directories() {
    assert_eq!(
        choose_config_path(Some(PathBuf::from("/home/u/.config")), None).unwrap(),
        PathBuf::from("/home/u/.config/nimbus/config.json")
    );
    assert_eq!(
        choose_config_path(None, Some(PathBuf::from("/home/u"))).unwrap(),
        PathBuf::from("/home/u/.config/nimbus/config.json")
    );
    assert_eq!(
        choose_config_path(None, None).unwrap_err(),
        "Could not determine config directory"
    );
    assert_eq!(
        choose_reports_dir(None, Some(PathBuf::from("/home/u"))),
        PathBuf::from("/home/u/.local/share/ec2-connect/reports")
    );
    assert_eq!(choose_reports_dir(None, None), PathBuf::from("reports"));
}

#[test]
fn diagnostic_settings_defaults() {
    let d = DiagnosticSettings::with_output_directory("/tmp/r".to_string());
    assert!(d.enabled);
    assert_eq!(d.enabled_checks.len(), 7);
    assert_eq!(d.enabled_checks[0], "instance_state");
    assert_eq!(d.timeout_seconds, 30);
    assert_eq!(d.port_scan_range, 10);
    assert_eq!(d.report_format, "text");
    assert_eq!(d.output_directory, "/tmp/r");
    assert!(!d.auto_fix_enabled);
}

#[test]
fn the_last_value_of_a_variable_wins() {
    let mut s = defaults();
    let r = s.apply_env_overrides(
        &pairs(&[
            ("NIMBUS_AWS_REGION", "eu-west-1"),
            ("NIMBUS_MAX_SESSIONS", "7"),
            ("NIMBUS_AWS_REGION", "ap-northeast-1"),
            ("NIMBUS_MAX_SESSIONS", "2"),
        ]),
        true,
    );
    assert!(r.is_ok());
    assert_eq!(s.aws.default_region, "ap-northeast-1");
    assert_eq!(s.session.max_sessions_per_instance, 2);
}

#[test]
fn reconnection_delay_is_capped_for_any_attempt() {
    let c = defaults();
    assert_eq!(c.get_reconnection_delay(70), Duration::from_millis(16000));
    assert_eq!(c.get_reconnection_delay(u32::MAX), Duration::from_millis(16000));
    let mut r = c.session.reconnection;
    r.base_delay_ms = u64::MAX;
    assert_eq!(reconnection_delay_ms(&r, 3), r.max_delay_ms);
    r.base_delay_ms = 0;
    assert_eq!(reconnection_delay_ms(&r, 200), 0);
}
