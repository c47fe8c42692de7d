use nimbus::commands::{
    apply_settings_command, env_category, env_category_label, env_help_listing,
    generate_command_path, generation_target, invalid_format_message, needs_save, parse_priority,
    DiagnosticSettingsCommands, EnvCategory, GuardAction, GuardEvent, GuardPhase, RecoveryGuard,
    SessionPriority, SettingsOutcome,
};
use nimbus::config::DiagnosticSettings;
use nimbus::connect::{forwarding_line, manager_choice, GateAction, GateEvent, ManagerChoice, PrecheckGate, PrecheckOutcome};
use nimbus::env_overrides::env_variables_help;
use nimbus::error::{AwsError, ConnectionError, NimbusError, SessionError};
use std::path::PathBuf;

fn settings() -> DiagnosticSettings {
    DiagnosticSettings::with_output_directory("out".to_string())
}

#[test]
fn enabling_a_check_twice_adds_it_once() {
    let mut s = settings();
    let o = apply_settings_command(
        &mut s,
        DiagnosticSettingsCommands::Enable { check_name: "custom".to_string() },
    );
    assert_eq!(o, SettingsOutcome::Enabled);
    assert!(needs_save(o));
    let o = apply_settings_command(
        &mut s,
        DiagnosticSettingsCommands::Enable { check_name: "custom".to_string() },
    );
    assert_eq!(o, SettingsOutcome::AlreadyEnabled);
    assert!(!needs_save(o));
    assert_eq!(s.enabled_checks.len(), 8);
    assert_eq!(s.enabled_checks[7], "custom");
}

#[test]
fn enabling_then_disabling_restores_the_checks() {
    let mut s = settings();
    let before = s.enabled_checks.clone();
    apply_settings_command(&mut s, DiagnosticSettingsCommands::Enable { check_name: "x".to_string() });
    let o = apply_settings_command(&mut s, DiagnosticSettingsCommands::Disable { check_name: "x".to_string() });
    assert_eq!(o, SettingsOutcome::Disabled);
    assert_eq!(s.enabled_checks, before);
    let o = apply_settings_command(&mut s, DiagnosticSettingsCommands::Disable { check_name: "x".to_string() });
    assert_eq!(o, SettingsOutcome::NotEnabled);
    let o = apply_settings_command(&mut s, DiagnosticSettingsCommands::Disable { check_name: "ssm_agent".to_string() });
    assert_eq!(o, SettingsOutcome::Disabled);
    assert!(!s.enabled_checks.contains(&"ssm_agent".to_string()));
}

#[test]
fn other_settings_commands() {
    let mut s = settings();
    assert_eq!(
        apply_settings_command(&mut s, DiagnosticSettingsCommands::AutoFix { enable: true, safe_only: false }),
        SettingsOutcome::AutoFixUpdated
    );
    assert!(s.auto_fix_enabled && !s.safe_auto_fix_only);
    apply_settings_command(&mut s, DiagnosticSettingsCommands::Timeout { seconds: 90 });
    assert_eq!(s.timeout_seconds, 90);
    apply_settings_command(&mut s, DiagnosticSettingsCommands::Parallel { enable: false });
    assert!(!s.parallel_execution);
    assert_eq!(
        apply_settings_command(&mut s, DiagnosticSettingsCommands::Format { format: "xml".to_string() }),
        SettingsOutcome::InvalidFormat
    );
    assert_eq!(s.report_format, "text");
    assert_eq!(invalid_format_message("xml"), "Invalid format 'xml'");
    apply_settings_command(&mut s, DiagnosticSettingsCommands::Format { format: "yaml".to_string() });
    assert_eq!(s.report_format, "yaml");
    assert_eq!(apply_settings_command(&mut s, DiagnosticSettingsCommands::Reset), SettingsOutcome::Reset);
    assert_eq!(s.report_format, "text");
    assert_eq!(s.timeout_seconds, 30);
    assert_eq!(s.enabled_checks.len(), 7);
}

#[test]
fn environment_help_is_grouped() {
    assert_eq!(env_category("NIMBUS_AWS_REGION"), EnvCategory::Aws);
    assert_eq!(env_category("NIMBUS_AGGRESSIVE_ATTEMPTS"), EnvCategory::Reconnection);
    assert_eq!(env_category("NIMBUS_MAX_SESSIONS"), EnvCategory::Session);
    assert_eq!(env_category("NIMBUS_LOG_FILE"), EnvCategory::Logging);
    assert_eq!(env_category("NIMBUS_VSCODE_PATH"), EnvCategory::Other);
    assert_eq!(env_category("NIMBUS_VSCODE_NOTIFICATIONS"), EnvCategory::Interface);
    assert_eq!(env_category_label(EnvCategory::Resources), "Resource Limits");
    let lines = env_help_listing(&env_variables_help());
    assert_eq!(lines.len(), 33);
    assert_eq!(lines[0].heading, Some(EnvCategory::Aws));
    assert_eq!(lines[1].heading, None);
    assert_eq!(lines[4].heading, Some(EnvCategory::Session));
    assert_eq!(lines[4].description, "Maximum sessions per instance");
}

#[test]
fn generated_files_get_the_extension_of_their_format() {
    assert_eq!(generation_target(PathBuf::from("/tmp/c.json"), "toml"), PathBuf::from("/tmp/c.toml"));
    assert_eq!(generation_target(PathBuf::from("/tmp/c"), "json"), PathBuf::from("/tmp/c.json"));
    assert_eq!(generation_target(PathBuf::from("/tmp/c.toml"), "toml"), PathBuf::from("/tmp/c.toml"));
    assert_eq!(
        generate_command_path(Some("x.yaml".to_string()), PathBuf::from("/d/config.json"), "json"),
        PathBuf::from("x.json")
    );
    assert_eq!(
        generate_command_path(None, PathBuf::from("/d/config.json"), "json"),
        PathBuf::from("/d/config.json")
    );
}

#[test]
fn priorities_are_read_without_case() {
    assert_eq!(parse_priority("HIGH"), SessionPriority::High);
    assert_eq!(parse_priority("Critical"), SessionPriority::Critical);
    assert_eq!(parse_priority("low"), SessionPriority::Low);
    assert_eq!(parse_priority("urgent"), SessionPriority::Normal);
}

#[test]
fn recovery_retries_a_recoverable_failure_once() {
    let mut g = RecoveryGuard::new();
    let err = NimbusError::Session(SessionError::CreationFailed { reason: "x".to_string() });
    assert!(matches!(g.step(GuardEvent::CommandDone(Err(err))), GuardAction::Recover(_)));
    assert!(matches!(g.step(GuardEvent::RecoveryDone(Ok(()))), GuardAction::RunAgain));
    assert_eq!(g.phase, GuardPhase::Retrying);
    let again = NimbusError::System("still".to_string());
    match g.step(GuardEvent::CommandDone(Err(again))) {
        GuardAction::Fail(NimbusError::System(m)) => assert_eq!(m, "still"),
        _ => panic!("expected the retry's error"),
    }
    assert!(matches!(g.step(GuardEvent::CommandDone(Ok(()))), GuardAction::Ignore));
}

#[test]
fn recovery_fails_at_once_on_an_unrecoverable_error() {
    let mut g = RecoveryGuard::new();
    let err = NimbusError::Aws(AwsError::AuthenticationFailed { message: "no".to_string() });
    assert!(matches!(g.step(GuardEvent::CommandDone(Err(err))), GuardAction::Fail(_)));
    assert_eq!(g.phase, GuardPhase::Finished);
    let mut ok = RecoveryGuard::new();
    assert!(matches!(ok.step(GuardEvent::CommandDone(Ok(()))), GuardAction::Succeed));
}

fn outcome(abort: bool, names: &[&str]) -> PrecheckOutcome {
    PrecheckOutcome {
        should_abort: abort,
        critical_names: names.iter().map(|s| s.to_string()).collect(),
        critical_messages: names.iter().map(|s| format!("{} failed", s)).collect(),
    }
}

#[test]
fn connect_gate_starts_a_stopped_instance_once_when_fixes_are_on() {
    let mut g = PrecheckGate::new(true);
    assert!(matches!(
        g.step(GateEvent::Checked(Ok(outcome(true, &["managed_instance_registration"])))),
        GateAction::StartInstance
    ));
    assert!(matches!(g.step(GateEvent::FixDone(true)), GateAction::Recheck));
    assert!(matches!(g.step(GateEvent::Checked(Ok(outcome(false, &[])))), GateAction::Proceed));
}

#[test]
fn connect_gate_refuses_on_critical_issues() {
    let mut g = PrecheckGate::new(false);
    match g.step(GateEvent::Checked(Ok(outcome(true, &["managed_instance_registration"])))) {
        GateAction::Abort { error, suggest_auto_fix } => {
            assert!(suggest_auto_fix);
            match error {
                NimbusError::Connection(ConnectionError::PreventiveCheckFailed { reason, issues }) => {
                    assert_eq!(reason, "Critical issues detected during preventive checks");
                    assert_eq!(issues, vec!["managed_instance_registration failed".to_string()]);
                }
                _ => panic!("expected a preventive check failure"),
            }
        }
        _ => panic!("expected the connection to be refused"),
    }
    let mut failed = PrecheckGate::new(true);
    assert!(matches!(failed.step(GateEvent::Checked(Err("down".to_string()))), GateAction::Proceed));
}

#[test]
fn connect_helpers() {
    assert_eq!(manager_choice(&Some("p".to_string()), &Some("r".to_string())), ManagerChoice::Profile);
    assert_eq!(manager_choice(&None, &Some("r".to_string())), ManagerChoice::Region);
    assert_eq!(
        forwarding_line("i-1", 8080, 443, &Some("alb.internal".to_string())),
        "Port forwarding: localhost:8080 -> i-1 -> alb.internal:443"
    );
    assert_eq!(forwarding_line("i-1", 8080, 80, &None), "Port forwarding: i-1:80 -> localhost:8080");
}
