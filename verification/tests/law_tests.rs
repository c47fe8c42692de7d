use nimbus::auto_fix::{FixAction, FixActionType};
use nimbus::aws::{aws_command_paths, next_aws_probe, AwsProbeStep};
use nimbus::commands::{GuardAction, GuardEvent, RecoveryGuard};
use nimbus::diagnostic::DiagnosticStatus;
use nimbus::diagnostic_run::{RunStep, SequentialRun};
use nimbus::error::{NimbusError, SessionError};
use nimbus::fix_run::{SafeFixRun, SafeFixStep, FixResult};
use nimbus::validation::{
    finish_fresh_validation, start_integrated_validation, AwsConfigValidationConfig, IntegratedStart,
    IntegrationCache, Score, ValidationCheckResult,
};
use nimbus::validator::ComplianceStatus;
use nimbus::commands::{apply_settings_command, is_valid_report_format, DiagnosticSettingsCommands, SettingsOutcome};
use nimbus::config::DiagnosticSettings;
use nimbus::connect::{GateAction, GateEvent, PrecheckGate, PrecheckOutcome};
use nimbus::diagnostic::{DiagnosticProgress, DiagnosticResult, Severity};
use nimbus::diagnostic_run::{results_in_item_order, specific_check, summarize_group, DiagnosticCheck};
use nimbus::error_recovery::{RetryAction, RetryEvent, RetryRun};
use nimbus::feedback::{FeedbackEvent, FeedbackSession};
use nimbus::fix_run::{select_fixes, FixSelection};
use std::time::Duration;

#[test]
fn progress_estimate_is_not_capped() {
    let p = DiagnosticProgress::new("x".to_string(), 1, 2, Duration::from_secs(20_000_000_000));
    assert_eq!(p.estimated_remaining, Some(Duration::from_secs(20_000_000_000)));
}

#[test]
fn progress_estimate_scales_the_average() {
    let p = DiagnosticProgress::new("x".to_string(), 3, 10, Duration::from_secs(30));
    assert_eq!(p.estimated_remaining, Some(Duration::from_secs(70)));
    let none = DiagnosticProgress::new("x".to_string(), 0, 10, Duration::from_secs(30));
    assert_eq!(none.estimated_remaining, None);
    let done = DiagnosticProgress::new("x".to_string(), 10, 10, Duration::from_secs(30));
    assert_eq!(done.estimated_remaining, Some(Duration::from_secs(0)));
}

#[test]
fn specific_check_rejects_unknown_items() {
    assert_eq!(specific_check("instance_state"), Ok(DiagnosticCheck::InstanceState));
    assert_eq!(specific_check("bogus"), Err("Unknown diagnostic item: bogus".to_string()));
}

fn fix(t: FixActionType) -> FixAction {
    FixAction::new(t, "fix".to_string(), "i-1".to_string())
}

#[test]
fn safe_only_selection_keeps_only_safe_fixes() {
    assert!(matches!(select_fixes(vec![], true), FixSelection::NoFixes));
    assert!(matches!(
        select_fixes(vec![fix(FixActionType::TerminateProcess)], true),
        FixSelection::NoSafeFixes
    ));
    match select_fixes(
        vec![fix(FixActionType::TerminateProcess), fix(FixActionType::StartInstance)],
        true,
    ) {
        FixSelection::Run(v) => {
            assert_eq!(v.len(), 1);
            assert_eq!(v[0].action_type, FixActionType::StartInstance);
        }
        _ => panic!("expected the safe fix to run"),
    }
    match select_fixes(vec![fix(FixActionType::TerminateProcess)], false) {
        FixSelection::Run(v) => assert_eq!(v.len(), 1),
        _ => panic!("expected every fix to run"),
    }
}

#[test]
fn connect_gate_refuses_after_a_failed_start() {
    let mut g = PrecheckGate::new(true);
    let o = PrecheckOutcome {
        should_abort: true,
        critical_names: vec!["managed_instance_registration".to_string()],
        critical_messages: vec!["instance stopped".to_string()],
    };
    assert!(matches!(g.step(GateEvent::Checked(Ok(o))), GateAction::StartInstance));
    assert!(matches!(g.step(GateEvent::FixDone(false)), GateAction::Abort { .. }));
}

#[test]
fn group_summary_keeps_details_and_lines() {
    let a = DiagnosticResult::success("a".to_string(), "fine".to_string(), Duration::from_millis(1))
        .with_details(serde_json::Value::String("da".to_string()));
    let b = DiagnosticResult::error(
        "b".to_string(),
        "broken".to_string(),
        Duration::from_millis(1),
        Severity::High,
    );
    let r = summarize_group("Group", "group", &vec![a, b], Duration::from_millis(3));
    let d = r.details.expect("details");
    assert_eq!(d.get("a"), Some(&serde_json::Value::String("da".to_string())));
    assert_eq!(d.get("b"), None);
    let lines = d.get("detailed_messages").and_then(|v| v.as_array()).expect("lines");
    assert_eq!(lines.len(), 2);
    assert_eq!(lines[0].as_str(), Some("a: fine"));
    assert_eq!(lines[1].as_str(), Some("b: broken"));
}

#[test]
fn reset_restores_every_default() {
    let mut s = DiagnosticSettings::default();
    s.port_scan_range = 3;
    s.report_format = "yaml".to_string();
    s.output_directory = "/tmp/x".to_string();
    s.realtime_feedback = false;
    s.feedback_refresh_interval_ms = 7;
    s.enable_colors = false;
    s.auto_confirm_critical = true;
    s.timeout_seconds = 1;
    assert_eq!(apply_settings_command(&mut s, DiagnosticSettingsCommands::Reset), SettingsOutcome::Reset);
    let d = DiagnosticSettings::default();
    assert_eq!(s.enabled, d.enabled);
    assert_eq!(s.enabled_checks, d.enabled_checks);
    assert_eq!(s.auto_fix_enabled, d.auto_fix_enabled);
    assert_eq!(s.safe_auto_fix_only, d.safe_auto_fix_only);
    assert_eq!(s.parallel_execution, d.parallel_execution);
    assert_eq!(s.timeout_seconds, d.timeout_seconds);
    assert_eq!(s.port_scan_range, 10);
    assert_eq!(s.report_format, d.report_format);
    assert_eq!(s.output_directory, d.output_directory);
    assert!(s.realtime_feedback);
    assert_eq!(s.feedback_refresh_interval_ms, 100);
    assert!(s.enable_colors);
    assert!(!s.auto_confirm_critical);
}

#[test]
fn report_formats_are_text_json_yaml() {
    assert!(is_valid_report_format("text"));
    assert!(is_valid_report_format("json"));
    assert!(is_valid_report_format("yaml"));
    assert!(!is_valid_report_format("xml"));
}

#[test]
fn pause_holds_until_resumed() {
    let mut s = FeedbackSession::new();
    s.start();
    s.pause();
    assert!(s.is_paused());
    s.handle_event(FeedbackEvent::ToggleDetails);
    s.handle_event(FeedbackEvent::ScrollDown);
    s.handle_event(FeedbackEvent::Refresh);
    assert!(s.is_paused());
    s.handle_event(FeedbackEvent::Resume);
    assert!(!s.is_paused());
}

#[test]
fn retry_runs_at_most_max_attempts() {
    let mut r = RetryRun::new(2);
    assert_eq!(r.step(RetryEvent::ReadyToRun { timed_out: false }), RetryAction::RunOperation);
    assert_eq!(r.step(RetryEvent::OperationFailed), RetryAction::Backoff);
    assert_eq!(r.step(RetryEvent::ReadyToRun { timed_out: false }), RetryAction::RunOperation);
    assert_eq!(r.step(RetryEvent::OperationFailed), RetryAction::ReturnLastError);
    assert_eq!(r.attempt, 2);
    assert!(r.finished);
}

fn named(name: &str) -> DiagnosticResult {
    DiagnosticResult::success(name.to_string(), "ok".to_string(), Duration::from_millis(1))
}

#[test]
fn parallel_results_come_back_in_item_order() {
    let pairs = vec![(2, named("c")), (0, named("a")), (1, named("b")), (0, named("a2"))];
    let out = results_in_item_order(&pairs);
    let names: Vec<String> = out.iter().map(|r| r.item_name.clone()).collect();
    assert_eq!(names, vec!["a", "a2", "b", "c"]);
    assert!(results_in_item_order(&vec![]).is_empty());
}

#[test]
fn group_severity_is_the_most_severe() {
    let a = DiagnosticResult::warning("a".to_string(), "w".to_string(), Duration::from_millis(1), Severity::Medium);
    let b = DiagnosticResult::error("b".to_string(), "e".to_string(), Duration::from_millis(1), Severity::Critical);
    let c = DiagnosticResult::warning("c".to_string(), "w".to_string(), Duration::from_millis(1), Severity::Low);
    let r = summarize_group("VPC", "vpc_endpoints", &vec![a, b, c], Duration::from_millis(3));
    assert_eq!(r.severity, Severity::Critical);
    assert_eq!(r.status, DiagnosticStatus::Error);
    let empty = summarize_group("VPC", "vpc_endpoints", &vec![], Duration::from_millis(3));
    assert_eq!(empty.severity, Severity::Info);
}

#[test]
fn aws_tool_is_searched_in_order() {
    assert_eq!(aws_command_paths(), vec!["/opt/homebrew/bin/aws", "/usr/local/bin/aws", "/usr/bin/aws"]);
    assert!(matches!(next_aws_probe(&vec![]), AwsProbeStep::Probe(p) if p == "/opt/homebrew/bin/aws"));
    assert!(matches!(next_aws_probe(&vec![false]), AwsProbeStep::Probe(p) if p == "/usr/local/bin/aws"));
    assert!(matches!(next_aws_probe(&vec![false, false]), AwsProbeStep::Probe(p) if p == "/usr/bin/aws"));
    assert!(matches!(next_aws_probe(&vec![true]), AwsProbeStep::Done(Some(p)) if p == "/opt/homebrew/bin/aws"));
    assert!(matches!(next_aws_probe(&vec![false, true]), AwsProbeStep::Done(Some(p)) if p == "/usr/local/bin/aws"));
    assert!(matches!(next_aws_probe(&vec![false, false, false]), AwsProbeStep::Done(None)));
}

#[test]
fn recovery_is_followed_by_one_retry_whatever_it_gave() {
    let mut g = RecoveryGuard::new();
    let err = NimbusError::Session(SessionError::CreationFailed { reason: "x".to_string() });
    assert!(matches!(g.step(GuardEvent::CommandDone(Err(err.clone()))), GuardAction::Recover(_)));
    assert!(matches!(g.step(GuardEvent::RecoveryDone(Err(err))), GuardAction::RunAgain));
    assert!(matches!(g.step(GuardEvent::CommandDone(Ok(()))), GuardAction::Succeed));
}

#[test]
fn safe_fix_run_skips_unsafe_fixes() {
    let mut run = SafeFixRun::new(vec![
        fix(FixActionType::TerminateProcess),
        fix(FixActionType::StartInstance),
        fix(FixActionType::CreateVpcEndpoint),
    ]);
    let skip = Duration::from_millis(0);
    match run.next_step(skip) {
        SafeFixStep::Execute(a) => {
            assert_eq!(a.action_type, FixActionType::StartInstance);
            run.record(FixResult::success(a, "started".to_string(), Duration::from_millis(5)));
        }
        SafeFixStep::Finished => panic!("expected the safe fix"),
    }
    assert!(matches!(run.next_step(skip), SafeFixStep::Finished));
    let results = run.into_results();
    assert_eq!(results.len(), 3);
    assert_eq!(results[0].action.action_type, FixActionType::TerminateProcess);
    assert_eq!(results[0].message, "Skipped - requires manual confirmation");
    assert!(results[0].success);
    assert_eq!(results[1].message, "started");
    assert_eq!(results[2].action.action_type, FixActionType::CreateVpcEndpoint);
    assert_eq!(results[2].message, "Skipped - requires manual confirmation");
}

#[test]
fn compliance_levels_follow_the_thresholds() {
    assert_eq!(ComplianceStatus::from_score(Score { points: 90, parts: 1 }), ComplianceStatus::Excellent);
    assert_eq!(ComplianceStatus::from_score(Score { points: 179, parts: 2 }), ComplianceStatus::Good);
    assert_eq!(ComplianceStatus::from_score(Score { points: 75, parts: 1 }), ComplianceStatus::Good);
    assert_eq!(ComplianceStatus::from_score(Score { points: 60, parts: 1 }), ComplianceStatus::Fair);
    assert_eq!(ComplianceStatus::from_score(Score { points: 40, parts: 1 }), ComplianceStatus::Poor);
    assert_eq!(ComplianceStatus::from_score(Score { points: 39, parts: 1 }), ComplianceStatus::Critical);
}

fn check(name: &str) -> ValidationCheckResult {
    ValidationCheckResult::new(name.to_string(), DiagnosticStatus::Success, "ok".to_string(), Score { points: 100, parts: 1 }, 25)
}

#[test]
fn integrated_validation_reuses_fresh_results() {
    let config = AwsConfigValidationConfig::new("i-1".to_string()).with_checks(true, false, true, true);
    let mut cache = IntegrationCache::new();
    let t0: i64 = 1_000_000_000_000;
    assert!(matches!(start_integrated_validation(&cache, t0, &config), IntegratedStart::RunFresh));
    let fresh = finish_fresh_validation(
        &mut cache,
        Some(check("credentials")),
        Some(check("iam")),
        Some(check("vpc")),
        None,
        t0,
        &config,
    );
    let names: Vec<String> = fresh.iter().map(|c| c.check_name.clone()).collect();
    assert_eq!(names, vec!["credentials", "vpc"]);
    match start_integrated_validation(&cache, t0 + 299_000_000_000, &config) {
        IntegratedStart::Cached(v) => {
            let names: Vec<String> = v.iter().map(|c| c.check_name.clone()).collect();
            assert_eq!(names, vec!["credentials", "vpc"]);
        }
        IntegratedStart::RunFresh => panic!("expected the stored results"),
    }
    assert!(matches!(start_integrated_validation(&cache, t0 + 300_000_000_000, &config), IntegratedStart::RunFresh));
}

#[test]
fn validation_config_builders() {
    let c = AwsConfigValidationConfig::default();
    assert_eq!(c.instance_id, "");
    assert!(c.include_credential_check && c.include_iam_check && c.include_vpc_check && c.include_security_group_check);
    assert_eq!(c.minimum_compliance_score, Score { points: 80, parts: 1 });
    let c = AwsConfigValidationConfig::new("i-9".to_string())
        .with_aws_config(Some("eu-west-1".to_string()), Some("dev".to_string()))
        .with_minimum_compliance_score(Score { points: 150, parts: 1 });
    assert_eq!(c.instance_id, "i-9");
    assert_eq!(c.region, Some("eu-west-1".to_string()));
    assert_eq!(c.profile, Some("dev".to_string()));
    assert_eq!(c.minimum_compliance_score, Score { points: 100, parts: 1 });
}

#[test]
fn sequential_run_reports_every_item_then_finishes() {
    let mut run = SequentialRun::new(vec!["a".to_string(), "b".to_string()], "Completed".to_string());
    let mut reports = Vec::new();
    loop {
        match run.next_step() {
            RunStep::RunItem { item, completed, total } => {
                reports.push((item.clone(), completed, total));
                run.record(named(&item));
            }
            RunStep::Finished { label, total } => {
                reports.push((label, total, total));
                break;
            }
        }
    }
    assert_eq!(
        reports,
        vec![("a".to_string(), 0, 2), ("b".to_string(), 1, 2), ("Completed".to_string(), 2, 2)]
    );
}
