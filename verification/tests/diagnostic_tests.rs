use nimbus::report::severity_icon;
use nimbus::diagnostic::{
    diagnostic_items, precheck_item_names, DiagnosticConfig, DiagnosticProgress, DiagnosticResult,
    DiagnosticStatus, Severity,
};
use nimbus::diagnostic_run::{
    check_failure_result, check_for_item, iam_overview_result, no_port_result, summarize_group,
    unknown_item_result, DiagnosticCheck, FailureStage, RunStep, SequentialRun,
};
use nimbus::report::{
    can_proceed, fixable_issues, full_run_config, item_description, precheck_report,
    precheck_run_config, run_verdict, severity_label, status_icon, tally_results, RunVerdict,
};
use std::time::Duration;

#[test]
fn test_diagnostic_config_creation() {
    let config = DiagnosticConfig::new("i-1234567890abcdef0".to_string())
        .with_ports(8080, 80)
        .with_aws_config(Some("us-east-1".to_string()), Some("default".to_string()))
        .with_timeout(Duration::from_secs(60))
        .with_parallel_execution(false);

    assert_eq!(config.instance_id, "i-1234567890abcdef0");
    assert_eq!(config.local_port, Some(8080));
    assert_eq!(config.remote_port, Some(80));
    assert_eq!(config.region, Some("us-east-1".to_string()));
    assert_eq!(config.profile, Some("default".to_string()));
    assert_eq!(config.timeout, Duration::from_secs(60));
    assert!(!config.parallel_execution);
}

#[test]
fn test_diagnostic_result_creation() {
    let result = DiagnosticResult::success(
        "test_item".to_string(),
        "Test successful".to_string(),
        Duration::from_millis(100),
    );

    assert_eq!(result.item_name, "test_item");
    assert_eq!(result.status, DiagnosticStatus::Success);
    assert_eq!(result.message, "Test successful");
    assert_eq!(result.severity, Severity::Info);
    assert!(!result.auto_fixable);
}

#[test]
fn test_diagnostic_progress() {
    let p = DiagnosticProgress::new("test_item".to_string(), 3, 10, Duration::from_secs(30));
    assert_eq!(p.current_item, "test_item");
    assert_eq!(p.completed, 3);
    assert_eq!(p.total, 10);
    // The percentage is a float, computed by the application; its parts:
    assert_eq!(p.completed * 100, 30 * p.total);
    assert!(p.estimated_remaining.is_some());
    assert_eq!(p.estimated_remaining, Some(Duration::from_secs(70)));
    let none = DiagnosticProgress::new("x".to_string(), 0, 10, Duration::from_secs(30));
    assert_eq!(none.estimated_remaining, None);
}

#[test]
fn item_lists() {
    assert_eq!(diagnostic_items().len(), 7);
    assert_eq!(diagnostic_items()[1], "ssm_agent_enhanced");
    assert_eq!(
        precheck_item_names(),
        vec!["instance_state", "local_port_availability", "iam_permissions"]
    );
}

fn r(name: &str, status: DiagnosticStatus, severity: Severity, msg: &str) -> DiagnosticResult {
    match status {
        DiagnosticStatus::Success => {
            DiagnosticResult::success(name.to_string(), msg.to_string(), Duration::from_millis(5))
        }
        DiagnosticStatus::Warning => DiagnosticResult::warning(
            name.to_string(),
            msg.to_string(),
            Duration::from_millis(5),
            severity,
        ),
        DiagnosticStatus::Error => DiagnosticResult::error(
            name.to_string(),
            msg.to_string(),
            Duration::from_millis(5),
            severity,
        ),
        DiagnosticStatus::Skipped => {
            let mut x = DiagnosticResult::success(
                name.to_string(),
                msg.to_string(),
                Duration::from_millis(5),
            );
            x.status = DiagnosticStatus::Skipped;
            x
        }
    }
}

#[test]
fn tallies_and_verdicts() {
    let rs = vec![
        r("a", DiagnosticStatus::Success, Severity::Info, "ok"),
        r("b", DiagnosticStatus::Warning, Severity::Medium, "hm"),
        r("c", DiagnosticStatus::Error, Severity::Critical, "bad"),
        r("d", DiagnosticStatus::Error, Severity::Low, "meh"),
        r("e", DiagnosticStatus::Skipped, Severity::Info, "skip"),
    ];
    let t = tally_results(&rs);
    assert_eq!((t.success, t.warning, t.error, t.critical, t.total), (1, 1, 2, 1, 5));
    assert_eq!(run_verdict(&t), RunVerdict::ReviewErrors);
    assert!(!can_proceed(&rs));
    let mild = vec![r("b", DiagnosticStatus::Warning, Severity::High, "hm"), r("d", DiagnosticStatus::Error, Severity::Medium, "meh")];
    assert!(can_proceed(&mild));
    let warn_only = vec![r("b", DiagnosticStatus::Warning, Severity::High, "hm")];
    assert_eq!(run_verdict(&tally_results(&warn_only)), RunVerdict::ConsiderWarnings);
    assert_eq!(run_verdict(&tally_results(&vec![])), RunVerdict::AllPassed);
}

#[test]
fn fixable_issues_are_failed_or_warned_and_fixable() {
    let rs = vec![
        r("a", DiagnosticStatus::Error, Severity::High, "x").with_auto_fixable(true),
        r("b", DiagnosticStatus::Error, Severity::High, "y"),
        r("c", DiagnosticStatus::Success, Severity::Info, "z").with_auto_fixable(true),
        r("d", DiagnosticStatus::Warning, Severity::Low, "w").with_auto_fixable(true),
    ];
    let f = fixable_issues(&rs);
    let names: Vec<&str> = f.iter().map(|x| x.item_name.as_str()).collect();
    assert_eq!(names, vec!["a", "d"]);
}

#[test]
fn marks_labels_and_descriptions() {
    assert_eq!(status_icon(DiagnosticStatus::Error), "❌");
    assert_eq!(status_icon(DiagnosticStatus::Skipped), "⏭️");
    assert_eq!(severity_label(Severity::Critical), "CRITICAL");
    assert_eq!(item_description("vpc_endpoints"), "Check VPC endpoints for SSM connectivity");
    assert_eq!(item_description("bogus"), "Unknown diagnostic item");
}

#[test]
fn run_configurations_of_the_commands() {
    let c = full_run_config("i-1".to_string(), Some(1), None, None, Some("eu-west-1".to_string()), true, 45);
    assert_eq!(c.local_port, None);
    assert_eq!(c.remote_port, None);
    assert_eq!(c.timeout, Duration::from_secs(45));
    assert_eq!(c.region.as_deref(), Some("eu-west-1"));
    let p = precheck_run_config("i-1".to_string(), Some(8080), Some("p".to_string()), None, 15);
    assert_eq!(p.local_port, Some(8080));
    assert_eq!(p.remote_port, Some(22));
    assert!(!p.parallel_execution);
    assert_eq!(p.timeout, Duration::from_secs(15));
}

#[test]
fn precheck_report_lists_each_result() {
    let rs = vec![
        r("instance_state", DiagnosticStatus::Success, Severity::Info, "running"),
        r("iam_permissions", DiagnosticStatus::Error, Severity::High, "missing"),
    ];
    assert_eq!(
        precheck_report("i-9", &rs),
        "Pre-connection Check Results for i-9\ninstance_state: running\niam_permissions: missing"
    );
}

#[test]
fn items_name_their_checks() {
    assert_eq!(check_for_item("security_groups"), Some(DiagnosticCheck::SecurityGroups));
    assert_eq!(check_for_item("ssm_agent"), None);
    let u = unknown_item_result("mystery", Duration::from_millis(2));
    assert_eq!(u.message, "Unknown diagnostic item: mystery");
    assert_eq!(u.severity, Severity::Low);
    let f = check_failure_result(DiagnosticCheck::VpcEndpoints, FailureStage::Create, "boom", Duration::from_millis(2));
    assert_eq!(f.item_name, "vpc_endpoints");
    assert_eq!(f.message, "Failed to create network diagnostics: boom");
    assert_eq!(f.severity, Severity::High);
    let n = no_port_result(Duration::from_millis(1));
    assert_eq!(n.status, DiagnosticStatus::Success);
}

#[test]
fn group_summary_counts_outcomes_and_keeps_details() {
    let rs = vec![
        r("agent", DiagnosticStatus::Success, Severity::Info, "online")
            .with_details(serde_json::Value::Bool(true)),
        r("version", DiagnosticStatus::Warning, Severity::High, "old"),
    ];
    let s = summarize_group("Enhanced SSM Agent", "ssm_agent_enhanced", &rs, Duration::from_millis(9));
    assert_eq!(s.status, DiagnosticStatus::Warning);
    assert_eq!(
        s.message,
        "Enhanced SSM Agent diagnostics completed: 2 checks (1 success, 1 warnings, 0 errors)"
    );
    assert_eq!(s.severity, Severity::High);
    assert!(s.auto_fixable);
    let d = s.details.unwrap();
    assert_eq!(d.get("agent"), Some(&serde_json::Value::Bool(true)));
    assert_eq!(d.get("detailed_messages").unwrap()[1], serde_json::Value::String("version: old".to_string()));
}

#[test]
fn iam_overview_marks_each_line() {
    let rs = vec![
        r("instance_profile", DiagnosticStatus::Success, Severity::Info, "ok"),
        r("ssm_permissions", DiagnosticStatus::Error, Severity::Critical, "missing"),
    ];
    let o = iam_overview_result(&rs, Duration::from_millis(3));
    assert_eq!(o.status, DiagnosticStatus::Error);
    assert_eq!(o.severity, Severity::Critical);
    assert_eq!(
        o.message,
        "IAM configuration issues detected:\n✅ instance_profile: ok\n❌ ssm_permissions: missing"
    );
}

#[test]
fn sequential_run_goes_through_the_items_in_order() {
    let mut run = SequentialRun::precheck();
    let mut seen = Vec::new();
    loop {
        match run.next_step() {
            RunStep::RunItem { item, completed, total } => {
                assert_eq!(completed, seen.len());
                assert_eq!(total, 3);
                seen.push(item.clone());
                run.record(DiagnosticResult::success(item, "ok".to_string(), Duration::from_millis(1)));
            }
            RunStep::Finished { label, total } => {
                assert_eq!(label, "Precheck Completed");
                assert_eq!(total, 3);
                break;
            }
        }
    }
    assert_eq!(seen, vec!["instance_state", "local_port_availability", "iam_permissions"]);
    assert_eq!(run.into_results().len(), 3);
}

#[test]
fn severity_icons() {
    assert_eq!(severity_icon(Severity::Critical), "🚨");
    assert_eq!(severity_icon(Severity::High), "🔴");
    assert_eq!(severity_icon(Severity::Medium), "🟡");
    assert_eq!(severity_icon(Severity::Low), "🟢");
    assert_eq!(severity_icon(Severity::Info), "ℹ️");
}
