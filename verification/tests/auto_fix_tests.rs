use nimbus::auto_fix::{
    analyze_fixes, safe_fixes_only, FixAction, FixActionType, RiskLevel,
};
use nimbus::diagnostic::{DiagnosticResult, Severity};
use nimbus::fix_run::FixResult;
use std::time::Duration;

#[test]
fn test_fix_action_creation() {
    let action = FixAction::new(
        FixActionType::StartInstance,
        "Start the instance".to_string(),
        "i-1234567890abcdef0".to_string(),
    );

    assert_eq!(action.action_type, FixActionType::StartInstance);
    assert_eq!(action.description, "Start the instance");
    assert_eq!(action.target_resource, "i-1234567890abcdef0");
    assert_eq!(action.risk_level, RiskLevel::Low);
    assert!(!action.requires_confirmation);
}

#[test]
fn test_fix_action_safety() {
    let safe_action = FixAction::new(
        FixActionType::UpdateCredentials,
        "Update credentials".to_string(),
        "credentials".to_string(),
    );
    assert!(safe_action.is_safe_to_auto_execute());

    let unsafe_action = FixAction::new(
        FixActionType::StartInstance,
        "Start instance".to_string(),
        "i-1234567890abcdef0".to_string(),
    );
    assert!(unsafe_action.is_safe_to_auto_execute());
}

#[test]
fn test_fix_result_creation() {
    let action = FixAction::new(
        FixActionType::UpdateCredentials,
        "Update credentials".to_string(),
        "credentials".to_string(),
    );

    let result = FixResult::success(
        action.clone(),
        "Credentials updated".to_string(),
        Duration::from_millis(100),
    );

    assert!(result.success);
    assert_eq!(result.message, "Credentials updated");
    assert_eq!(result.action.action_type, FixActionType::UpdateCredentials);
}

#[test]
fn test_risk_level_ordering() {
    assert!(RiskLevel::Safe < RiskLevel::Low);
    assert!(RiskLevel::Low < RiskLevel::Medium);
    assert!(RiskLevel::Medium < RiskLevel::High);
    assert!(RiskLevel::High < RiskLevel::Critical);
}

fn details(json: &str) -> serde_json::Value {
    serde_json::from_str(json).unwrap()
}

#[test]
fn fix_plan_is_sorted_by_risk_and_keeps_order_within_a_risk() {
    let stopped = DiagnosticResult::error(
        "instance_state".to_string(),
        "Instance is stopped".to_string(),
        Duration::from_millis(1),
        Severity::High,
    )
    .with_details(details(r#"{"instance_id": "i-abc"}"#));
    let agent = DiagnosticResult::error(
        "ssm_agent".to_string(),
        "Agent not registered".to_string(),
        Duration::from_millis(1),
        Severity::High,
    )
    .with_details(details(r#"{"instance_id": "i-abc"}"#));
    let creds = DiagnosticResult::error(
        "iam_permissions".to_string(),
        "Invalid credentials".to_string(),
        Duration::from_millis(1),
        Severity::High,
    );
    let plan = analyze_fixes(&vec![agent, stopped, creds]);
    let kinds: Vec<FixActionType> = plan.iter().map(|a| a.action_type).collect();
    assert_eq!(
        kinds,
        vec![
            FixActionType::UpdateCredentials,
            FixActionType::StartInstance,
            FixActionType::RestartSsmAgent,
        ]
    );
    assert_eq!(plan[1].description, "Start the stopped EC2 instance: i-abc");
    assert_eq!(plan[1].target_resource, "i-abc");
    assert_eq!(plan[2].command.as_deref(), Some("sudo systemctl restart amazon-ssm-agent"));
    let safe = safe_fixes_only(&plan);
    assert_eq!(safe.len(), 2);
    assert!(safe.iter().all(|a| a.is_safe_to_auto_execute()));
}

#[test]
fn port_conflict_offers_to_terminate_the_process_from_its_details() {
    let busy = DiagnosticResult::error(
        "local_port_availability".to_string(),
        "Local port in use by another process".to_string(),
        Duration::from_millis(1),
        Severity::Medium,
    )
    .with_details(details(r#"{"process_info": {"name": "nginx", "pid": 4242}}"#));
    let plan = analyze_fixes(&vec![busy]);
    assert_eq!(plan.len(), 2);
    assert_eq!(plan[0].action_type, FixActionType::SuggestManualFix);
    assert_eq!(plan[0].description, "Use an alternative port for the connection");
    assert_eq!(plan[1].action_type, FixActionType::TerminateProcess);
    assert_eq!(
        plan[1].description,
        "Terminate process nginx (PID: 4242) that is using the port"
    );
    assert_eq!(plan[1].target_resource, "process:4242");
}

#[test]
fn unknown_items_and_successes_plan_no_fix() {
    let ok = DiagnosticResult::success(
        "instance_state".to_string(),
        "Instance is running".to_string(),
        Duration::from_millis(1),
    );
    let other = DiagnosticResult::error(
        "something_else".to_string(),
        "stopped".to_string(),
        Duration::from_millis(1),
        Severity::High,
    );
    assert!(analyze_fixes(&vec![ok, other]).is_empty());
}
