use nimbus::diagnostic::{DiagnosticResult, DiagnosticStatus, Severity};
use nimbus::validation::{
    area_check, area_of_check, area_suggestion_for, check_from_diagnostic, check_tally,
    diagnostic_score, failed_check, iam_check, improvement_suggestions,
    integrated_credentials, integrated_improvement_suggestions, integrated_iam,
    integrated_security_groups, integrated_vpc, selected_checks, ValidationStage, IntegrationCache,
    Score, ValidationArea, ValidationCheckResult,
};
use nimbus::validator::{SuggestionCategory, SuggestionPriority};
use std::time::Duration;

fn check(name: &str, status: DiagnosticStatus, points: u64) -> ValidationCheckResult {
    ValidationCheckResult::new(
        name.to_string(),
        status,
        format!("{} message", name),
        Score::whole(points),
        25,
    )
}

fn titles(v: &[nimbus::validation::ImprovementSuggestion]) -> Vec<String> {
    v.iter().map(|s| s.title.clone()).collect()
}

#[test]
fn test_validation_check_result_creation() {
    let result = ValidationCheckResult::new(
        "test_check".to_string(),
        DiagnosticStatus::Success,
        "Test passed".to_string(),
        Score::whole(85),
        30,
    )
    .with_suggestions(vec!["Suggestion 1".to_string(), "Suggestion 2".to_string()]);

    assert_eq!(result.check_name, "test_check");
    assert_eq!(result.status, DiagnosticStatus::Success);
    assert_eq!(result.score, Score::whole(85));
    assert_eq!(result.weight_percent, 30);
    let (n, d) = result.weighted_score();
    assert_eq!(n as f64 / d as f64, 25.5);
    assert_eq!(result.improvement_suggestions.len(), 2);
}

#[test]
fn new_check_results_cap_score_and_weight() {
    let r = ValidationCheckResult::new(
        "x".to_string(),
        DiagnosticStatus::Success,
        "m".to_string(),
        Score { points: 250, parts: 2 },
        140,
    );
    assert_eq!(r.score, Score { points: 200, parts: 2 });
    assert_eq!(r.weight_percent, 100);
}

#[test]
fn scores_compare_and_shift_exactly() {
    let s = Score { points: 200, parts: 3 };
    assert!(s.is_below(67));
    assert!(!s.is_below(66));
    assert_eq!(s.shift(5), Score { points: 215, parts: 3 });
    assert_eq!(s.shift(-100), Score { points: 0, parts: 3 });
    assert_eq!(Score::whole(90).shift(20), Score::whole(100));
}

#[test]
fn diagnostic_scores_by_status_and_severity() {
    assert_eq!(diagnostic_score(DiagnosticStatus::Success, Severity::Critical), Score::whole(100));
    assert_eq!(diagnostic_score(DiagnosticStatus::Warning, Severity::Low), Score::whole(80));
    assert_eq!(diagnostic_score(DiagnosticStatus::Warning, Severity::Info), Score::whole(90));
    assert_eq!(diagnostic_score(DiagnosticStatus::Error, Severity::High), Score::whole(20));
    assert_eq!(diagnostic_score(DiagnosticStatus::Error, Severity::Critical), Score::whole(0));
    assert_eq!(diagnostic_score(DiagnosticStatus::Skipped, Severity::High), Score::whole(50));
}

#[test]
fn diagnostic_becomes_check_with_empty_details() {
    let d = DiagnosticResult::warning(
        "vpc_endpoints".to_string(),
        "missing ssmmessages".to_string(),
        Duration::from_millis(5),
        Severity::Medium,
    );
    let c = check_from_diagnostic(d, 25);
    assert_eq!(c.check_name, "vpc_endpoints");
    assert_eq!(c.score, Score::whole(70));
    assert_eq!(c.details, Some(serde_json::Value::Object(serde_json::Map::new())));
    assert!(c.improvement_suggestions.is_empty());
}

#[test]
fn area_check_carries_the_area_action_items() {
    let d = DiagnosticResult::error(
        "security_groups".to_string(),
        "blocked".to_string(),
        Duration::from_millis(5),
        Severity::High,
    );
    let c = area_check(ValidationArea::SecurityGroups, d);
    assert_eq!(c.weight_percent, 20);
    assert_eq!(c.score, Score::whole(20));
    assert_eq!(c.improvement_suggestions.len(), 5);
    assert_eq!(c.improvement_suggestions[0], "Allow outbound HTTPS (port 443) to 0.0.0.0/0");

    let ok = DiagnosticResult::success("credentials".to_string(), "ok".to_string(), Duration::from_millis(1));
    let c = area_check(ValidationArea::Credentials, ok);
    assert!(c.improvement_suggestions.is_empty());
}

#[test]
fn failed_checks_by_stage() {
    let c = failed_check(ValidationArea::Credentials, ValidationStage::Check, "no profile");
    assert_eq!(c.check_name, "credentials");
    assert_eq!(c.message, "Failed to validate AWS credentials: no profile");
    assert_eq!(c.score, Score::whole(0));
    assert_eq!(c.weight_percent, 25);
    assert_eq!(c.improvement_suggestions[0], "Configure AWS credentials using 'aws configure'");

    let c = failed_check(ValidationArea::SecurityGroups, ValidationStage::Overall, "boom");
    assert_eq!(c.message, "Security group validation failed: boom");
    assert!(c.improvement_suggestions.is_empty());

    let c = failed_check(ValidationArea::IamPermissions, ValidationStage::Integrated, "boom");
    assert_eq!(c.message, "Integrated IAM validation failed: boom");
    assert_eq!(c.weight_percent, 30);
    assert_eq!(area_of_check("vpc_configuration"), Some(ValidationArea::VpcConfiguration));
    assert_eq!(area_of_check("other"), None);
}

#[test]
fn area_suggestions_by_score() {
    let name = "credentials".to_string();
    let s = area_suggestion_for(ValidationArea::Credentials, Score::whole(30), &name).unwrap();
    assert_eq!(s.priority, SuggestionPriority::Critical);
    assert_eq!(s.category, SuggestionCategory::Credentials);
    assert_eq!(s.estimated_impact, 30);
    assert_eq!(s.related_checks, vec!["credentials".to_string()]);
    let s = area_suggestion_for(ValidationArea::Credentials, Score::whole(50), &name).unwrap();
    assert_eq!(s.priority, SuggestionPriority::High);
    assert!(area_suggestion_for(ValidationArea::Credentials, Score::whole(80), &name).is_none());

    let s = area_suggestion_for(ValidationArea::IamPermissions, Score::whole(60), &name).unwrap();
    assert_eq!(s.priority, SuggestionPriority::Medium);
    let s = area_suggestion_for(ValidationArea::VpcConfiguration, Score::whole(49), &name).unwrap();
    assert_eq!(s.priority, SuggestionPriority::High);
    assert_eq!(s.action_items.len(), 6);
    let s = area_suggestion_for(ValidationArea::SecurityGroups, Score::whole(60), &name).unwrap();
    assert_eq!(s.priority, SuggestionPriority::Medium);
    assert_eq!(s.estimated_impact, 15);
}

#[test]
fn suggestions_are_sorted_by_priority_and_deduplicated() {
    let results = vec![
        check("vpc_configuration", DiagnosticStatus::Warning, 70),
        check("credentials", DiagnosticStatus::Error, 30),
        check("iam_permissions", DiagnosticStatus::Warning, 60),
        check("credentials", DiagnosticStatus::Warning, 50),
        check("unknown", DiagnosticStatus::Error, 0),
        check("security_groups", DiagnosticStatus::Success, 95),
    ];
    let s = improvement_suggestions(&results);
    assert_eq!(
        titles(&s),
        vec![
            "AWS Credentials Configuration".to_string(),
            "VPC Endpoints for SSM".to_string(),
            "IAM Permissions for SSM".to_string(),
        ]
    );
    assert_eq!(s[0].priority, SuggestionPriority::Critical);
}

#[test]
fn integrated_suggestions_put_dependency_and_critical_first() {
    let results = vec![
        check("credentials", DiagnosticStatus::Error, 20),
        check("iam_permissions", DiagnosticStatus::Error, 55),
        check("vpc_configuration", DiagnosticStatus::Error, 10),
    ];
    let s = integrated_improvement_suggestions(&results);
    assert_eq!(s[0].title, "Dependency Chain Issues");
    assert_eq!(s[0].estimated_impact, 50);
    assert_eq!(s[1].title, "Critical Integration Issues Detected");
    assert_eq!(
        s[1].related_checks,
        vec!["credentials".to_string(), "vpc_configuration".to_string()]
    );
    assert_eq!(s.len(), 5);

    let fine = vec![check("credentials", DiagnosticStatus::Success, 100)];
    assert!(integrated_improvement_suggestions(&fine).is_empty());
}

#[test]
fn iam_check_aggregates_diagnostics() {
    let ds = vec![
        DiagnosticResult::success("instance_profile".to_string(), "ok".to_string(), Duration::from_millis(1)),
        DiagnosticResult::warning("boundary".to_string(), "restricts".to_string(), Duration::from_millis(1), Severity::Low),
        DiagnosticResult::error("ssm_permissions".to_string(), "missing".to_string(), Duration::from_millis(1), Severity::Critical),
    ];
    let c = iam_check(&ds);
    assert_eq!(c.check_name, "iam_permissions");
    assert_eq!(c.status, DiagnosticStatus::Error);
    assert_eq!(c.score, Score { points: 190, parts: 3 });
    assert_eq!(c.message, "instance_profile: ok; boundary: restricts; ssm_permissions: missing");
    assert_eq!(c.weight_percent, 30);
    assert_eq!(c.improvement_suggestions[0], "Attach AmazonSSMManagedInstanceCore policy to EC2 instance role");

    let warn_only = vec![DiagnosticResult::error("x".to_string(), "y".to_string(), Duration::from_millis(1), Severity::Low)];
    assert_eq!(iam_check(&warn_only).status, DiagnosticStatus::Warning);

    let none: Vec<DiagnosticResult> = Vec::new();
    let c = iam_check(&none);
    assert_eq!(c.message, "No IAM diagnostics performed");
    assert_eq!(c.score, Score::whole(0));
    assert_eq!(c.status, DiagnosticStatus::Success);
}

#[test]
fn integrated_credentials_adjusts_by_probes() {
    let basic = check("credentials", DiagnosticStatus::Success, 100);
    let ssm_ok = DiagnosticResult::success("creds".to_string(), "valid".to_string(), Duration::from_millis(1));
    let r = integrated_credentials(basic, Ok(()), Ok(ssm_ok));
    assert_eq!(r.adjustment, 20);
    assert_eq!(r.result.score, Score::whole(100));
    assert_eq!(r.result.status, DiagnosticStatus::Success);
    assert_eq!(
        r.result.message,
        "credentials message\n\nIntegration Results:\n✅ Credentials work with EC2 service\n✅ Credentials work with SSM service"
    );
    assert!(r.dependency_adjustment.is_none());

    let basic = check("credentials", DiagnosticStatus::Success, 100);
    let r = integrated_credentials(basic, Err("denied".to_string()), Err("expired".to_string()));
    assert_eq!(r.adjustment, -30);
    assert_eq!(r.result.score, Score::whole(70));
    assert_eq!(r.result.status, DiagnosticStatus::Warning);
    assert_eq!(r.integration_messages[0], "❌ Credentials may not work with EC2 service: denied");
    assert_eq!(r.integration_messages[1], "❌ Credentials may not work with SSM service: expired");
    assert_eq!(
        r.result.improvement_suggestions,
        vec![
            "Verify credentials have access to both EC2 and SSM services".to_string(),
            "Check if credentials are configured for the correct region".to_string(),
        ]
    );
}

#[test]
fn integrated_iam_depends_on_credentials() {
    let basic = check("iam_permissions", DiagnosticStatus::Success, 100)
        .with_suggestions(vec!["keep".to_string()]);
    let r = integrated_iam(basic, None, Err("no access".to_string()));
    assert_eq!(r.dependency_adjustment, Some(-30));
    assert_eq!(r.adjustment, -45);
    assert_eq!(r.result.score, Score::whole(55));
    assert_eq!(r.result.status, DiagnosticStatus::Error);
    assert_eq!(r.result.weight_percent, 30);
    assert_eq!(r.integration_messages[0], "Credential dependency adjustment: -30.0");
    assert_eq!(
        r.result.improvement_suggestions,
        vec!["Fix credential issues before addressing IAM permissions".to_string(), "keep".to_string()]
    );

    let basic = check("iam_permissions", DiagnosticStatus::Success, 70);
    let state = DiagnosticResult::success("state".to_string(), "running".to_string(), Duration::from_millis(1));
    let r = integrated_iam(basic, Some(Score::whole(90)), Ok(state));
    assert_eq!(r.integration_messages[0], "Credential dependency adjustment: 5.0");
    assert_eq!(r.integration_messages[1], "✅ IAM permissions allow instance access");
    assert_eq!(r.result.score, Score::whole(80));
    assert_eq!(r.result.status, DiagnosticStatus::Success);
    assert!(r.result.improvement_suggestions.is_empty());
}

#[test]
fn integrated_vpc_and_security_groups() {
    let basic = check("vpc_configuration", DiagnosticStatus::Warning, 70);
    let skipped = DiagnosticResult {
        item_name: "net".to_string(),
        status: DiagnosticStatus::Skipped,
        message: "skipped".to_string(),
        details: None,
        duration: Duration::from_millis(0),
        severity: Severity::Info,
        auto_fixable: false,
    };
    let r = integrated_vpc(basic, Some(Score::whole(65)), Ok(skipped));
    assert_eq!(r.adjustment, -5);
    assert_eq!(r.integration_messages[0], "IAM dependency adjustment: -5.0");
    assert_eq!(r.integration_messages[1], "⏭️ Network connectivity test was skipped");
    assert_eq!(r.result.score, Score::whole(65));
    assert_eq!(r.result.status, DiagnosticStatus::Warning);

    let basic = check("security_groups", DiagnosticStatus::Success, 85);
    let r = integrated_security_groups(basic, Some(Score::whole(70)));
    assert_eq!(r.adjustment, -3);
    assert_eq!(r.integration_messages[0], "VPC dependency adjustment: -3.0");
    assert_eq!(r.result.score, Score::whole(82));
    assert_eq!(r.result.weight_percent, 20);
    assert_eq!(
        r.result.improvement_suggestions[0],
        "Address VPC configuration issues before modifying security groups"
    );
}

#[test]
fn selection_and_tally() {
    let v = selected_checks(
        true,
        false,
        true,
        true,
        Some(check("credentials", DiagnosticStatus::Success, 100)),
        Some(check("iam_permissions", DiagnosticStatus::Error, 0)),
        None,
        Some(check("security_groups", DiagnosticStatus::Warning, 70)),
    );
    let names: Vec<String> = v.iter().map(|c| c.check_name.clone()).collect();
    assert_eq!(names, vec!["credentials".to_string(), "security_groups".to_string()]);
    let t = check_tally(&v);
    assert_eq!((t.total, t.passed, t.warnings, t.failed, t.skipped), (2, 1, 1, 0, 0));
}

#[test]
fn cache_lives_for_its_time_to_live() {
    let mut cache = IntegrationCache::new();
    assert_eq!(cache.cache_ttl_secs, 300);
    assert!(!cache.is_cache_valid(0));
    let t: i64 = 1_700_000_000_000_000_000;
    cache.update_cache(Some(check("credentials", DiagnosticStatus::Success, 100)), None, None, None, t);
    assert!(cache.is_cache_valid(t));
    assert!(cache.is_cache_valid(t + 299_999_999_999));
    assert!(!cache.is_cache_valid(t + 300_000_000_000));
    assert_eq!(cache.cached_checks(true, true, true, true).len(), 1);
    assert!(cache.cached_checks(false, true, true, true).is_empty());
    cache.clear_cache();
    assert!(!cache.is_cache_valid(t));
    assert!(cache.credential_result.is_none());
}
