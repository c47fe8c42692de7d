use nimbus::iam::{boundary_result, individual_permissions_unavailable, policy_has_ssm_permissions, required_ec2_permission_list, resource_based_result};
use nimbus::aws::{
    find_aws_command, is_listed_active, looked_up_status, pick_first_existing,
    session_status_or_failed, SsmSessionConfig, SsmSessionStatus,
};
use nimbus::diagnostic::{DiagnosticStatus, Severity};
use nimbus::health::{
    health_warning, network_check_result, overall_healthy, parse_network_target,
    session_check_result, session_recommendations, session_reported_active, system_issues,
    HealthThresholds,
};
use nimbus::iam::{
    analyze_trust_policy, arn_grants_ssm_access, boundary_impact_result, boundary_restrictions,
    credentials_result, cross_account_result, decode_policy_document, document_allows_permission,
    document_grants_ssm_access, ec2_permissions_result, individual_permission_result,
    instance_profile_result, permission_available, permission_details, policy_type_for,
    profile_name_from_arn, required_ssm_permission_list, ssm_permissions_in_policy,
    ssm_permissions_result, CredentialsState, IamInfo, PolicyInfo, PolicyType,
};
use nimbus::validator::{
    category_label, priority_icon, scope_mark, ComplianceStatus, SuggestionCategory,
    SuggestionPriority,
};
use std::collections::HashMap;
use std::time::Duration;

#[test]
fn test_ssm_session_config_creation() {
    let mut parameters = HashMap::new();
    parameters.insert("portNumber".to_string(), vec!["22".to_string()]);

    let config = SsmSessionConfig {
        target: "i-1234567890abcdef0".to_string(),
        document_name: Some("AWS-StartSSHSession".to_string()),
        parameters,
        reason: Some("Development access".to_string()),
    };

    assert_eq!(config.target, "i-1234567890abcdef0");
    assert_eq!(config.document_name, Some("AWS-StartSSHSession".to_string()));
    assert_eq!(config.reason, Some("Development access".to_string()));
}

#[test]
fn test_suggestion_priority_ordering() {
    let mut priorities = vec![
        SuggestionPriority::Low,
        SuggestionPriority::Critical,
        SuggestionPriority::Medium,
        SuggestionPriority::High,
    ];

    priorities.sort();

    assert_eq!(priorities, vec![
        SuggestionPriority::Critical,
        SuggestionPriority::High,
        SuggestionPriority::Medium,
        SuggestionPriority::Low,
    ]);
}

#[test]
fn validator_texts() {
    assert_eq!(ComplianceStatus::Fair.color_code(), "🟠");
    assert_eq!(
        ComplianceStatus::Excellent.description(),
        "Excellent - AWS configuration is optimal for SSM connections"
    );
    assert_eq!(SuggestionPriority::High.description(), "High - Should be addressed soon");
    assert_eq!(priority_icon(SuggestionPriority::Critical), "🚨");
    assert_eq!(category_label(SuggestionCategory::IamPermissions), "IAM Permissions");
    assert_eq!(scope_mark(false), "❌");
}

#[test]
fn session_statuses() {
    assert_eq!(session_status_or_failed(None), SsmSessionStatus::Failed);
    assert_eq!(looked_up_status(None), SsmSessionStatus::Terminated);
    assert_eq!(looked_up_status(Some(Some(SsmSessionStatus::Connecting))), SsmSessionStatus::Connecting);
    assert!(is_listed_active(Some(SsmSessionStatus::Connected)));
    assert!(!is_listed_active(Some(SsmSessionStatus::Terminating)));
    assert_eq!(
        pick_first_existing(&vec!["/a", "/b", "/c"], &vec![false, true, true]),
        Some("/b".to_string())
    );
    assert_eq!(pick_first_existing(&vec!["/a"], &vec![false]), None);
    if let Some(p) = find_aws_command() {
        assert!(p.ends_with("/aws"));
    }
}

#[test]
fn health_verdicts_follow_the_thresholds() {
    let t = HealthThresholds::standard();
    let ok = session_check_result(true, Ok(true), 200, t);
    assert!(ok.is_healthy);
    assert_eq!(ok.details.as_deref(), Some("Session is active and responsive"));
    let slow = session_check_result(true, Ok(true), 1500, t);
    assert!(slow.is_healthy);
    assert_eq!(slow.details.as_deref(), Some("Warning: High response time: 1500ms"));
    let too_slow = session_check_result(true, Ok(true), 6000, t);
    assert!(!too_slow.is_healthy);
    assert_eq!(too_slow.error_message.as_deref(), Some("Response time too high: 6000ms"));
    let no_cli = session_check_result(false, Ok(true), 1, t);
    assert_eq!(no_cli.error_message.as_deref(), Some("AWS CLI not available"));
    let net = network_check_result("ssm.amazonaws.com", 443, Ok(false), 10, t);
    assert_eq!(net.error_message.as_deref(), Some("Failed to connect to ssm.amazonaws.com:443"));
    let net_err = network_check_result("h", 1, Err("dns".to_string()), 10, t);
    assert_eq!(net_err.error_message.as_deref(), Some("Network connectivity test failed: dns"));
    assert!(!overall_healthy(&ok, &net, true, true, true));
    assert!(overall_healthy(&ok, &ok, true, true, true));
}

#[test]
fn network_targets_and_cli_output() {
    assert_eq!(parse_network_target("example.com"), ("example.com".to_string(), 443));
    assert_eq!(parse_network_target("example.com:8443"), ("example.com".to_string(), 8443));
    assert_eq!(parse_network_target("example.com:http"), ("example.com".to_string(), 443));
    assert_eq!(parse_network_target("a:22:33"), ("a".to_string(), 22));
    assert!(session_reported_active("{\"Status\": \"Connected\"}"));
    assert!(!session_reported_active("{\"Status\":\"Connected\"}"));
    assert_eq!(
        health_warning(false, true),
        "Health check failed - SSM: false, Network: true, Resources: low"
    );
    assert_eq!(
        session_recommendations(true, false, true, false),
        vec![
            "Check internet connectivity",
            "Verify AWS service endpoints are accessible",
            "Free up memory (less than 50MB available)"
        ]
    );
    assert!(system_issues(true, true, true).is_empty());
    assert_eq!(system_issues(true, false, false), vec!["High CPU usage (< 10% available)", "Network connectivity issues"]);
}

fn policy(name: &str, arn: &str, ssm: bool) -> PolicyInfo {
    PolicyInfo {
        policy_name: name.to_string(),
        policy_arn: arn.to_string(),
        policy_type: policy_type_for(arn),
        has_ssm_permissions: ssm,
    }
}

fn info(policies: Vec<PolicyInfo>, inline: Vec<String>) -> IamInfo {
    IamInfo {
        instance_profile_name: Some("web".to_string()),
        instance_profile_arn: Some("arn:aws:iam::1:instance-profile/web".to_string()),
        role_name: Some("web-role".to_string()),
        role_arn: None,
        attached_policies: policies,
        inline_policies: inline,
        permissions_boundary: None,
        credentials_valid: true,
        session_token_valid: true,
    }
}

#[test]
fn policy_classification() {
    assert_eq!(policy_type_for("arn:aws:iam::aws:policy/AmazonSSMManagedInstanceCore"), PolicyType::AwsManaged);
    assert_eq!(policy_type_for("arn:aws:iam::123:policy/Mine"), PolicyType::Managed);
    assert!(arn_grants_ssm_access("arn:aws:iam::aws:policy/AmazonSSMManagedInstanceCore"));
    assert!(!arn_grants_ssm_access("arn:aws:iam::123:policy/AmazonSSMManagedInstanceCore"));
    assert!(document_grants_ssm_access("{\"Action\": \"ssmmessages:OpenDataChannel\"}"));
    assert!(!document_grants_ssm_access("{\"Action\": \"s3:GetObject\"}"));
    assert!(document_allows_permission("{\"Action\": \"ec2:*\"}", "ec2:DescribeTags"));
    assert!(!document_allows_permission("{\"Action\": \"ec2:Describe*\"}", "ec2:DescribeTags"));
    let core = policy("Core", "arn:aws:iam::aws:policy/AmazonSSMManagedInstanceCore", true);
    let mine = policy("Mine", "arn:aws:iam::123:policy/Mine", true);
    let i = info(vec![core, mine], vec![]);
    assert!(permission_available(&i, "ssmmessages:OpenDataChannel", &vec![None, None]));
    assert!(!permission_available(&i, "ssm:SendCommand", &vec![None, None]));
    assert!(permission_available(&i, "ssm:SendCommand", &vec![None, Some("\"ssm:SendCommand\"".to_string())]));
}

#[test]
fn trust_and_boundary_policies() {
    assert_eq!(analyze_trust_policy(None).unwrap(), "No trust policy found");
    assert_eq!(
        analyze_trust_policy(Some("%7B%22Principal%22%3A%22ec2.amazonaws.com%22%7D")).unwrap(),
        "Standard EC2 service trust relationship"
    );
    assert_eq!(
        analyze_trust_policy(Some("arn:aws:iam::123456789012:root")).unwrap(),
        "Cross-account trust relationship detected"
    );
    assert_eq!(analyze_trust_policy(Some("{}")).unwrap(), "Custom trust relationship detected");
    assert!(analyze_trust_policy(Some("%FF")).is_err());
    assert_eq!(decode_policy_document("a%20b").unwrap(), "a b");
    assert_eq!(decode_policy_document("plain+text").unwrap(), "plain+text");
    assert_eq!(
        boundary_restrictions("DateLessThan aws:MultiFactorAuthPresent"),
        vec!["Time-based restrictions detected".to_string(), "MFA requirements detected".to_string()]
    );
    assert_eq!(
        ssm_permissions_in_policy("ssm:SendCommand ec2messages:* \"*\""),
        vec!["ssm:SendCommand".to_string(), "ec2messages:*".to_string(), "Full access (*)".to_string()]
    );
    assert_eq!(profile_name_from_arn("arn:aws:iam::1:instance-profile/path/web"), "web");
    assert_eq!(profile_name_from_arn("no-slash"), "no-slash");
}

#[test]
fn iam_check_results() {
    let d = Duration::from_millis(4);
    let p = instance_profile_result(Ok(Some((Some("web".to_string()), true))), d);
    assert_eq!(p.status, DiagnosticStatus::Success);
    assert_eq!(p.message, "Instance profile configured: web");
    let none = instance_profile_result(Ok(None), d);
    assert_eq!(none.severity, Severity::Critical);
    let i = info(vec![policy("Core", "arn:aws:iam::aws:policy/AmazonSSMManagedInstanceCore", true)], vec!["x".to_string(), "y".to_string()]);
    let s = ssm_permissions_result(Ok(Some(&i)), d);
    assert_eq!(s.message, "Required SSM permissions found");
    assert_eq!(
        permission_details(&i),
        vec!["Policy 'Core' has SSM permissions".to_string(), "Found 2 inline policies (manual review recommended)".to_string()]
    );
    let expiring = credentials_result(
        CredentialsState { is_valid: true, is_expired: false, session_token_present: true, seconds_until_expiry: Some(600) },
        d,
    );
    assert_eq!(expiring.status, DiagnosticStatus::Warning);
    assert_eq!(expiring.message, "Session token expires soon: 10 minutes remaining");
    let long = credentials_result(
        CredentialsState { is_valid: true, is_expired: false, session_token_present: true, seconds_until_expiry: Some(7300) },
        d,
    );
    assert_eq!(long.message, "Session token valid for 2 hours");
    let expired = credentials_result(
        CredentialsState { is_valid: true, is_expired: true, session_token_present: true, seconds_until_expiry: None },
        d,
    );
    assert!(expired.auto_fixable);
    assert_eq!(required_ssm_permission_list().len(), 17);
    let ind = individual_permission_result("ssm:SendCommand", "why", false, d);
    assert_eq!(ind.item_name, "permission_ssm_SendCommand");
    assert_eq!(ind.message, "Missing permission 'ssm:SendCommand': why");
    let cross = cross_account_result(Ok(Some(Some(Ok("Cross-account trust relationship detected".to_string())))), d);
    assert_eq!(cross.status, DiagnosticStatus::Success);
    let cross_err = cross_account_result(Ok(Some(Some(Err("bad".to_string())))), d);
    assert_eq!(cross_err.message, "Cross-account permission considerations: Failed to analyze trust policy: bad");
    let b = boundary_impact_result(Ok(Some(Some(Ok("IpAddress".to_string())))), d);
    assert_eq!(b.severity, Severity::Medium);
    assert_eq!(b.message, "Permissions boundary may impact SSM access: IP-based restrictions detected");
    let e = ec2_permissions_result(Ok(Some(&vec![true, false, false, true])), d);
    assert_eq!(e.message, "Missing 2 EC2 permissions");
}

#[test]
fn boundary_and_unavailable_results() {
    let d = Duration::from_millis(3);
    let r = boundary_result(Ok(Some(Some(("arn:b".to_string(), true)))), d);
    assert_eq!(r.status, DiagnosticStatus::Success);
    assert_eq!(r.message, "Permissions boundary allows SSM access: arn:b");
    let r = boundary_result(Ok(Some(Some(("arn:b".to_string(), false)))), d);
    assert_eq!(r.status, DiagnosticStatus::Warning);
    assert_eq!(r.severity, Severity::High);
    let r = boundary_result(Ok(Some(None)), d);
    assert_eq!(r.message, "No permissions boundary configured");
    let r = boundary_result(Ok(None), d);
    assert_eq!(r.message, "Cannot check permissions boundary - no IAM role attached");
    let r = boundary_result(Err("denied".to_string()), d);
    assert_eq!(r.message, "Failed to check permissions boundary: denied");
    assert_eq!(r.item_name, "permissions_boundary");

    let r = individual_permissions_unavailable(None, d);
    assert_eq!(r.severity, Severity::Critical);
    assert_eq!(r.message, "Cannot verify individual permissions - no IAM role attached");
    let r = individual_permissions_unavailable(Some("boom"), d);
    assert_eq!(r.severity, Severity::High);
    assert_eq!(r.message, "Failed to verify individual permissions: boom");

    let (lines, r) = resource_based_result(d);
    assert_eq!(lines.len(), 3);
    assert_eq!(lines[0], "KMS permissions: KMS permissions not required for unencrypted volumes");
    assert_eq!(r.item_name, "resource_based_permissions");

    let ec2 = required_ec2_permission_list();
    assert_eq!(ec2.len(), 4);
    assert_eq!(ec2[0].0, "ec2:DescribeInstanceStatus");

    assert!(policy_has_ssm_permissions(
        "arn:aws:iam::aws:policy/AmazonSSMManagedInstanceCore",
        None
    ));
    assert!(!policy_has_ssm_permissions("arn:aws:iam::1:policy/Other", None));
}
