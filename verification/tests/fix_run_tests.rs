use nimbus::fix_run::{credentials_refreshed_message, manual_route_message, refresh_credentials_action, restart_agent_action, start_instance_action, terminate_process_action};
use nimbus::auto_fix::{FixAction, FixActionType, SsmAgentHealthStatus, SsmAgentState};
use nimbus::error::{AwsError, NimbusError};
use nimbus::fix_run::{
    agent_state_from, decide_health, dry_run_message, fix_disposition, fix_route, fix_run_mode,
    kill_outcome, parse_process_target, restart_outcome, skipped_message,
    troubleshooting_instructions, FixDisposition, FixResult, FixRoute, FixRunMode, HealthPoll,
    KillOutcome, StartAction, StartEvent, StartInstanceRun,
};
use nimbus::report::{fix_report, fix_result_icon, risk_icon, tally_fixes};
use nimbus::auto_fix::RiskLevel;
use std::time::Duration;

fn finish(a: StartAction) -> (bool, String) {
    match a {
        StartAction::Finish(ok, m) => (ok, m),
        other => panic!("expected a finish, got {:?}", other),
    }
}

#[test]
fn starting_a_stopped_instance_waits_for_it_and_for_ssm() {
    let mut run = StartInstanceRun::new("i-1".to_string());
    assert!(matches!(run.step(StartEvent::Described(Ok(Some("Stopped".to_string())))), StartAction::SendStart));
    assert!(matches!(run.step(StartEvent::Started(Ok(Some("Pending".to_string())))), StartAction::BeginWait));
    assert!(matches!(run.step(StartEvent::Tick(0)), StartAction::PollInstance));
    assert!(matches!(run.step(StartEvent::Polled(Ok(Some("pending".to_string())))), StartAction::Sleep(10)));
    assert!(matches!(run.step(StartEvent::Tick(10)), StartAction::PollInstance));
    assert!(matches!(run.step(StartEvent::Polled(Ok(Some("running".to_string())))), StartAction::BeginWait));
    assert!(matches!(run.step(StartEvent::Tick(0)), StartAction::ReadAgent));
    let not_yet = SsmAgentState {
        registered: false,
        ping_status: "Not registered".to_string(),
        agent_version: "Unknown".to_string(),
        last_ping_time: "Never".to_string(),
    };
    assert!(matches!(run.step(StartEvent::AgentRead(Ok(not_yet))), StartAction::Sleep(3)));
    assert!(matches!(run.step(StartEvent::Tick(3)), StartAction::ReadAgent));
    let online = SsmAgentState {
        registered: true,
        ping_status: "Online".to_string(),
        agent_version: "3.2".to_string(),
        last_ping_time: "now".to_string(),
    };
    let (ok, m) = finish(run.step(StartEvent::AgentRead(Ok(online))));
    assert!(ok);
    assert_eq!(
        m,
        "Instance started successfully (state: running). SSM registration confirmed (ping_status: Online, agent_version: 3.2)"
    );
    assert!(matches!(run.step(StartEvent::Tick(1)), StartAction::Ignore));
}

#[test]
fn start_outcomes_for_missing_terminated_and_slow_instances() {
    let mut run = StartInstanceRun::new("i-1".to_string());
    assert_eq!(finish(run.step(StartEvent::Described(Ok(None)))), (false, "Instance not found".to_string()));
    let mut run = StartInstanceRun::new("i-1".to_string());
    assert_eq!(
        finish(run.step(StartEvent::Described(Ok(Some("terminated".to_string()))))),
        (false, "Cannot start terminated instance".to_string())
    );
    let mut run = StartInstanceRun::new("i-1".to_string());
    assert_eq!(
        finish(run.step(StartEvent::Described(Err("denied".to_string())))),
        (false, "Failed to describe instance: denied".to_string())
    );
    let mut run = StartInstanceRun::new("i-1".to_string());
    run.step(StartEvent::Described(Ok(Some("stopped".to_string()))));
    run.step(StartEvent::Started(Ok(Some("pending".to_string()))));
    assert_eq!(
        finish(run.step(StartEvent::Tick(301))),
        (true, "Instance start initiated but monitoring failed: AWS error: Timeout: Instance startup monitoring".to_string())
    );
    let mut run = StartInstanceRun::new("i-1".to_string());
    run.step(StartEvent::Described(Ok(Some("stopped".to_string()))));
    run.step(StartEvent::Started(Ok(Some("pending".to_string()))));
    run.step(StartEvent::Tick(5));
    assert_eq!(
        finish(run.step(StartEvent::Polled(Ok(Some("stopping".to_string()))))),
        (true, "Instance start initiated but monitoring failed: AWS error: EC2 service error: Instance startup failed, current state: stopping".to_string())
    );
}

#[test]
fn an_already_running_instance_only_waits_for_ssm() {
    let mut run = StartInstanceRun::new("i-7".to_string());
    assert!(matches!(run.step(StartEvent::Described(Ok(Some("running".to_string())))), StartAction::BeginWait));
    let (ok, m) = finish(run.step(StartEvent::AgentRead(Err(NimbusError::Aws(AwsError::SsmServiceError {
        message: "throttled".to_string(),
    })))));
    assert!(!ok);
    let expected = format!(
        "Instance is already running, but SSM registration did not complete: AWS error: SSM service error: throttled\n\n{}",
        troubleshooting_instructions("i-7")
    );
    assert_eq!(m, expected);
    assert!(troubleshooting_instructions("i-7").contains("Values=i-7\n6)"));
}

#[test]
fn process_targets_and_termination() {
    assert_eq!(parse_process_target("process:4242"), Ok(4242));
    assert_eq!(parse_process_target("process:abc"), Err("Invalid PID format: abc".to_string()));
    assert_eq!(parse_process_target("pid:1"), Err("Invalid process target format: pid:1".to_string()));
    assert_eq!(
        kill_outcome(4242, KillOutcome::Succeeded, "kill"),
        (true, "Successfully terminated process with PID: 4242".to_string())
    );
    assert_eq!(
        kill_outcome(7, KillOutcome::Failed("no such process".to_string()), "kill"),
        (false, "Failed to terminate process 7: no such process".to_string())
    );
    assert_eq!(
        kill_outcome(7, KillOutcome::NotRun("missing".to_string()), "taskkill"),
        (false, "Failed to execute taskkill command: missing".to_string())
    );
}

#[test]
fn agent_health_and_restart_messages() {
    let s = agent_state_from(Some((Some("Online".to_string()), None, None)));
    assert!(s.registered);
    assert_eq!(s.agent_version, "Unknown");
    let none = agent_state_from(None);
    assert!(!none.registered);
    assert_eq!(none.last_ping_time, "Never");
    assert!(matches!(decide_health(HealthPoll::Read(s)), Some(SsmAgentHealthStatus::Healthy)));
    assert!(decide_health(HealthPoll::Tick(60)).is_none());
    assert!(matches!(decide_health(HealthPoll::Tick(61)), Some(SsmAgentHealthStatus::Unknown)));
    match decide_health(HealthPoll::ReadFailed("timeout".to_string())) {
        Some(SsmAgentHealthStatus::Unhealthy(r)) => assert_eq!(r, "Health check failed: timeout"),
        _ => panic!("expected unhealthy"),
    }
    assert_eq!(
        restart_outcome(&SsmAgentHealthStatus::Healthy, "cmd-1"),
        (true, "SSM agent restarted successfully and is healthy. Command ID: cmd-1".to_string())
    );
    assert_eq!(
        restart_outcome(&SsmAgentHealthStatus::Unhealthy("slow".to_string()), "cmd-2"),
        (false, "SSM agent restart completed but agent is unhealthy: slow. Command ID: cmd-2".to_string())
    );
}

#[test]
fn which_fixes_run() {
    let start = FixAction::new(FixActionType::StartInstance, "s".to_string(), "i".to_string());
    let kill = FixAction::new(FixActionType::TerminateProcess, "k".to_string(), "process:1".to_string());
    assert_eq!(fix_run_mode(true, true), FixRunMode::All);
    assert_eq!(fix_run_mode(false, true), FixRunMode::SafeOnly);
    assert_eq!(fix_disposition(FixRunMode::SafeOnly, &kill, false), FixDisposition::RecordSkipped);
    assert_eq!(fix_disposition(FixRunMode::SafeOnly, &start, false), FixDisposition::Execute);
    assert_eq!(fix_disposition(FixRunMode::Interactive, &kill, false), FixDisposition::Drop);
    assert_eq!(fix_disposition(FixRunMode::Interactive, &kill, true), FixDisposition::Execute);
    assert_eq!(skipped_message(), "Skipped - requires manual confirmation");
    assert_eq!(fix_route(FixActionType::CreateVpcEndpoint), FixRoute::Manual);
    assert_eq!(dry_run_message(FixRoute::TerminateProcess, "process:9"), "DRY RUN: Would terminate process process:9");
}

#[test]
fn fix_reports_and_counts() {
    let a = FixAction::new(FixActionType::UpdateCredentials, "Refresh".to_string(), "credentials".to_string());
    let b = FixAction::new(FixActionType::StartInstance, "Start".to_string(), "i-1".to_string());
    let rs = vec![
        FixResult::success(a, "done".to_string(), Duration::from_millis(1)),
        FixResult::failure(b, "no".to_string(), Duration::from_millis(1)),
    ];
    assert_eq!(tally_fixes(&rs), (1, 1));
    assert_eq!(fix_report("i-1", &rs), "Auto-fix Results for i-1\nRefresh: done\nStart: no");
    assert_eq!(fix_result_icon(true, true), "🔍");
    assert_eq!(risk_icon(RiskLevel::Medium), "🟠");
}

#[test]
fn fix_action_builders_and_messages() {
    let a = start_instance_action("i-1");
    assert!(matches!(a.action_type, FixActionType::StartInstance));
    assert_eq!(a.description, "Starting instance: i-1");
    assert_eq!(a.target_resource, "i-1");
    let a = restart_agent_action("i-2");
    assert!(matches!(a.action_type, FixActionType::RestartSsmAgent));
    assert_eq!(a.description, "Restarting SSM agent on instance: i-2");
    let a = refresh_credentials_action();
    assert!(matches!(a.action_type, FixActionType::UpdateCredentials));
    assert_eq!(a.description, "Updating AWS credentials configuration");
    assert_eq!(a.target_resource, "credentials");
    let a = terminate_process_action("process:42");
    assert!(matches!(a.action_type, FixActionType::TerminateProcess));
    assert_eq!(a.description, "Terminating process: process:42");
    assert_eq!(credentials_refreshed_message(), "AWS credentials refreshed successfully");
    assert_eq!(
        manual_route_message(FixRoute::ManualRestore),
        "Configuration restoration requires manual intervention"
    );
    assert_eq!(manual_route_message(FixRoute::Manual), "Manual fix action - see instructions");
}
