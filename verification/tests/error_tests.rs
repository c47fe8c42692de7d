use nimbus::error::{
    AwsError, ConnectionError, ErrorSeverity, NimbusError, SessionError, VsCodeError,
};
use nimbus::error_recovery::{
    degradation_plan, fallback_plan, strategy_kind, AttemptPlan, AttemptRun, ContextualError,
    ErrorContext, InfoMap, RecoveryAction, RecoveryEvent, RetryAction, RetryEvent, RetryRun,
    StrategyKind,
};

fn preventive_failure() -> NimbusError {
    NimbusError::Connection(ConnectionError::PreventiveCheckFailed {
        reason: "test".to_string(),
        issues: vec!["issue1".to_string()],
    })
}

/// Runs a retry against an operation that fails `failures` times and then
/// succeeds; returns whether it succeeded, the runs and the backoff pauses.
fn drive_retry(max_attempts: u32, failures: u32) -> (Result<(), RetryAction>, u32, u32) {
    let mut run = RetryRun::new(max_attempts);
    let mut calls: u32 = 0;
    let mut pauses: u32 = 0;
    let mut ev = RetryEvent::ReadyToRun { timed_out: false };
    loop {
        match run.step(ev) {
            RetryAction::RunOperation => {
                calls += 1;
                ev = if calls <= failures {
                    RetryEvent::OperationFailed
                } else {
                    RetryEvent::OperationSucceeded
                };
            }
            RetryAction::Backoff => {
                pauses += 1;
                ev = RetryEvent::ReadyToRun { timed_out: false };
            }
            RetryAction::ReturnSuccess => return (Ok(()), calls, pauses),
            other => return (Err(other), calls, pauses),
        }
    }
}

/// Runs an attempt plan against an operation that fails `failures` times
/// and then succeeds; returns whether it succeeded and the pauses asked for.
fn drive_attempts(plan: AttemptPlan, failures: u32) -> (bool, Vec<u64>) {
    let (mut run, first) = AttemptRun::start(plan);
    let mut pauses = Vec::new();
    let mut calls: u32 = 0;
    let mut action = first;
    loop {
        let ev = match action {
            RecoveryAction::Sleep(ms) => {
                pauses.push(ms);
                RecoveryEvent::Slept
            }
            RecoveryAction::RunOperation => {
                calls += 1;
                if calls <= failures {
                    RecoveryEvent::OperationFailed
                } else {
                    RecoveryEvent::OperationSucceeded
                }
            }
            RecoveryAction::ReturnSuccess => return (true, pauses),
            RecoveryAction::ReturnOriginalError => return (false, pauses),
        };
        action = run.step(ev);
    }
}

#[test]
fn test_recovery_strategy_selection() {
    assert_eq!(strategy_kind(&preventive_failure()), StrategyKind::Retry);
    let session_error = NimbusError::Session(SessionError::NotFound {
        session_id: "test".to_string(),
    });
    assert_eq!(strategy_kind(&session_error), StrategyKind::Fail);
}

#[test]
fn test_fallback_recovery() {
    // A failed preventive check is retried: one failure, then success.
    assert_eq!(strategy_kind(&preventive_failure()), StrategyKind::Retry);
    let (result, calls, _) = drive_retry(5, 1);
    assert!(result.is_ok());
    assert_eq!(calls, 2);
}

#[test]
fn test_graceful_degradation() {
    let session_error = NimbusError::Session(SessionError::CreationFailed {
        reason: "test".to_string(),
    });
    assert_eq!(strategy_kind(&session_error), StrategyKind::Retry);
    let (result, calls, _) = drive_retry(5, 1);
    assert!(result.is_ok());
    assert_eq!(calls, 2);
}

#[test]
fn test_retry_with_backoff() {
    let (result, calls, pauses) = drive_retry(3, 2);
    assert!(result.is_ok());
    assert_eq!(calls, 3);
    // Two pauses: the runner sleeps 10 ms and then 20 ms.
    assert_eq!(pauses, 2);
}

#[test]
fn retry_gives_up_with_the_last_error_after_max_attempts() {
    let (result, calls, pauses) = drive_retry(3, 10);
    assert_eq!(result, Err(RetryAction::ReturnLastError));
    assert_eq!(calls, 3);
    assert_eq!(pauses, 2);
}

#[test]
fn retry_reports_a_timeout_before_running() {
    let mut run = RetryRun::new(3);
    assert_eq!(run.step(RetryEvent::ReadyToRun { timed_out: true }), RetryAction::ReturnTimeout);
    assert!(run.finished);
    assert_eq!(run.attempt, 0);
}

#[test]
fn test_contextual_error() {
    let context = ErrorContext::new("connect", "session_manager")
        .with_session_id("test-session")
        .with_instance_id("i-1234567890abcdef0");
    let contextual = ContextualError::new(preventive_failure(), context);
    let info = contextual.detailed_info();
    assert!(info.contains("session_manager.connect"));
    assert!(info.contains("test-session"));
    assert!(info.contains("i-1234567890abcdef0"));
}

#[test]
fn detailed_info_shows_missing_ids_and_extra_information() {
    let context = ErrorContext::new("op", "comp").with_info("k", "v").with_info("k", "w");
    assert_eq!(context.additional_info.len(), 1);
    assert_eq!(context.additional_info.get("k"), Some("w".to_string()));
    let contextual = ContextualError::new(NimbusError::Io("disk".to_string()), context);
    let info = contextual.detailed_info();
    assert!(info.starts_with("Error in comp.op: IO error: disk | Session: N/A | Instance: N/A | Time: "));
    assert!(info.ends_with(" | Additional: {\"k\": \"w\"}"));
    assert_eq!(contextual.severity(), ErrorSeverity::Medium);
    assert_eq!(contextual.user_message(), "IO error: disk");
}

#[test]
fn info_map_keeps_one_value_per_key_in_first_order() {
    let mut m = InfoMap::new();
    m.insert("a".to_string(), "1".to_string());
    m.insert("b".to_string(), "2".to_string());
    m.insert("a".to_string(), "3".to_string());
    assert_eq!(m.len(), 2);
    assert_eq!(m.get("a"), Some("3".to_string()));
    assert_eq!(m.get("b"), Some("2".to_string()));
    assert_eq!(m.get("c"), None);
    let copy = m.clone();
    assert_eq!(copy.get("a"), Some("3".to_string()));
}

#[test]
fn fallback_plans_by_error() {
    let p = fallback_plan(&NimbusError::Io("x".to_string()));
    assert_eq!(p, AttemptPlan { initial_delay_ms: 500, attempts: 2, between_ms: 200 });
    let (ok, pauses) = drive_attempts(p, 1);
    assert!(ok);
    assert_eq!(pauses, vec![500, 200]);
    let (ok, pauses) = drive_attempts(p, 5);
    assert!(!ok);
    assert_eq!(pauses, vec![500, 200]);
}

#[test]
fn degradation_plans_by_error() {
    let vs = NimbusError::VsCode(VsCodeError::NotFound { message: "m".to_string() });
    let p = degradation_plan(&vs);
    assert_eq!(p, AttemptPlan { initial_delay_ms: 100, attempts: 1, between_ms: 200 });
    let (ok, pauses) = drive_attempts(p, 1);
    assert!(!ok);
    assert_eq!(pauses, vec![100]);
    let other = degradation_plan(&NimbusError::Json("j".to_string()));
    assert_eq!(other, AttemptPlan { initial_delay_ms: 1000, attempts: 2, between_ms: 200 });
}

#[test]
fn error_texts_and_classification() {
    let auth = NimbusError::Aws(AwsError::AuthenticationFailed { message: "bad".to_string() });
    assert_eq!(auth.display_text(), "AWS error: Authentication failed: bad");
    assert_eq!(auth.severity(), ErrorSeverity::High);
    assert!(!auth.is_recoverable());
    assert_eq!(auth.user_message(), "AWS認証に失敗しました。AWS認証情報を確認してください。");
    assert_eq!(strategy_kind(&auth), StrategyKind::Fail);

    let limit = NimbusError::Session(SessionError::LimitExceeded { max_sessions: 5 });
    assert_eq!(limit.display_text(), "Session error: Session limit exceeded: max 5");
    assert_eq!(limit.user_message(), "セッション数の上限に達しました（最大5セッション）。");

    let pf = preventive_failure();
    assert_eq!(pf.display_text(), "Connection error: Preventive check failed: test");
    assert!(pf.is_recoverable());
    assert_eq!(pf.severity(), ErrorSeverity::Medium);

    let cfg = NimbusError::VsCode(VsCodeError::ConfigurationError { message: "c".to_string() });
    assert_eq!(cfg.display_text(), "VS Code integration error: Configuration error: c");
    assert_eq!(ErrorSeverity::Low.as_str(), "LOW");
    assert_eq!(ErrorSeverity::Medium.as_str(), "MEDIUM");
    assert_eq!(ErrorSeverity::High.as_str(), "HIGH");
}
