use nimbus::feedback::{key_guide, shows_detailed_list};
use nimbus::diagnostic::{DiagnosticProgress, DiagnosticResult, Severity};
use nimbus::feedback::{
    event_for_key, footer_text, header_title, options_line, results_panel_text,
    severity_tag, ConfirmationRequest, FeedbackDisplayConfig, FeedbackEvent, FeedbackSession, Key,
};
use std::time::Duration;

#[test]
fn test_feedback_display_config() {
    let config = FeedbackDisplayConfig::default();

    assert!(config.show_progress_bar);
    assert!(config.show_item_details);
    assert!(config.color_coding_enabled);
    assert!(config.auto_scroll);
    assert_eq!(config.refresh_interval_ms, 100);
    assert_eq!(config.confirmation_timeout_seconds, 30);
}

#[test]
fn test_confirmation_request() {
    let issue = DiagnosticResult::error(
        "test_issue".to_string(),
        "Test error".to_string(),
        Duration::from_millis(100),
        Severity::High,
    );

    let confirmation = ConfirmationRequest {
        issue: issue.clone(),
        message: "Continue with diagnostics?".to_string(),
        options: vec!["Yes".to_string(), "No".to_string()],
        default_option: 0,
        timestamp: std::time::Instant::now(),
    };

    assert_eq!(confirmation.issue.item_name, "test_issue");
    assert_eq!(confirmation.options.len(), 2);
    assert_eq!(confirmation.default_option, 0);
    assert_eq!(options_line(&confirmation), "選択肢: Yes / No | Enterで続行, nで中止");
}

#[test]
fn test_feedback_system_creation() {
    let system = FeedbackSession::new();
    assert!(!system.is_running());
    assert!(!system.is_paused());
}

#[test]
fn test_progress_update() {
    let mut system = FeedbackSession::new();
    let progress = DiagnosticProgress::new("test_item".to_string(), 1, 5, Duration::from_secs(10));
    system.update_progress(progress.clone());
    assert!(system.state.current_progress.is_some());
    assert_eq!(system.state.current_item, "test_item");
}

#[test]
fn test_result_addition() {
    let mut system = FeedbackSession::new();
    let result = DiagnosticResult::success(
        "test_item".to_string(),
        "Test completed successfully".to_string(),
        Duration::from_millis(100),
    );
    system.add_result(result.clone());
    assert_eq!(system.state.diagnostic_results.len(), 1);
    assert_eq!(system.state.completed_items.len(), 1);
    assert!(system.state.completed_items.contains(&"test_item".to_string()));
}

#[test]
fn test_critical_issue_handling() {
    let mut system = FeedbackSession::new();
    let critical_result = DiagnosticResult::error(
        "critical_test".to_string(),
        "Critical error occurred".to_string(),
        Duration::from_millis(50),
        Severity::Critical,
    );
    system.add_result(critical_result.clone());
    assert_eq!(system.state.critical_issues.len(), 1);
    assert_eq!(system.state.failed_items.len(), 1);
    assert!(system.is_paused());
    let pending = system.state.confirmation_pending.as_ref().unwrap();
    assert_eq!(pending.issue.item_name, "critical_test");
    assert_eq!(pending.options, vec!["続行".to_string(), "中止".to_string()]);
}

#[test]
fn answering_a_critical_question() {
    let mut yes = FeedbackSession::new();
    yes.start();
    yes.add_result(DiagnosticResult::error(
        "c".to_string(),
        "bad".to_string(),
        Duration::from_millis(1),
        Severity::Critical,
    ));
    yes.handle_event(FeedbackEvent::UserConfirmation(true));
    assert!(!yes.is_paused());
    assert!(yes.is_running());
    assert!(yes.state.confirmation_pending.is_none());

    let mut no = FeedbackSession::new();
    no.start();
    no.handle_event(FeedbackEvent::CriticalIssueDetected(DiagnosticResult::error(
        "c".to_string(),
        "bad".to_string(),
        Duration::from_millis(1),
        Severity::High,
    )));
    assert!(no.is_paused());
    no.handle_event(FeedbackEvent::UserConfirmation(false));
    assert!(!no.is_running());
}

#[test]
fn toggles_scrolling_and_selection() {
    let mut s = FeedbackSession::new();
    s.start();
    s.handle_event(FeedbackEvent::Pause);
    assert!(s.is_paused());
    s.handle_event(FeedbackEvent::Pause);
    assert!(!s.is_paused());
    s.handle_event(FeedbackEvent::ScrollUp);
    assert_eq!(s.state.scroll_offset, 0);
    s.handle_event(FeedbackEvent::ScrollDown);
    assert_eq!(s.state.scroll_offset, 1);
    for name in ["a", "b"] {
        s.add_result(DiagnosticResult::success(name.to_string(), "ok".to_string(), Duration::from_millis(1)));
    }
    s.handle_event(FeedbackEvent::SelectNext);
    s.handle_event(FeedbackEvent::SelectNext);
    assert_eq!(s.state.selected_item, 1);
    s.handle_event(FeedbackEvent::SelectPrev);
    s.handle_event(FeedbackEvent::SelectPrev);
    assert_eq!(s.state.selected_item, 0);
    s.handle_event(FeedbackEvent::Quit);
    assert!(!s.is_running());
}

#[test]
fn keys_and_texts() {
    assert!(matches!(event_for_key(Key::Char('q')), Some(FeedbackEvent::Quit)));
    assert!(matches!(event_for_key(Key::F(5)), Some(FeedbackEvent::Resume)));
    assert!(matches!(event_for_key(Key::Enter), Some(FeedbackEvent::UserConfirmation(true))));
    assert!(event_for_key(Key::Char('x')).is_none());
    assert_eq!(header_title(true), "SSM接続診断 - 一時停止中");
    assert_eq!(severity_tag(Severity::Info), "");
    assert_eq!(severity_tag(Severity::High), " [高]");
    let mut s = FeedbackSession::new();
    assert_eq!(footer_text(&s.state), "Starting diagnostics... Press Ctrl+C to interrupt");
    assert_eq!(results_panel_text(&s.state.diagnostic_results), "No results yet...");
    s.add_result(DiagnosticResult::error("x".to_string(), "broken".to_string(), Duration::from_millis(1), Severity::Low));
    s.add_result(DiagnosticResult::success("y".to_string(), "fine".to_string(), Duration::from_millis(1)));
    assert_eq!(footer_text(&s.state), "Some diagnostics failed - check results above");
    assert_eq!(results_panel_text(&s.state.diagnostic_results), "x: broken\ny: fine");
}

#[test]
fn session_start_stop_pause_resume() {
    let mut system = FeedbackSession::new();
    system.start();
    assert!(system.is_running());
    system.pause();
    assert!(system.is_paused());
    system.resume();
    assert!(!system.is_paused());
    assert!(system.is_running());
    system.stop();
    assert!(!system.is_running());
}

#[test]
fn key_guide_and_detail_list() {
    assert_eq!(key_guide(true), "一時停止中 - Spaceで再開, qで終了, dで詳細表示切替");
    assert_eq!(key_guide(false), "実行中 - Spaceで一時停止, qで終了, dで詳細表示切替, ↑↓でスクロール");
    let config = FeedbackDisplayConfig::default();
    let mut system = FeedbackSession::new();
    assert!(!shows_detailed_list(&config, &system.state));
    system.handle_event(FeedbackEvent::ToggleDetails);
    assert!(shows_detailed_list(&config, &system.state));
}
