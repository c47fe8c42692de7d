//! The interactive view of a diagnostic run: its display settings, the state
//! it shows, the events that change that state, and the texts it picks.

use crate::diagnostic::{DiagnosticProgress, DiagnosticResult, DiagnosticStatus, Severity};
use crate::text::{concat3, join_strings, joined, strings_view};
use std::time::Instant;
use vstd::prelude::*;

verus! {

/// `std::time::Instant`, carried as an opaque value.
#[verifier::external_type_specification]
#[verifier::external_body]
pub struct ExInstant(Instant);

/// The current instant (`Instant::now`); nothing is known of its value.
#[verifier::external_body]
pub(crate) fn instant_now() -> (t: Instant) {
    Instant::now()
}

/// Display settings of the interactive view.
#[derive(Debug, Clone, Copy, PartialEq, Eq, Structural)]
pub struct FeedbackDisplayConfig {
    pub show_progress_bar: bool,
    pub show_item_details: bool,
    pub color_coding_enabled: bool,
    pub auto_scroll: bool,
    pub refresh_interval_ms: u64,
    pub confirmation_timeout_seconds: u64,
}

impl Default for FeedbackDisplayConfig {
    /// Everything shown, redrawn every 100 ms, confirmations wait 30 s.
    fn default() -> (c: Self)
        ensures
            c == (FeedbackDisplayConfig {
                show_progress_bar: true,
                show_item_details: true,
                color_coding_enabled: true,
                auto_scroll: true,
                refresh_interval_ms: 100,
                confirmation_timeout_seconds: 30,
            }),
    {
        FeedbackDisplayConfig {
            show_progress_bar: true,
            show_item_details: true,
            color_coding_enabled: true,
            auto_scroll: true,
            refresh_interval_ms: 100,
            confirmation_timeout_seconds: 30,
        }
    }
}

/// A question put to the user about a critical finding.
#[derive(Debug)]
pub struct ConfirmationRequest {
    pub issue: DiagnosticResult,
    pub message: String,
    pub options: Vec<String>,
    pub default_option: usize,
    pub timestamp: Instant,
}

/// What the interactive view shows.
#[derive(Debug)]
pub struct FeedbackState {
    pub current_progress: Option<DiagnosticProgress>,
    pub diagnostic_results: Vec<DiagnosticResult>,
    pub current_item: String,
    pub completed_items: Vec<String>,
    pub failed_items: Vec<String>,
    pub warning_items: Vec<String>,
    pub is_paused: bool,
    pub show_details: bool,
    pub selected_item: usize,
    pub scroll_offset: usize,
    pub critical_issues: Vec<DiagnosticResult>,
    pub confirmation_pending: Option<ConfirmationRequest>,
}

/// What can happen to the interactive view.
#[derive(Debug)]
pub enum FeedbackEvent {
    UpdateProgress(DiagnosticProgress),
    AddResult(DiagnosticResult),
    CriticalIssueDetected(DiagnosticResult),
    RequestConfirmation(ConfirmationRequest),
    UserConfirmation(bool),
    Pause,
    Resume,
    ToggleDetails,
    ScrollUp,
    ScrollDown,
    SelectNext,
    SelectPrev,
    Quit,
    Refresh,
}

/// The names of the results with a given status, in order.
pub open spec fn names_with_status(rs: Seq<DiagnosticResult>, st: DiagnosticStatus) -> Seq<Seq<char>>
    decreases rs.len(),
{
    if rs.len() == 0 {
        Seq::empty()
    } else {
        let rest = names_with_status(rs.drop_last(), st);
        if rs.last().status == st {
            rest.push(rs.last().item_name@)
        } else {
            rest
        }
    }
}

/// The state is consistent with its results: each list holds the names of
/// the results of its status, in order, and the selection points at a
/// result (or is 0 while there is none).
pub open spec fn consistent(s: FeedbackState) -> bool {
    &&& strings_view(s.completed_items@) == names_with_status(
        s.diagnostic_results@,
        DiagnosticStatus::Success,
    )
    &&& strings_view(s.failed_items@) == names_with_status(
        s.diagnostic_results@,
        DiagnosticStatus::Error,
    )
    &&& strings_view(s.warning_items@) == names_with_status(
        s.diagnostic_results@,
        DiagnosticStatus::Warning,
    )
    &&& (s.selected_item == 0 || s.selected_item < s.diagnostic_results.len())
}

/// The message asked on a critical finding ("A critical problem was
/// detected. Continue the diagnosis?").
pub open spec fn critical_question() -> Seq<char> {
    "重大な問題が検出されました。診断を続行しますか？"@
}

/// The answers offered on a critical finding ("continue", "abort").
pub open spec fn critical_options() -> Seq<Seq<char>> {
    seq!["続行"@, "中止"@]
}

proof fn lemma_names_push(rs: Seq<DiagnosticResult>, r: DiagnosticResult, st: DiagnosticStatus)
    ensures
        names_with_status(rs.push(r), st) == if r.status == st {
            names_with_status(rs, st).push(r.item_name@)
        } else {
            names_with_status(rs, st)
        },
{
    assert(rs.push(r).drop_last() =~= rs);
}

proof fn lemma_strings_push(v: Seq<String>, s: String)
    ensures
        strings_view(v.push(s)) == strings_view(v).push(s@),
{
    assert(strings_view(v.push(s)) =~= strings_view(v).push(s@));
}

/// The interactive view: its state and whether it still runs.
pub struct FeedbackSession {
    pub state: FeedbackState,
    pub running: bool,
}

/// Two states agree on everything but the critical issues, the pause flag
/// and the pending confirmation.
pub open spec fn same_but_confirmation(a: FeedbackState, b: FeedbackState) -> bool {
    &&& a.current_progress == b.current_progress
    &&& a.diagnostic_results == b.diagnostic_results
    &&& a.current_item == b.current_item
    &&& a.completed_items == b.completed_items
    &&& a.failed_items == b.failed_items
    &&& a.warning_items == b.warning_items
    &&& a.show_details == b.show_details
    &&& a.selected_item == b.selected_item
    &&& a.scroll_offset == b.scroll_offset
}

/// The effect of one event on a state and the running flag.
pub open spec fn event_effect(
    s0: FeedbackState,
    r0: bool,
    s1: FeedbackState,
    r1: bool,
    e: FeedbackEvent,
) -> bool {
    match e {
        FeedbackEvent::CriticalIssueDetected(issue) => {
            &&& same_but_confirmation(s0, s1)
            &&& s1.critical_issues@ == s0.critical_issues@.push(issue)
            &&& s1.is_paused
            &&& s1.confirmation_pending is Some
            &&& s1.confirmation_pending->0.issue == issue
            &&& s1.confirmation_pending->0.message@ == critical_question()
            &&& strings_view(s1.confirmation_pending->0.options@) == critical_options()
            &&& s1.confirmation_pending->0.default_option == 0
            &&& r1 == r0
        },
        FeedbackEvent::UserConfirmation(yes) => {
            if s0.confirmation_pending is Some {
                &&& s1 == FeedbackState {
                    is_paused: if yes { false } else { s0.is_paused },
                    confirmation_pending: None,
                    ..s0
                }
                &&& r1 == (if yes { r0 } else { false })
            } else {
                s1 == s0 && r1 == r0
            }
        },
        FeedbackEvent::Pause => s1 == FeedbackState { is_paused: !s0.is_paused, ..s0 } && r1 == r0,
        FeedbackEvent::Resume => s1 == FeedbackState { is_paused: false, ..s0 } && r1 == r0,
        FeedbackEvent::ToggleDetails => s1 == FeedbackState { show_details: !s0.show_details, ..s0 }
            && r1 == r0,
        FeedbackEvent::ScrollUp => s1 == FeedbackState {
            scroll_offset: if s0.scroll_offset > 0 {
                (s0.scroll_offset - 1) as usize
            } else {
                0usize
            },
            ..s0
        } && r1 == r0,
        FeedbackEvent::ScrollDown => s1 == FeedbackState {
            scroll_offset: (s0.scroll_offset + 1) as usize,
            ..s0
        } && r1 == r0,
        FeedbackEvent::SelectNext => s1 == FeedbackState {
            selected_item: if s0.selected_item + 1 < s0.diagnostic_results.len() {
                (s0.selected_item + 1) as usize
            } else {
                s0.selected_item
            },
            ..s0
        } && r1 == r0,
        FeedbackEvent::SelectPrev => s1 == FeedbackState {
            selected_item: if s0.selected_item > 0 {
                (s0.selected_item - 1) as usize
            } else {
                0usize
            },
            ..s0
        } && r1 == r0,
        FeedbackEvent::Quit => s1 == s0 && !r1,
        _ => s1 == s0 && r1 == r0,
    }
}

impl FeedbackSession {
    /// A view with nothing to show, not yet running.
    pub fn new() -> (f: Self)
        ensures
            consistent(f.state),
            !f.running,
            !f.state.is_paused,
            !f.state.show_details,
            f.state.current_progress is None,
            f.state.diagnostic_results@.len() == 0,
            f.state.critical_issues@.len() == 0,
            f.state.confirmation_pending is None,
            f.state.current_item@.len() == 0,
            f.state.selected_item == 0,
            f.state.scroll_offset == 0,
    {
        let state = FeedbackState {
            current_progress: None,
            diagnostic_results: Vec::new(),
            current_item: String::new(),
            completed_items: Vec::new(),
            failed_items: Vec::new(),
            warning_items: Vec::new(),
            is_paused: false,
            show_details: false,
            selected_item: 0,
            scroll_offset: 0,
            critical_issues: Vec::new(),
            confirmation_pending: None,
        };
        proof {
            assert(strings_view(state.completed_items@) =~= Seq::<Seq<char>>::empty());
            assert(strings_view(state.failed_items@) =~= Seq::<Seq<char>>::empty());
            assert(strings_view(state.warning_items@) =~= Seq::<Seq<char>>::empty());
        }
        FeedbackSession { state, running: false }
    }

    /// Marks the view as running.
    pub fn start(&mut self)
        ensures
            final(self).running,
            final(self).state == old(self).state,
    {
        self.running = true;
    }

    /// Marks the view as stopped.
    pub fn stop(&mut self)
        ensures
            !final(self).running,
            final(self).state == old(self).state,
    {
        self.running = false;
    }

    /// Whether the run is paused.
    pub fn is_paused(&self) -> (b: bool)
        ensures
            b == self.state.is_paused,
    {
        self.state.is_paused
    }

    /// Whether the view runs.
    pub fn is_running(&self) -> (b: bool)
        ensures
            b == self.running,
    {
        self.running
    }

    /// Records new progress: it becomes the current progress, and its item
    /// the current item.
    pub fn update_progress(&mut self, progress: DiagnosticProgress)
        ensures
            final(self).state.current_progress == Some(progress),
            final(self).state.current_item == progress.current_item,
            final(self).state.diagnostic_results == old(self).state.diagnostic_results,
            final(self).state.completed_items == old(self).state.completed_items,
            final(self).state.failed_items == old(self).state.failed_items,
            final(self).state.warning_items == old(self).state.warning_items,
            final(self).state.selected_item == old(self).state.selected_item,
            final(self).state.is_paused == old(self).state.is_paused,
            final(self).running == old(self).running,
    {
        let item = progress.current_item.clone();
        self.state.current_progress = Some(progress);
        self.state.current_item = item;
    }

    /// Puts a question about a finding to the user; the first option is the
    /// default.
    pub fn request_confirmation(&mut self, issue: DiagnosticResult, message: String, options: Vec<String>)
        ensures
            final(self).state.confirmation_pending is Some,
            final(self).state.confirmation_pending->0.issue == issue,
            final(self).state.confirmation_pending->0.message == message,
            final(self).state.confirmation_pending->0.options == options,
            final(self).state.confirmation_pending->0.default_option == 0,
            same_but_confirmation(old(self).state, final(self).state),
            final(self).state.critical_issues == old(self).state.critical_issues,
            final(self).state.is_paused == old(self).state.is_paused,
            final(self).running == old(self).running,
    {
        let timestamp = instant_now();
        self.state.confirmation_pending = Some(
            ConfirmationRequest { issue, message, options, default_option: 0, timestamp },
        );
    }

    fn ask_about_critical(&mut self, issue: DiagnosticResult)
        ensures
            final(self).state.confirmation_pending is Some,
            final(self).state.confirmation_pending->0.issue == issue,
            final(self).state.confirmation_pending->0.message@ == critical_question(),
            strings_view(final(self).state.confirmation_pending->0.options@) == critical_options(),
            final(self).state.confirmation_pending->0.default_option == 0,
            same_but_confirmation(old(self).state, final(self).state),
            final(self).state.critical_issues == old(self).state.critical_issues,
            final(self).state.is_paused == old(self).state.is_paused,
            final(self).running == old(self).running,
    {
        let mut options: Vec<String> = Vec::new();
        options.push(String::from_str("続行"));
        options.push(String::from_str("中止"));
        proof {
            assert(strings_view(options@) =~= critical_options());
        }
        self.request_confirmation(
            issue,
            String::from_str("重大な問題が検出されました。診断を続行しますか？"),
            options,
        );
    }

    /// Records a result: it joins the results and the list of its status;
    /// a critical one also joins the critical issues, pauses the run and
    /// asks whether to continue.
    pub fn add_result(&mut self, result: DiagnosticResult)
        requires
            consistent(old(self).state),
        ensures
            consistent(final(self).state),
            final(self).state.diagnostic_results@ == old(self).state.diagnostic_results@.push(result),
            result.severity == Severity::Critical ==> {
                &&& final(self).state.critical_issues@ == old(self).state.critical_issues@.push(result)
                &&& final(self).state.is_paused
                &&& final(self).state.confirmation_pending is Some
                &&& final(self).state.confirmation_pending->0.issue == result
                &&& final(self).state.confirmation_pending->0.message@ == critical_question()
                &&& strings_view(final(self).state.confirmation_pending->0.options@) == critical_options()
            },
            result.severity != Severity::Critical ==> {
                &&& final(self).state.critical_issues == old(self).state.critical_issues
                &&& final(self).state.is_paused == old(self).state.is_paused
                &&& final(self).state.confirmation_pending == old(self).state.confirmation_pending
            },
            final(self).running == old(self).running,
    {
        let ghost s0 = self.state;
        let critical = result.severity == Severity::Critical;
        if critical {
            self.state.critical_issues.push(result.clone());
            self.state.is_paused = true;
        }
        let name = result.item_name.clone();
        match result.status {
            DiagnosticStatus::Success => {
                proof {
                    lemma_strings_push(self.state.completed_items@, name);
                }
                self.state.completed_items.push(name);
            },
            DiagnosticStatus::Error => {
                proof {
                    lemma_strings_push(self.state.failed_items@, name);
                }
                self.state.failed_items.push(name);
            },
            DiagnosticStatus::Warning => {
                proof {
                    lemma_strings_push(self.state.warning_items@, name);
                }
                self.state.warning_items.push(name);
            },
            DiagnosticStatus::Skipped => {},
        }
        proof {
            lemma_names_push(s0.diagnostic_results@, result, DiagnosticStatus::Success);
            lemma_names_push(s0.diagnostic_results@, result, DiagnosticStatus::Error);
            lemma_names_push(s0.diagnostic_results@, result, DiagnosticStatus::Warning);
        }
        let kept = result.clone();
        self.state.diagnostic_results.push(kept);
        if critical {
            self.ask_about_critical(result);
        }
    }

    /// Pauses the run.
    pub fn pause(&mut self)
        ensures
            final(self).state.is_paused,
            final(self).running == old(self).running,
            final(self).state.diagnostic_results == old(self).state.diagnostic_results,
    {
        self.state.is_paused = true;
    }

    /// Resumes the run.
    pub fn resume(&mut self)
        ensures
            !final(self).state.is_paused,
            final(self).running == old(self).running,
            final(self).state.diagnostic_results == old(self).state.diagnostic_results,
    {
        self.state.is_paused = false;
    }

    /// Applies an event. Progress, results and confirmation requests were
    /// recorded when they were announced, so their events change nothing.
    pub fn handle_event(&mut self, event: FeedbackEvent)
        requires
            consistent(old(self).state),
            event is ScrollDown ==> old(self).state.scroll_offset < usize::MAX,
        ensures
            consistent(final(self).state),
            event_effect(old(self).state, old(self).running, final(self).state, final(self).running, event),
            !old(self).running ==> !final(self).running,
            final(self).state.diagnostic_results == old(self).state.diagnostic_results,
    {
        match event {
            FeedbackEvent::CriticalIssueDetected(issue) => {
                let kept = issue.clone();
                self.state.critical_issues.push(kept);
                self.state.is_paused = true;
                self.ask_about_critical(issue);
            },
            FeedbackEvent::UserConfirmation(yes) => {
                if self.state.confirmation_pending.is_some() {
                    if yes {
                        self.state.is_paused = false;
                    } else {
                        self.running = false;
                    }
                    self.state.confirmation_pending = None;
                }
            },
            FeedbackEvent::Pause => {
                self.state.is_paused = !self.state.is_paused;
            },
            FeedbackEvent::Resume => {
                self.state.is_paused = false;
            },
            FeedbackEvent::ToggleDetails => {
                self.state.show_details = !self.state.show_details;
            },
            FeedbackEvent::ScrollUp => {
                if self.state.scroll_offset > 0 {
                    self.state.scroll_offset = self.state.scroll_offset - 1;
                }
            },
            FeedbackEvent::ScrollDown => {
                self.state.scroll_offset = self.state.scroll_offset + 1;
            },
            FeedbackEvent::SelectNext => {
                let n = self.state.diagnostic_results.len();
                let last: usize = if n > 0 {
                    n - 1
                } else {
                    0
                };
                if self.state.selected_item < last {
                    self.state.selected_item = self.state.selected_item + 1;
                }
            },
            FeedbackEvent::SelectPrev => {
                if self.state.selected_item > 0 {
                    self.state.selected_item = self.state.selected_item - 1;
                }
            },
            FeedbackEvent::Quit => {
                self.running = false;
            },
            FeedbackEvent::UpdateProgress(_) => {},
            FeedbackEvent::AddResult(_) => {},
            FeedbackEvent::RequestConfirmation(_) => {},
            FeedbackEvent::Refresh => {},
        }
    }
}

/// Law: pausing twice, or toggling the details twice, gives back the state
/// one started from.
pub proof fn lemma_toggles_are_involutions(
    s0: FeedbackState,
    r0: bool,
    s1: FeedbackState,
    r1: bool,
    s2: FeedbackState,
    r2: bool,
    pause: bool,
)
    requires
        event_effect(s0, r0, s1, r1, if pause { FeedbackEvent::Pause } else { FeedbackEvent::ToggleDetails }),
        event_effect(s1, r1, s2, r2, if pause { FeedbackEvent::Pause } else { FeedbackEvent::ToggleDetails }),
    ensures
        s2 == s0,
        r2 == r0,
{
}

/// Law: answering a pending question with yes resumes the run and keeps it
/// running; answering no stops it; either way the question is gone.
pub proof fn lemma_confirmation_answer(s0: FeedbackState, r0: bool, s1: FeedbackState, r1: bool, yes: bool)
    requires
        s0.confirmation_pending is Some,
        event_effect(s0, r0, s1, r1, FeedbackEvent::UserConfirmation(yes)),
    ensures
        s1.confirmation_pending is None,
        yes ==> !s1.is_paused && r1 == r0,
        !yes ==> !r1,
        s1.diagnostic_results == s0.diagnostic_results,
{
}

/// Law: a paused run stays paused through every event but a pause toggle,
/// a resume, or a yes to a pending question. Together with `pause`, which
/// leaves the session paused, this says that diagnostics paused by `pause`
/// stay paused until the user resumes them.
pub proof fn lemma_paused_until_resumed(s0: FeedbackState, r0: bool, s1: FeedbackState, r1: bool, e: FeedbackEvent)
    requires
        s0.is_paused,
        event_effect(s0, r0, s1, r1, e),
        !(e is Pause),
        !(e is Resume),
        !(e matches FeedbackEvent::UserConfirmation(yes) && yes && s0.confirmation_pending is Some),
    ensures
        s1.is_paused,
        s1.diagnostic_results == s0.diagnostic_results,
{
}

/// Law: moving the selection never takes it past the last result.
pub proof fn lemma_selection_stays_in_range(s0: FeedbackState, r0: bool, s1: FeedbackState, r1: bool, next: bool)
    requires
        consistent(s0),
        event_effect(s0, r0, s1, r1, if next { FeedbackEvent::SelectNext } else { FeedbackEvent::SelectPrev }),
    ensures
        s1.selected_item == 0 || s1.selected_item < s1.diagnostic_results.len(),
{
}

/// A key the interactive view reacts to.
#[derive(Debug, Clone, Copy, PartialEq, Eq, Structural)]
pub enum Key {
    Char(char),
    Esc,
    F(u8),
    Up,
    Down,
    Tab,
    BackTab,
    Enter,
    Other,
}

/// What a key press means, if anything: q or Esc quits, space pauses, r or
/// F5 resumes, d toggles the details, the arrows scroll, Tab and Shift-Tab
/// move the selection, Enter answers yes and n answers no.
pub open spec fn key_event(k: Key) -> Option<FeedbackEvent> {
    match k {
        Key::Char('q') | Key::Esc => Some(FeedbackEvent::Quit),
        Key::Char(' ') => Some(FeedbackEvent::Pause),
        Key::Char('r') | Key::F(5) => Some(FeedbackEvent::Resume),
        Key::Char('d') => Some(FeedbackEvent::ToggleDetails),
        Key::Up => Some(FeedbackEvent::ScrollUp),
        Key::Down => Some(FeedbackEvent::ScrollDown),
        Key::Tab => Some(FeedbackEvent::SelectNext),
        Key::BackTab => Some(FeedbackEvent::SelectPrev),
        Key::Enter => Some(FeedbackEvent::UserConfirmation(true)),
        Key::Char('n') => Some(FeedbackEvent::UserConfirmation(false)),
        _ => None,
    }
}

/// The event of a key press; whether it ends the input reader (quitting
/// does).
pub fn event_for_key(k: Key) -> (r: Option<FeedbackEvent>)
    ensures
        r == key_event(k),
{
    match k {
        Key::Char('q') | Key::Esc => Some(FeedbackEvent::Quit),
        Key::Char(' ') => Some(FeedbackEvent::Pause),
        Key::Char('r') | Key::F(5) => Some(FeedbackEvent::Resume),
        Key::Char('d') => Some(FeedbackEvent::ToggleDetails),
        Key::Up => Some(FeedbackEvent::ScrollUp),
        Key::Down => Some(FeedbackEvent::ScrollDown),
        Key::Tab => Some(FeedbackEvent::SelectNext),
        Key::BackTab => Some(FeedbackEvent::SelectPrev),
        Key::Enter => Some(FeedbackEvent::UserConfirmation(true)),
        Key::Char('n') => Some(FeedbackEvent::UserConfirmation(false)),
        _ => None,
    }
}

/// One line of the results list: the item's name and its message.
pub open spec fn result_line(r: DiagnosticResult) -> Seq<char> {
    r.item_name@ + ": "@ + r.message@
}

/// The results panel: a line per result, or a placeholder before any.
pub open spec fn results_panel(rs: Seq<DiagnosticResult>) -> Seq<char> {
    if rs.len() == 0 {
        "No results yet..."@
    } else {
        joined(rs.map_values(|r: DiagnosticResult| result_line(r)), "\n"@)
    }
}

/// The lines "name: message" of the results, in order.
pub fn result_lines(rs: &Vec<DiagnosticResult>) -> (v: Vec<String>)
    ensures
        strings_view(v@) == rs@.map_values(|r: DiagnosticResult| result_line(r)),
{
    let mut v: Vec<String> = Vec::new();
    let mut i: usize = 0;
    while i < rs.len()
        invariant
            i <= rs.len(),
            strings_view(v@) == rs@.subrange(0, i as int).map_values(|r: DiagnosticResult| result_line(r)),
        decreases rs.len() - i,
    {
        let line = concat3(rs[i].item_name.as_str(), ": ", rs[i].message.as_str());
        let ghost before = v@;
        let ghost l = line;
        v.push(line);
        proof {
            lemma_strings_push(before, l);
            assert(rs@.subrange(0, i + 1).map_values(|r: DiagnosticResult| result_line(r)) =~= rs@.subrange(
                0,
                i as int,
            ).map_values(|r: DiagnosticResult| result_line(r)).push(result_line(rs@[i as int])));
        }
        i = i + 1;
    }
    assert(rs@.subrange(0, rs.len() as int) =~= rs@);
    v
}

/// The text of the results panel.
pub fn results_panel_text(rs: &Vec<DiagnosticResult>) -> (t: String)
    ensures
        t@ == results_panel(rs@),
{
    if rs.len() == 0 {
        String::from_str("No results yet...")
    } else {
        let lines = result_lines(rs);
        join_strings(&lines, "\n")
    }
}

/// The footer line of the simple view: paused, some failure, progress, or
/// not yet started.
pub open spec fn footer_line(s: FeedbackState) -> Seq<char> {
    if s.is_paused {
        "Diagnostics paused... Press any key to continue"@
    } else if s.failed_items.len() > 0 {
        "Some diagnostics failed - check results above"@
    } else if s.completed_items.len() > 0 {
        "Diagnostics in progress..."@
    } else {
        "Starting diagnostics... Press Ctrl+C to interrupt"@
    }
}

/// The footer line of the simple view.
pub fn footer_text(s: &FeedbackState) -> (t: &'static str)
    ensures
        t@ == footer_line(*s),
{
    if s.is_paused {
        "Diagnostics paused... Press any key to continue"
    } else if s.failed_items.len() > 0 {
        "Some diagnostics failed - check results above"
    } else if s.completed_items.len() > 0 {
        "Diagnostics in progress..."
    } else {
        "Starting diagnostics... Press Ctrl+C to interrupt"
    }
}

/// The title of the full view: paused ("一時停止中") or running ("実行中").
pub fn header_title(paused: bool) -> (t: &'static str)
    ensures
        paused ==> t@ == "SSM接続診断 - 一時停止中"@,
        !paused ==> t@ == "SSM接続診断 - 実行中"@,
{
    if paused {
        "SSM接続診断 - 一時停止中"
    } else {
        "SSM接続診断 - 実行中"
    }
}

/// The key guide of the full view, which depends on whether the run is
/// paused.
pub fn key_guide(paused: bool) -> (t: &'static str)
    ensures
        paused ==> t@ == "一時停止中 - Spaceで再開, qで終了, dで詳細表示切替"@,
        !paused ==> t@ == "実行中 - Spaceで一時停止, qで終了, dで詳細表示切替, ↑↓でスクロール"@,
{
    if paused {
        "一時停止中 - Spaceで再開, qで終了, dで詳細表示切替"
    } else {
        "実行中 - Spaceで一時停止, qで終了, dで詳細表示切替, ↑↓でスクロール"
    }
}

/// The tag after an item's name in the detailed list, by severity
/// (critical, high, medium, low; none for information).
pub fn severity_tag(s: Severity) -> (t: &'static str)
    ensures
        s == Severity::Critical ==> t@ == " [重大]"@,
        s == Severity::High ==> t@ == " [高]"@,
        s == Severity::Medium ==> t@ == " [中]"@,
        s == Severity::Low ==> t@ == " [低]"@,
        s == Severity::Info ==> t@ == ""@,
{
    match s {
        Severity::Critical => " [重大]",
        Severity::High => " [高]",
        Severity::Medium => " [中]",
        Severity::Low => " [低]",
        Severity::Info => "",
    }
}

/// Whether the detailed list is shown: the settings allow it and the user
/// asked for it.
pub fn shows_detailed_list(config: &FeedbackDisplayConfig, s: &FeedbackState) -> (b: bool)
    ensures
        b == (config.show_item_details && s.show_details),
{
    config.show_item_details && s.show_details
}

/// The line of answers under a question.
pub fn options_line(c: &ConfirmationRequest) -> (t: String)
    ensures
        t@ == "選択肢: "@ + joined(strings_view(c.options@), " / "@) + " | Enterで続行, nで中止"@,
{
    let opts = join_strings(&c.options, " / ");
    concat3("選択肢: ", opts.as_str(), " | Enterで続行, nで中止")
}

} // verus!
