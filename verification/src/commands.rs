//! The subcommands of the tool and the decisions their handlers make: how a
//! settings command changes the diagnostic settings, how the environment
//! variable help is grouped, where a generated configuration file goes, how
//! a session priority is read, and how a failed command is recovered.

use crate::config::{path_from_string, DiagnosticSettings};
use crate::error::{recoverable, NimbusError};
use crate::text::{concat3, contains, str_contains, str_eq, strings_view, to_ascii_lower, ascii_lower};
use std::path::PathBuf;
use vstd::prelude::*;

verus! {

/// Configuration subcommands.
#[derive(Debug)]
pub enum ConfigCommands {
    /// Validate the current configuration.
    Validate,
    /// Show the current configuration.
    Show,
    /// Write an example configuration file.
    Generate { output: Option<String>, format: String },
    /// Show the environment variables.
    EnvHelp,
    /// Show the configuration after the environment overrides.
    Test,
}

/// VS Code integration subcommands.
#[derive(Debug)]
pub enum VsCodeCommands {
    Status,
    Test { session_id: Option<String> },
    Setup,
    Cleanup { session_id: Option<String> },
}

/// Diagnostic settings subcommands.
#[derive(Debug)]
pub enum DiagnosticSettingsCommands {
    Show,
    Enable { check_name: String },
    Disable { check_name: String },
    AutoFix { enable: bool, safe_only: bool },
    Parallel { enable: bool },
    Timeout { seconds: u64 },
    Format { format: String },
    Reset,
}

/// Database subcommands.
#[derive(Debug)]
pub enum DatabaseCommands {
    Init,
    Info,
    Sessions,
    Stats { session_id: Option<String> },
    Cleanup { days: u32 },
    Export { output: String, format: String },
}

// ---------------------------------------------------------------------------
// Diagnostic settings commands
// ---------------------------------------------------------------------------

/// The position of the first occurrence of `c` in `cs` (`cs.len()` when it
/// does not occur).
pub open spec fn first_index(cs: Seq<Seq<char>>, c: Seq<char>) -> int
    decreases cs.len(),
{
    if cs.len() == 0 {
        0
    } else if cs[0] == c {
        0
    } else {
        1 + first_index(cs.drop_first(), c)
    }
}

/// The checks after enabling one: appended unless already there.
pub open spec fn enable_check(cs: Seq<Seq<char>>, c: Seq<char>) -> Seq<Seq<char>> {
    if cs.contains(c) {
        cs
    } else {
        cs.push(c)
    }
}

/// The checks after disabling one: its first occurrence removed, if any.
pub open spec fn disable_check(cs: Seq<Seq<char>>, c: Seq<char>) -> Seq<Seq<char>> {
    if cs.contains(c) {
        cs.remove(first_index(cs, c))
    } else {
        cs
    }
}

/// The report formats the settings accept.
pub open spec fn is_report_format(f: Seq<char>) -> bool {
    f == "text"@ || f == "json"@ || f == "yaml"@
}

proof fn lemma_first_index(cs: Seq<Seq<char>>, c: Seq<char>)
    ensures
        0 <= first_index(cs, c) <= cs.len(),
        forall|j: int| 0 <= j < first_index(cs, c) ==> cs[j] != c,
        cs.contains(c) ==> first_index(cs, c) < cs.len() && cs[first_index(cs, c)] == c,
        !cs.contains(c) ==> first_index(cs, c) == cs.len(),
    decreases cs.len(),
{
    if cs.len() > 0 && cs[0] != c {
        let t = cs.drop_first();
        lemma_first_index(t, c);
        assert forall|j: int| 0 <= j < first_index(cs, c) implies cs[j] != c by {
            if j > 0 {
                assert(cs[j] == t[j - 1]);
            }
        }
        if cs.contains(c) {
            let k = choose|k: int| 0 <= k < cs.len() && cs[k] == c;
            assert(t[k - 1] == c);
            assert(t.contains(c));
        }
        if t.contains(c) {
            let k = choose|k: int| 0 <= k < t.len() && t[k] == c;
            assert(cs[k + 1] == c);
        }
    }
}

proof fn lemma_first_index_unique(cs: Seq<Seq<char>>, c: Seq<char>, p: int)
    requires
        0 <= p < cs.len(),
        cs[p] == c,
        forall|j: int| 0 <= j < p ==> cs[j] != c,
    ensures
        first_index(cs, c) == p,
{
    lemma_first_index(cs, c);
    assert(cs.contains(c));
}

/// What a settings command did.
#[derive(Debug, Clone, Copy, PartialEq, Eq, Structural)]
pub enum SettingsOutcome {
    Shown,
    Enabled,
    AlreadyEnabled,
    Disabled,
    NotEnabled,
    AutoFixUpdated,
    ParallelUpdated,
    TimeoutUpdated,
    FormatUpdated,
    InvalidFormat,
    Reset,
}

/// Whether the settings changed and must be saved.
pub open spec fn outcome_saves(o: SettingsOutcome) -> bool {
    match o {
        SettingsOutcome::Shown => false,
        SettingsOutcome::AlreadyEnabled => false,
        SettingsOutcome::NotEnabled => false,
        SettingsOutcome::InvalidFormat => false,
        _ => true,
    }
}

/// Whether an outcome asks for the settings to be saved.
pub fn needs_save(o: SettingsOutcome) -> (b: bool)
    ensures
        b == outcome_saves(o),
{
    match o {
        SettingsOutcome::Shown => false,
        SettingsOutcome::AlreadyEnabled => false,
        SettingsOutcome::NotEnabled => false,
        SettingsOutcome::InvalidFormat => false,
        _ => true,
    }
}

/// Two settings agree on everything but the enabled checks.
pub open spec fn same_but_checks(a: DiagnosticSettings, b: DiagnosticSettings) -> bool {
    DiagnosticSettings { enabled_checks: a.enabled_checks, ..b } == a
}

/// What a settings command does to the settings, and what it reports.
pub open spec fn settings_command_effect(
    cmd: DiagnosticSettingsCommands,
    s0: DiagnosticSettings,
    s1: DiagnosticSettings,
    o: SettingsOutcome,
) -> bool {
    let cs = strings_view(s0.enabled_checks@);
    match cmd {
        DiagnosticSettingsCommands::Show => o == SettingsOutcome::Shown && s1 == s0,
        DiagnosticSettingsCommands::Enable { check_name } => {
            &&& same_but_checks(s0, s1)
            &&& strings_view(s1.enabled_checks@) == enable_check(cs, check_name@)
            &&& o == if cs.contains(check_name@) {
                SettingsOutcome::AlreadyEnabled
            } else {
                SettingsOutcome::Enabled
            }
        },
        DiagnosticSettingsCommands::Disable { check_name } => {
            &&& same_but_checks(s0, s1)
            &&& strings_view(s1.enabled_checks@) == disable_check(cs, check_name@)
            &&& o == if cs.contains(check_name@) {
                SettingsOutcome::Disabled
            } else {
                SettingsOutcome::NotEnabled
            }
        },
        DiagnosticSettingsCommands::AutoFix { enable, safe_only } => {
            &&& s1 == DiagnosticSettings { auto_fix_enabled: enable, safe_auto_fix_only: safe_only, ..s0 }
            &&& o == SettingsOutcome::AutoFixUpdated
        },
        DiagnosticSettingsCommands::Parallel { enable } => {
            &&& s1 == DiagnosticSettings { parallel_execution: enable, ..s0 }
            &&& o == SettingsOutcome::ParallelUpdated
        },
        DiagnosticSettingsCommands::Timeout { seconds } => {
            &&& s1 == DiagnosticSettings { timeout_seconds: seconds, ..s0 }
            &&& o == SettingsOutcome::TimeoutUpdated
        },
        DiagnosticSettingsCommands::Format { format } => {
            if is_report_format(format@) {
                &&& DiagnosticSettings { report_format: s0.report_format, ..s1 } == s0
                &&& s1.report_format@ == format@
                &&& o == SettingsOutcome::FormatUpdated
            } else {
                s1 == s0 && o == SettingsOutcome::InvalidFormat
            }
        },
        DiagnosticSettingsCommands::Reset => {
            &&& o == SettingsOutcome::Reset
            &&& s1.enabled
            &&& strings_view(s1.enabled_checks@) == crate::config::default_checks()
            &&& !s1.auto_fix_enabled
            &&& s1.safe_auto_fix_only
            &&& s1.parallel_execution
            &&& s1.timeout_seconds == 30
            &&& s1.port_scan_range == 10
            &&& s1.report_format@ == "text"@
            &&& exists|data: Option<PathBuf>, home: Option<PathBuf>|
                s1.output_directory@ == crate::config::path_text(
                    #[trigger] crate::config::reports_dir(data, home),
                )
            &&& s1.realtime_feedback
            &&& s1.feedback_refresh_interval_ms == 100
            &&& s1.enable_colors
            &&& !s1.auto_confirm_critical
        },
    }
}

/// Whether a list of strings holds a string with the given characters.
pub fn holds_string(v: &Vec<String>, s: &str) -> (r: bool)
    ensures
        r == strings_view(v@).contains(s@),
{
    let mut i: usize = 0;
    while i < v.len()
        invariant
            i <= v.len(),
            forall|j: int| 0 <= j < i ==> strings_view(v@)[j] != s@,
        decreases v.len() - i,
    {
        if str_eq(v[i].as_str(), s) {
            assert(strings_view(v@)[i as int] == s@);
            return true;
        }
        i = i + 1;
    }
    false
}

/// The position of the first string with the given characters, if any.
pub fn position_of(v: &Vec<String>, s: &str) -> (r: Option<usize>)
    ensures
        match r {
            Some(p) => strings_view(v@).contains(s@) && p < v@.len() && p as int == first_index(
                strings_view(v@),
                s@,
            ),
            None => !strings_view(v@).contains(s@),
        },
{
    let ghost cs = strings_view(v@);
    let mut i: usize = 0;
    while i < v.len()
        invariant
            i <= v.len(),
            cs == strings_view(v@),
            forall|j: int| 0 <= j < i ==> cs[j] != s@,
        decreases v.len() - i,
    {
        if str_eq(v[i].as_str(), s) {
            proof {
                lemma_first_index_unique(cs, s@, i as int);
                assert(cs[i as int] == s@);
            }
            return Some(i);
        }
        i = i + 1;
    }
    None
}

/// Whether the settings accept `format` as a report format: text, json or
/// yaml.
pub fn is_valid_report_format(format: &str) -> (b: bool)
    ensures
        b == is_report_format(format@),
{
    str_eq(format, "text") || str_eq(format, "json") || str_eq(format, "yaml")
}

/// Applies a diagnostic settings command to the settings.
pub fn apply_settings_command(settings: &mut DiagnosticSettings, cmd: DiagnosticSettingsCommands) -> (o: SettingsOutcome)
    ensures
        settings_command_effect(cmd, *old(settings), *final(settings), o),
{
    match cmd {
        DiagnosticSettingsCommands::Show => SettingsOutcome::Shown,
        DiagnosticSettingsCommands::Enable { check_name } => {
            if holds_string(&settings.enabled_checks, check_name.as_str()) {
                SettingsOutcome::AlreadyEnabled
            } else {
                let ghost before = settings.enabled_checks@;
                let ghost c = check_name;
                settings.enabled_checks.push(check_name);
                assert(strings_view(settings.enabled_checks@) =~= strings_view(before).push(c@));
                SettingsOutcome::Enabled
            }
        },
        DiagnosticSettingsCommands::Disable { check_name } => {
            match position_of(&settings.enabled_checks, check_name.as_str()) {
                Some(p) => {
                    let ghost before = settings.enabled_checks@;
                    let _removed = settings.enabled_checks.remove(p);
                    assert(strings_view(settings.enabled_checks@) =~= strings_view(before).remove(
                        p as int,
                    ));
                    SettingsOutcome::Disabled
                },
                None => SettingsOutcome::NotEnabled,
            }
        },
        DiagnosticSettingsCommands::AutoFix { enable, safe_only } => {
            settings.auto_fix_enabled = enable;
            settings.safe_auto_fix_only = safe_only;
            SettingsOutcome::AutoFixUpdated
        },
        DiagnosticSettingsCommands::Parallel { enable } => {
            settings.parallel_execution = enable;
            SettingsOutcome::ParallelUpdated
        },
        DiagnosticSettingsCommands::Timeout { seconds } => {
            settings.timeout_seconds = seconds;
            SettingsOutcome::TimeoutUpdated
        },
        DiagnosticSettingsCommands::Format { format } => {
            if is_valid_report_format(format.as_str()) {
                settings.report_format = format;
                SettingsOutcome::FormatUpdated
            } else {
                SettingsOutcome::InvalidFormat
            }
        },
        DiagnosticSettingsCommands::Reset => {
            *settings = DiagnosticSettings::default();
            SettingsOutcome::Reset
        },
    }
}

/// The error of a report format the settings do not accept.
pub fn invalid_format_message(format: &str) -> (m: String)
    ensures
        m@ == "Invalid format '"@ + format@ + "'"@,
{
    concat3("Invalid format '", format, "'")
}

/// Law: enabling a check twice does what enabling it once does.
pub proof fn lemma_enable_idempotent(cs: Seq<Seq<char>>, c: Seq<char>)
    ensures
        enable_check(enable_check(cs, c), c) == enable_check(cs, c),
{
    if !cs.contains(c) {
        assert(cs.push(c)[cs.len() as int] == c);
    }
}

/// Law: enabling a check that was not enabled and then disabling it gives
/// back the checks one started from.
pub proof fn lemma_enable_then_disable(cs: Seq<Seq<char>>, c: Seq<char>)
    requires
        !cs.contains(c),
    ensures
        disable_check(enable_check(cs, c), c) == cs,
{
    let e = cs.push(c);
    assert(e[cs.len() as int] == c);
    lemma_first_index(e, c);
    assert forall|j: int| 0 <= j < cs.len() implies e[j] != c by {
        assert(e[j] == cs[j]);
    }
    lemma_first_index_unique(e, c, cs.len() as int);
    assert(e.remove(cs.len() as int) =~= cs);
}

/// Law: enabling keeps the checks free of repeats; disabling a check from
/// such a list leaves none of it.
pub proof fn lemma_checks_stay_distinct(cs: Seq<Seq<char>>, c: Seq<char>)
    requires
        cs.no_duplicates(),
    ensures
        enable_check(cs, c).no_duplicates(),
        disable_check(cs, c).no_duplicates(),
        !disable_check(cs, c).contains(c),
{
    lemma_first_index(cs, c);
    if !cs.contains(c) {
        let e = cs.push(c);
        assert forall|i: int, j: int| 0 <= i < e.len() && 0 <= j < e.len() && i != j implies e[i]
            != e[j] by {
            if i < cs.len() && j < cs.len() {
                assert(e[i] == cs[i] && e[j] == cs[j]);
            } else if i < cs.len() {
                assert(e[i] == cs[i]);
            } else if j < cs.len() {
                assert(e[j] == cs[j]);
            }
        }
    } else {
        let p = first_index(cs, c);
        let d = cs.remove(p);
        assert forall|i: int, j: int| 0 <= i < d.len() && 0 <= j < d.len() && i != j implies d[i]
            != d[j] by {
            let oi = if i < p { i } else { i + 1 };
            let oj = if j < p { j } else { j + 1 };
            assert(d[i] == cs[oi] && d[j] == cs[oj]);
        }
        if d.contains(c) {
            let k = choose|k: int| 0 <= k < d.len() && d[k] == c;
            let ok = if k < p { k } else { k + 1 };
            assert(d[k] == cs[ok]);
            assert(cs[p] == c);
        }
    }
}

// ---------------------------------------------------------------------------
// Environment variable help
// ---------------------------------------------------------------------------

/// The group an environment variable is listed under.
#[derive(Debug, Clone, Copy, PartialEq, Eq, Structural)]
pub enum EnvCategory {
    Aws,
    Reconnection,
    Session,
    Performance,
    Resources,
    Interface,
    Logging,
    Other,
}

/// The group of a variable, decided by the words its name holds, in this
/// order.
pub open spec fn env_category_of(name: Seq<char>) -> EnvCategory {
    if contains(name, "AWS"@) {
        EnvCategory::Aws
    } else if contains(name, "RECONNECTION"@) || contains(name, "AGGRESSIVE"@) {
        EnvCategory::Reconnection
    } else if contains(name, "SESSION"@) || contains(name, "HEALTH"@) || contains(name, "INACTIVE"@) {
        EnvCategory::Session
    } else if contains(name, "PERFORMANCE"@) || contains(name, "LATENCY"@) || contains(
        name,
        "OPTIMIZATION"@,
    ) {
        EnvCategory::Performance
    } else if contains(name, "MEMORY"@) || contains(name, "CPU"@) || contains(name, "POWER"@) {
        EnvCategory::Resources
    } else if contains(name, "UI"@) || contains(name, "RICH"@) || contains(name, "NOTIFICATIONS"@) {
        EnvCategory::Interface
    } else if contains(name, "LOG"@) {
        EnvCategory::Logging
    } else {
        EnvCategory::Other
    }
}

/// The group of a variable.
pub fn env_category(name: &str) -> (c: EnvCategory)
    ensures
        c == env_category_of(name@),
{
    if str_contains(name, "AWS") {
        EnvCategory::Aws
    } else if str_contains(name, "RECONNECTION") || str_contains(name, "AGGRESSIVE") {
        EnvCategory::Reconnection
    } else if str_contains(name, "SESSION") || str_contains(name, "HEALTH") || str_contains(
        name,
        "INACTIVE",
    ) {
        EnvCategory::Session
    } else if str_contains(name, "PERFORMANCE") || str_contains(name, "LATENCY") || str_contains(
        name,
        "OPTIMIZATION",
    ) {
        EnvCategory::Performance
    } else if str_contains(name, "MEMORY") || str_contains(name, "CPU") || str_contains(
        name,
        "POWER",
    ) {
        EnvCategory::Resources
    } else if str_contains(name, "UI") || str_contains(name, "RICH") || str_contains(
        name,
        "NOTIFICATIONS",
    ) {
        EnvCategory::Interface
    } else if str_contains(name, "LOG") {
        EnvCategory::Logging
    } else {
        EnvCategory::Other
    }
}

/// The heading of a group.
pub fn env_category_label(c: EnvCategory) -> (t: &'static str)
    ensures
        c == EnvCategory::Aws ==> t@ == "AWS Configuration"@,
        c == EnvCategory::Reconnection ==> t@ == "Reconnection Policy"@,
        c == EnvCategory::Session ==> t@ == "Session Management"@,
        c == EnvCategory::Performance ==> t@ == "Performance Monitoring"@,
        c == EnvCategory::Resources ==> t@ == "Resource Limits"@,
        c == EnvCategory::Interface ==> t@ == "User Interface"@,
        c == EnvCategory::Logging ==> t@ == "Logging"@,
        c == EnvCategory::Other ==> t@ == "Other"@,
{
    match c {
        EnvCategory::Aws => "AWS Configuration",
        EnvCategory::Reconnection => "Reconnection Policy",
        EnvCategory::Session => "Session Management",
        EnvCategory::Performance => "Performance Monitoring",
        EnvCategory::Resources => "Resource Limits",
        EnvCategory::Interface => "User Interface",
        EnvCategory::Logging => "Logging",
        EnvCategory::Other => "Other",
    }
}

/// One line of the environment variable help: a variable, with the heading
/// of its group when the group starts there.
#[derive(Debug)]
pub struct EnvHelpLine {
    pub heading: Option<EnvCategory>,
    pub name: &'static str,
    pub description: &'static str,
}

/// The heading before the variable at `i` of a list: its group, when it is
/// the first or its group differs from the one before.
pub open spec fn heading_at(names: Seq<Seq<char>>, i: int) -> Option<EnvCategory> {
    if i == 0 || env_category_of(names[i]) != env_category_of(names[i - 1]) {
        Some(env_category_of(names[i]))
    } else {
        None
    }
}

/// Help lines for the given variables and their descriptions, in order,
/// with the group headings where a group starts.
pub fn env_help_listing(vars: &Vec<(&'static str, &'static str)>) -> (v: Vec<EnvHelpLine>)
    ensures
        v@.len() == vars@.len(),
        forall|i: int|
            0 <= i < v@.len() ==> {
                &&& (#[trigger] v@[i]).name@ == vars@[i].0@
                &&& v@[i].description@ == vars@[i].1@
                &&& v@[i].heading == heading_at(
                    vars@.map_values(|p: (&'static str, &'static str)| p.0@),
                    i,
                )
            },
{
    let ghost names = vars@.map_values(|p: (&'static str, &'static str)| p.0@);
    let mut v: Vec<EnvHelpLine> = Vec::new();
    let mut prev: Option<EnvCategory> = None;
    let mut i: usize = 0;
    while i < vars.len()
        invariant
            i <= vars.len(),
            v@.len() == i,
            names == vars@.map_values(|p: (&'static str, &'static str)| p.0@),
            i == 0 ==> prev is None,
            i > 0 ==> prev == Some(env_category_of(names[i - 1])),
            forall|k: int|
                0 <= k < i ==> {
                    &&& (#[trigger] v@[k]).name@ == vars@[k].0@
                    &&& v@[k].description@ == vars@[k].1@
                    &&& v@[k].heading == heading_at(names, k)
                },
        decreases vars.len() - i,
    {
        let (name, description) = vars[i];
        let c = env_category(name);
        assert(names[i as int] == name@);
        let heading = match prev {
            Some(p) => if p == c {
                None
            } else {
                Some(c)
            },
            None => Some(c),
        };
        v.push(EnvHelpLine { heading, name, description });
        prev = Some(c);
        i = i + 1;
    }
    v
}

// ---------------------------------------------------------------------------
// Generated configuration file
// ---------------------------------------------------------------------------

/// What `Path::extension` gives, as text (none when absent or not UTF-8).
pub uninterp spec fn extension_text(p: PathBuf) -> Option<Seq<char>>;

/// What `Path::with_extension` makes of a path and an extension.
pub uninterp spec fn with_extension_path(p: PathBuf, ext: Seq<char>) -> PathBuf;

/// `Path::extension` followed by `OsStr::to_str`; named by `extension_text`.
#[verifier::external_body]
fn path_extension(p: &PathBuf) -> (r: Option<String>)
    ensures
        opt_text_eq(r, extension_text(*p)),
{
    p.extension().and_then(|s| s.to_str()).map(|s| s.to_string())
}

/// `Path::with_extension`; named by `with_extension_path`. It panics on an
/// extension that holds a path separator, which the `requires` leaves out.
#[verifier::external_body]
fn path_with_extension(p: &PathBuf, ext: &str) -> (r: PathBuf)
    requires
        !ext@.contains('/'),
        !ext@.contains('\\'),
    ensures
        r == with_extension_path(*p, ext@),
{
    p.with_extension(ext)
}

/// An optional string has the given optional characters.
pub open spec fn opt_text_eq(r: Option<String>, t: Option<Seq<char>>) -> bool {
    match r {
        Some(s) => t == Some(s@),
        None => t is None,
    }
}

/// The extension a generated file must have: `toml` for that format, else
/// `json`.
pub open spec fn generated_extension(format: Seq<char>) -> Seq<char> {
    if format == "toml"@ {
        "toml"@
    } else {
        "json"@
    }
}

/// Where a generated configuration file is written: the path, with its
/// extension replaced when it is not the one the format asks for.
pub open spec fn generation_path(p: PathBuf, format: Seq<char>) -> PathBuf {
    if extension_text(p) == Some(generated_extension(format)) {
        p
    } else {
        with_extension_path(p, generated_extension(format))
    }
}

/// The path a configuration file of the given format is generated at.
pub fn generation_target(p: PathBuf, format: &str) -> (r: PathBuf)
    ensures
        r == generation_path(p, format@),
{
    let ext: &str = if str_eq(format, "toml") {
        "toml"
    } else {
        "json"
    };
    proof {
        reveal_strlit("toml");
        reveal_strlit("json");
    }
    let current = path_extension(&p);
    let keep = match &current {
        Some(e) => str_eq(e.as_str(), ext),
        None => false,
    };
    if keep {
        p
    } else {
        path_with_extension(&p, ext)
    }
}

/// The path a `config generate` command writes to: the given output, or
/// the default configuration path.
pub fn generate_command_path(output: Option<String>, default_path: PathBuf, format: &str) -> (r: PathBuf)
    ensures
        r == generation_path(
            match output {
                Some(o) => crate::config::path_from_text(o@),
                None => default_path,
            },
            format@,
        ),
{
    let base = match output {
        Some(o) => path_from_string(o),
        None => default_path,
    };
    generation_target(base, format)
}

// ---------------------------------------------------------------------------
// Session priority
// ---------------------------------------------------------------------------

/// The priority of a session.
#[derive(Debug, Clone, Copy, PartialEq, Eq, Structural)]
pub enum SessionPriority {
    Low,
    Normal,
    High,
    Critical,
}

/// The priority a text names, letters compared without case; anything else
/// is `Normal`.
pub open spec fn priority_named(text: Seq<char>) -> SessionPriority {
    let t = ascii_lower(text);
    if t == "low"@ {
        SessionPriority::Low
    } else if t == "normal"@ {
        SessionPriority::Normal
    } else if t == "high"@ {
        SessionPriority::High
    } else if t == "critical"@ {
        SessionPriority::Critical
    } else {
        SessionPriority::Normal
    }
}

/// Reads a session priority; an unknown name gives `Normal`.
pub fn parse_priority(text: &str) -> (p: SessionPriority)
    ensures
        p == priority_named(text@),
{
    let lower = to_ascii_lower(text);
    let t = lower.as_str();
    if str_eq(t, "low") {
        SessionPriority::Low
    } else if str_eq(t, "normal") {
        SessionPriority::Normal
    } else if str_eq(t, "high") {
        SessionPriority::High
    } else if str_eq(t, "critical") {
        SessionPriority::Critical
    } else {
        SessionPriority::Normal
    }
}

// ---------------------------------------------------------------------------
// Running a command with recovery
// ---------------------------------------------------------------------------

/// Where a command run under recovery stands.
#[derive(Debug, Clone, Copy, PartialEq, Eq, Structural)]
pub enum GuardPhase {
    /// The command runs for the first time.
    FirstRun,
    /// The first run failed with a recoverable error; recovery runs.
    Recovering,
    /// Recovery ran; the command runs a second time.
    Retrying,
    /// The outcome is known.
    Finished,
}

/// What the runner reports.
#[derive(Debug)]
pub enum GuardEvent {
    /// The command finished, with its outcome.
    CommandDone(Result<(), NimbusError>),
    /// Recovery finished, with its outcome (the command is retried
    /// whatever it was).
    RecoveryDone(Result<(), NimbusError>),
}

/// What the runner is to do next.
#[derive(Debug)]
pub enum GuardAction {
    /// Run the recovery for this error.
    Recover(NimbusError),
    /// Run the command again.
    RunAgain,
    /// The command succeeded.
    Succeed,
    /// The command failed with this error, which is reported to the user.
    Fail(NimbusError),
    /// The event does not belong to this phase; nothing changes.
    Ignore,
}

/// One step of a command run under recovery: a failed first run is
/// recovered when its error is recoverable, and once recovery has run the
/// command is retried once, its outcome final; any other failure is final.
pub open spec fn guard_step(p: GuardPhase, e: GuardEvent) -> (GuardPhase, GuardAction) {
    match (p, e) {
        (GuardPhase::FirstRun, GuardEvent::CommandDone(Ok(()))) => (GuardPhase::Finished, GuardAction::Succeed),
        (GuardPhase::FirstRun, GuardEvent::CommandDone(Err(err))) => if recoverable(err) {
            (GuardPhase::Recovering, GuardAction::Recover(err))
        } else {
            (GuardPhase::Finished, GuardAction::Fail(err))
        },
        (GuardPhase::Recovering, GuardEvent::RecoveryDone(_)) => (GuardPhase::Retrying, GuardAction::RunAgain),
        (GuardPhase::Retrying, GuardEvent::CommandDone(Ok(()))) => (GuardPhase::Finished, GuardAction::Succeed),
        (GuardPhase::Retrying, GuardEvent::CommandDone(Err(err))) => (GuardPhase::Finished, GuardAction::Fail(err)),
        (q, _) => (q, GuardAction::Ignore),
    }
}

/// The runs of the command that may still come after a phase.
pub open spec fn runs_left(p: GuardPhase) -> nat {
    match p {
        GuardPhase::FirstRun => 1,
        GuardPhase::Recovering => 1,
        GuardPhase::Retrying => 0,
        GuardPhase::Finished => 0,
    }
}

/// A command run under recovery.
#[derive(Debug)]
pub struct RecoveryGuard {
    pub phase: GuardPhase,
}

impl RecoveryGuard {
    /// A run whose command has just been started.
    pub fn new() -> (g: Self)
        ensures
            g.phase == GuardPhase::FirstRun,
    {
        RecoveryGuard { phase: GuardPhase::FirstRun }
    }

    /// Takes what the runner reports and says what to do next.
    pub fn step(&mut self, e: GuardEvent) -> (a: GuardAction)
        ensures
            (final(self).phase, a) == guard_step(old(self).phase, e),
    {
        match (self.phase, e) {
            (GuardPhase::FirstRun, GuardEvent::CommandDone(Ok(()))) => {
                self.phase = GuardPhase::Finished;
                GuardAction::Succeed
            },
            (GuardPhase::FirstRun, GuardEvent::CommandDone(Err(err))) => {
                if crate::error::NimbusError::is_recoverable(&err) {
                    self.phase = GuardPhase::Recovering;
                    GuardAction::Recover(err)
                } else {
                    self.phase = GuardPhase::Finished;
                    GuardAction::Fail(err)
                }
            },
            (GuardPhase::Recovering, GuardEvent::RecoveryDone(_)) => {
                self.phase = GuardPhase::Retrying;
                GuardAction::RunAgain
            },
            (GuardPhase::Retrying, GuardEvent::CommandDone(Ok(()))) => {
                self.phase = GuardPhase::Finished;
                GuardAction::Succeed
            },
            (GuardPhase::Retrying, GuardEvent::CommandDone(Err(err))) => {
                self.phase = GuardPhase::Finished;
                GuardAction::Fail(err)
            },
            (_, _) => GuardAction::Ignore,
        }
    }
}

/// Law: the command is run again at most once: a step that asks for another
/// run uses up the one run left, and no step adds runs.
pub proof fn lemma_guard_retries_once(p: GuardPhase, e: GuardEvent)
    ensures
        runs_left(guard_step(p, e).0) + (if guard_step(p, e).1 is RunAgain { 1nat } else { 0nat })
            <= runs_left(p),
{
}

/// Law: a command whose first run fails with a recoverable error is
/// recovered and then run exactly once more, whatever the recovery gave,
/// and the second run's outcome is the command's.
pub proof fn lemma_guard_recovers_then_retries_once(
    err: NimbusError,
    recovery: Result<(), NimbusError>,
    second: Result<(), NimbusError>,
)
    requires
        recoverable(err),
    ensures
        guard_step(GuardPhase::FirstRun, GuardEvent::CommandDone(Err(err))) == (
            GuardPhase::Recovering,
            GuardAction::Recover(err),
        ),
        guard_step(GuardPhase::Recovering, GuardEvent::RecoveryDone(recovery)) == (
            GuardPhase::Retrying,
            GuardAction::RunAgain,
        ),
        guard_step(GuardPhase::Retrying, GuardEvent::CommandDone(second)) == (
            GuardPhase::Finished,
            match second {
                Ok(()) => GuardAction::Succeed,
                Err(e) => GuardAction::Fail(e),
            },
        ),
        runs_left(GuardPhase::Retrying) == 0,
{
}

/// Law: an error that is not recoverable fails the command at once, with
/// that very error and without recovery.
pub proof fn lemma_guard_unrecoverable_fails(err: NimbusError)
    requires
        !recoverable(err),
    ensures
        guard_step(GuardPhase::FirstRun, GuardEvent::CommandDone(Err(err))) == (
            GuardPhase::Finished,
            GuardAction::Fail(err),
        ),
{
}

} // verus!
