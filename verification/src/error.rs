//! The error type of the tool, its texts, and how errors are classified:
//! which are recoverable and how severe each is.

use crate::text::{concat2, decimal, decimal_string};
use vstd::prelude::*;

verus! {

/// Main error type.
#[derive(Debug, Clone)]
pub enum NimbusError {
    Config(ConfigError),
    Aws(AwsError),
    Session(SessionError),
    Connection(ConnectionError),
    Resource(ResourceError),
    Ui(UiError),
    VsCode(VsCodeError),
    Io(String),
    Json(String),
    Toml(String),
    Database(String),
    Anyhow(String),
    System(String),
}

/// Configuration errors. No kind of it is defined: the field is private and the
/// crate never builds one, so no value of it exists. (Verus takes no enum
/// without variants, hence the struct.)
#[derive(Debug, Clone)]
pub struct ConfigError {
    _none: bool,
}

/// AWS errors.
#[derive(Debug, Clone)]
pub enum AwsError {
    AuthenticationFailed { message: String },
    SsmServiceError { message: String },
    Ec2ServiceError { message: String },
    Timeout { operation: String },
}

/// Session management errors.
#[derive(Debug, Clone)]
pub enum SessionError {
    NotFound { session_id: String },
    CreationFailed { reason: String },
    LimitExceeded { max_sessions: u32 },
}

/// Connection errors.
#[derive(Debug, Clone)]
pub enum ConnectionError {
    PreventiveCheckFailed { reason: String, issues: Vec<String> },
}

/// Resource errors. No kind of it is defined: the field is private and the
/// crate never builds one, so no value of it exists. (Verus takes no enum
/// without variants, hence the struct.)
#[derive(Debug, Clone)]
pub struct ResourceError {
    _none: bool,
}

/// UI errors. No kind of it is defined: the field is private and the
/// crate never builds one, so no value of it exists. (Verus takes no enum
/// without variants, hence the struct.)
#[derive(Debug, Clone)]
pub struct UiError {
    _none: bool,
}

/// VS Code integration errors.
#[derive(Debug, Clone)]
pub enum VsCodeError {
    NotFound { message: String },
    LaunchFailed { message: String },
    ConfigurationError { message: String },
}

/// Severity of an error.
#[derive(Debug, Clone, Copy, PartialEq, Eq, Structural)]
pub enum ErrorSeverity {
    Low,
    Medium,
    High,
}

/// The text of an AWS error.
pub open spec fn aws_error_text(e: AwsError) -> Seq<char> {
    match e {
        AwsError::AuthenticationFailed { message } => "Authentication failed: "@ + message@,
        AwsError::SsmServiceError { message } => "SSM service error: "@ + message@,
        AwsError::Ec2ServiceError { message } => "EC2 service error: "@ + message@,
        AwsError::Timeout { operation } => "Timeout: "@ + operation@,
    }
}

/// The text of a session error.
pub open spec fn session_error_text(e: SessionError) -> Seq<char> {
    match e {
        SessionError::NotFound { session_id } => "Session not found: "@ + session_id@,
        SessionError::CreationFailed { reason } => "Session creation failed: "@ + reason@,
        SessionError::LimitExceeded { max_sessions } => "Session limit exceeded: max "@ + decimal(
            max_sessions as nat,
        ),
    }
}

/// The text of a connection error (the list of issues is not shown).
pub open spec fn connection_error_text(e: ConnectionError) -> Seq<char> {
    match e {
        ConnectionError::PreventiveCheckFailed { reason, .. } => "Preventive check failed: "@
            + reason@,
    }
}

/// The text of a VS Code error.
pub open spec fn vscode_error_text(e: VsCodeError) -> Seq<char> {
    match e {
        VsCodeError::NotFound { message } => "VS Code not found: "@ + message@,
        VsCodeError::LaunchFailed { message } => "VS Code launch failed: "@ + message@,
        VsCodeError::ConfigurationError { message } => "Configuration error: "@ + message@,
    }
}

/// The text of an error, as its `Display` renders it.
pub open spec fn error_text(e: NimbusError) -> Seq<char> {
    match e {
        NimbusError::Config(_) => "Configuration error: "@,
        NimbusError::Aws(a) => "AWS error: "@ + aws_error_text(a),
        NimbusError::Session(s) => "Session error: "@ + session_error_text(s),
        NimbusError::Connection(c) => "Connection error: "@ + connection_error_text(c),
        NimbusError::Resource(_) => "Resource error: "@,
        NimbusError::Ui(_) => "UI error: "@,
        NimbusError::VsCode(v) => "VS Code integration error: "@ + vscode_error_text(v),
        NimbusError::Io(s) => "IO error: "@ + s@,
        NimbusError::Json(s) => "JSON error: "@ + s@,
        NimbusError::Toml(s) => "TOML error: "@ + s@,
        NimbusError::Database(s) => "Database error: "@ + s@,
        NimbusError::Anyhow(s) => "Anyhow error: "@ + s@,
        NimbusError::System(s) => "System error: "@ + s@,
    }
}

/// Whether recovery is worth attempting: a failed preventive check, a
/// failed session creation, or an I/O error.
pub open spec fn recoverable(e: NimbusError) -> bool {
    match e {
        NimbusError::Connection(ConnectionError::PreventiveCheckFailed { .. }) => true,
        NimbusError::Session(SessionError::CreationFailed { .. }) => true,
        NimbusError::Io(_) => true,
        _ => false,
    }
}

/// How severe an error is.
pub open spec fn error_severity(e: NimbusError) -> ErrorSeverity {
    match e {
        NimbusError::Config(_) => ErrorSeverity::High,
        NimbusError::Aws(AwsError::AuthenticationFailed { .. }) => ErrorSeverity::High,
        NimbusError::Resource(_) => ErrorSeverity::High,
        NimbusError::Connection(_) => ErrorSeverity::Medium,
        NimbusError::Session(_) => ErrorSeverity::Medium,
        NimbusError::Ui(_) => ErrorSeverity::Low,
        _ => ErrorSeverity::Medium,
    }
}

/// The message shown to the user for an error.
pub open spec fn user_message_text(e: NimbusError) -> Seq<char> {
    match e {
        NimbusError::Aws(AwsError::AuthenticationFailed { .. }) =>
            "AWS認証に失敗しました。AWS認証情報を確認してください。"@,
        NimbusError::Session(SessionError::LimitExceeded { max_sessions }) =>
            "セッション数の上限に達しました（最大"@ + decimal(max_sessions as nat) + "セッション）。"@,
        NimbusError::VsCode(VsCodeError::NotFound { .. }) =>
            "VS Codeが見つかりません。VS Codeをインストールするか、設定でパスを指定してください。"@,
        NimbusError::VsCode(VsCodeError::LaunchFailed { .. }) =>
            "VS Codeの起動に失敗しました。VS Codeが正しくインストールされているか確認してください。"@,
        _ => error_text(e),
    }
}

fn aws_text(e: &AwsError) -> (s: String)
    ensures
        s@ == aws_error_text(*e),
{
    match e {
        AwsError::AuthenticationFailed { message } => concat2(
            "Authentication failed: ",
            message.as_str(),
        ),
        AwsError::SsmServiceError { message } => concat2("SSM service error: ", message.as_str()),
        AwsError::Ec2ServiceError { message } => concat2("EC2 service error: ", message.as_str()),
        AwsError::Timeout { operation } => concat2("Timeout: ", operation.as_str()),
    }
}

fn session_text(e: &SessionError) -> (s: String)
    ensures
        s@ == session_error_text(*e),
{
    match e {
        SessionError::NotFound { session_id } => concat2(
            "Session not found: ",
            session_id.as_str(),
        ),
        SessionError::CreationFailed { reason } => concat2(
            "Session creation failed: ",
            reason.as_str(),
        ),
        SessionError::LimitExceeded { max_sessions } => {
            let n = decimal_string(*max_sessions as u64);
            concat2("Session limit exceeded: max ", n.as_str())
        },
    }
}

fn connection_text(e: &ConnectionError) -> (s: String)
    ensures
        s@ == connection_error_text(*e),
{
    match e {
        ConnectionError::PreventiveCheckFailed { reason, .. } => concat2(
            "Preventive check failed: ",
            reason.as_str(),
        ),
    }
}

fn vscode_text(e: &VsCodeError) -> (s: String)
    ensures
        s@ == vscode_error_text(*e),
{
    match e {
        VsCodeError::NotFound { message } => concat2("VS Code not found: ", message.as_str()),
        VsCodeError::LaunchFailed { message } => concat2(
            "VS Code launch failed: ",
            message.as_str(),
        ),
        VsCodeError::ConfigurationError { message } => concat2(
            "Configuration error: ",
            message.as_str(),
        ),
    }
}

impl NimbusError {
    /// The text of the error, as its `Display` renders it.
    pub fn display_text(&self) -> (s: String)
        ensures
            s@ == error_text(*self),
    {
        match self {
            NimbusError::Config(_) => String::from_str("Configuration error: "),
            NimbusError::Aws(a) => {
                let t = aws_text(a);
                concat2("AWS error: ", t.as_str())
            },
            NimbusError::Session(se) => {
                let t = session_text(se);
                concat2("Session error: ", t.as_str())
            },
            NimbusError::Connection(c) => {
                let t = connection_text(c);
                concat2("Connection error: ", t.as_str())
            },
            NimbusError::Resource(_) => String::from_str("Resource error: "),
            NimbusError::Ui(_) => String::from_str("UI error: "),
            NimbusError::VsCode(v) => {
                let t = vscode_text(v);
                concat2("VS Code integration error: ", t.as_str())
            },
            NimbusError::Io(m) => concat2("IO error: ", m.as_str()),
            NimbusError::Json(m) => concat2("JSON error: ", m.as_str()),
            NimbusError::Toml(m) => concat2("TOML error: ", m.as_str()),
            NimbusError::Database(m) => concat2("Database error: ", m.as_str()),
            NimbusError::Anyhow(m) => concat2("Anyhow error: ", m.as_str()),
            NimbusError::System(m) => concat2("System error: ", m.as_str()),
        }
    }

    /// Whether recovery is worth attempting.
    pub fn is_recoverable(&self) -> (b: bool)
        ensures
            b == recoverable(*self),
    {
        match self {
            NimbusError::Connection(ConnectionError::PreventiveCheckFailed { .. }) => true,
            NimbusError::Session(SessionError::CreationFailed { .. }) => true,
            NimbusError::Io(_) => true,
            _ => false,
        }
    }

    /// How severe the error is.
    pub fn severity(&self) -> (s: ErrorSeverity)
        ensures
            s == error_severity(*self),
    {
        match self {
            NimbusError::Config(_) => ErrorSeverity::High,
            NimbusError::Aws(AwsError::AuthenticationFailed { .. }) => ErrorSeverity::High,
            NimbusError::Resource(_) => ErrorSeverity::High,
            NimbusError::Connection(_) => ErrorSeverity::Medium,
            NimbusError::Session(_) => ErrorSeverity::Medium,
            NimbusError::Ui(_) => ErrorSeverity::Low,
            _ => ErrorSeverity::Medium,
        }
    }

    /// The message shown to the user.
    pub fn user_message(&self) -> (s: String)
        ensures
            s@ == user_message_text(*self),
    {
        match self {
            NimbusError::Aws(AwsError::AuthenticationFailed { .. }) => String::from_str(
                "AWS認証に失敗しました。AWS認証情報を確認してください。",
            ),
            NimbusError::Session(SessionError::LimitExceeded { max_sessions }) => {
                let n = decimal_string(*max_sessions as u64);
                let mut s = concat2("セッション数の上限に達しました（最大", n.as_str());
                s.append("セッション）。");
                s
            },
            NimbusError::VsCode(VsCodeError::NotFound { .. }) => String::from_str(
                "VS Codeが見つかりません。VS Codeをインストールするか、設定でパスを指定してください。",
            ),
            NimbusError::VsCode(VsCodeError::LaunchFailed { .. }) => String::from_str(
                "VS Codeの起動に失敗しました。VS Codeが正しくインストールされているか確認してください。",
            ),
            _ => self.display_text(),
        }
    }
}

impl ErrorSeverity {
    /// The name of the severity in capitals.
    pub fn as_str(&self) -> (s: &'static str)
        ensures
            s@ == match *self {
                ErrorSeverity::Low => "LOW"@,
                ErrorSeverity::Medium => "MEDIUM"@,
                ErrorSeverity::High => "HIGH"@,
            },
    {
        match self {
            ErrorSeverity::Low => "LOW",
            ErrorSeverity::Medium => "MEDIUM",
            ErrorSeverity::High => "HIGH",
        }
    }
}

/// Law: every recoverable error is of medium severity (a failed preventive
/// check, a failed session creation and an I/O error are all medium).
pub proof fn lemma_recoverable_errors_are_medium(e: NimbusError)
    requires
        recoverable(e),
    ensures
        error_severity(e) == ErrorSeverity::Medium,
{
}

/// Law: only three errors are worth recovering from: a connection refused
/// by the preventive checks, a session that could not be created, and an
/// I/O error. Configuration, resource and AWS authentication errors are of
/// high severity, UI errors of low severity, and every other error of
/// medium severity.
pub proof fn lemma_error_classification(e: NimbusError)
    ensures
        recoverable(e) <==> (e matches NimbusError::Connection(ConnectionError::PreventiveCheckFailed { .. })
            || e matches NimbusError::Session(SessionError::CreationFailed { .. }) || e is Io),
        (e is Config || e is Resource || e matches NimbusError::Aws(AwsError::AuthenticationFailed { .. }))
            ==> error_severity(e) == ErrorSeverity::High,
        e is Ui ==> error_severity(e) == ErrorSeverity::Low,
        !(e is Config || e is Resource || e is Ui || e matches NimbusError::Aws(
            AwsError::AuthenticationFailed { .. },
        )) ==> error_severity(e) == ErrorSeverity::Medium,
{
}

} // verus!
