//! The checks of the AWS configuration validation: exact scores, the
//! result of each check, the improvement suggestions drawn from them, and
//! the adjustments the integrated validation makes between dependent checks.

use crate::diagnostic::{DiagnosticResult, DiagnosticStatus, Severity};
use crate::json::json_empty_object;
use crate::text::{concat2, strings_view};
use crate::validator::{priority_rank, ComplianceStatus, SuggestionCategory, SuggestionPriority};
use vstd::prelude::*;

verus! {

/// The largest number of parts a score is divided into.
pub const MAX_PARTS: u64 = 1000000;

/// A score in percent, held exactly as the fraction `points / parts`.
#[derive(Debug, Clone, Copy, PartialEq, Eq, Structural)]
pub struct Score {
    pub points: u64,
    pub parts: u64,
}

impl Score {
    /// A score between 0 and 100 percent, over a positive number of parts.
    pub open spec fn wf(self) -> bool {
        &&& 1 <= self.parts <= MAX_PARTS
        &&& self.points <= 100 * self.parts
    }

    /// A whole number of percent, as a score.
    pub open spec fn whole_spec(p: u64) -> Score {
        Score { points: p, parts: 1 }
    }

    /// The score is below `t` percent.
    pub open spec fn below(self, t: int) -> bool {
        self.points < t * self.parts
    }

    /// The score kept at most 100 percent.
    pub open spec fn capped(self) -> Score {
        Score {
            points: if self.points > 100 * self.parts {
                (100 * self.parts) as u64
            } else {
                self.points
            },
            parts: self.parts,
        }
    }

    /// The score moved by `delta` percent and kept between 0 and 100.
    pub open spec fn shifted(self, delta: int) -> Score {
        let v = self.points + delta * self.parts;
        Score {
            points: (if v < 0 {
                0
            } else if v > 100 * self.parts {
                100 * self.parts
            } else {
                v
            }) as u64,
            parts: self.parts,
        }
    }

    /// A whole number of percent.
    pub fn whole(p: u64) -> (s: Score)
        requires
            p <= 100,
        ensures
            s == (Score { points: p, parts: 1 }),
            s.wf(),
    {
        Score { points: p, parts: 1 }
    }

    /// Whether the score is below `t` percent.
    pub fn is_below(&self, t: u64) -> (b: bool)
        requires
            t <= 100,
        ensures
            b == self.below(t as int),
    {
        let parts = self.parts as u128;
        let tt = t as u128;
        assert(tt * parts <= 100 * 0xffff_ffff_ffff_ffff) by (nonlinear_arith)
            requires
                tt <= 100,
                parts <= 0xffff_ffff_ffff_ffff,
        ;
        (self.points as u128) < tt * parts
    }

    /// The score moved by `delta` percent, kept between 0 and 100.
    pub fn shift(&self, delta: i64) -> (s: Score)
        requires
            self.wf(),
            -100 <= delta <= 100,
        ensures
            s == self.shifted(delta as int),
            s.wf(),
    {
        let parts = self.parts as i64;
        assert(-100 * MAX_PARTS <= delta * parts <= 100 * MAX_PARTS) by (nonlinear_arith)
            requires
                -100 <= delta <= 100,
                1 <= parts <= MAX_PARTS,
        ;
        let v: i64 = self.points as i64 + delta * parts;
        let top: i64 = 100 * parts;
        let points: u64 = if v < 0 {
            0
        } else if v > top {
            top as u64
        } else {
            v as u64
        };
        Score { points, parts: self.parts }
    }
}

/// The compliance level of a score: 90 percent and up is excellent, 75 good,
/// 60 fair, 40 poor, and below 40 critical.
pub open spec fn compliance_level(s: Score) -> ComplianceStatus {
    if !s.below(90) {
        ComplianceStatus::Excellent
    } else if !s.below(75) {
        ComplianceStatus::Good
    } else if !s.below(60) {
        ComplianceStatus::Fair
    } else if !s.below(40) {
        ComplianceStatus::Poor
    } else {
        ComplianceStatus::Critical
    }
}

impl ComplianceStatus {
    /// The compliance level of a score.
    pub fn from_score(score: Score) -> (c: ComplianceStatus)
        ensures
            c == compliance_level(score),
    {
        if !score.is_below(90) {
            ComplianceStatus::Excellent
        } else if !score.is_below(75) {
            ComplianceStatus::Good
        } else if !score.is_below(60) {
            ComplianceStatus::Fair
        } else if !score.is_below(40) {
            ComplianceStatus::Poor
        } else {
            ComplianceStatus::Critical
        }
    }
}

/// The area a validation check looks at.
#[derive(Debug, Clone, Copy, PartialEq, Eq, Structural)]
pub enum ValidationArea {
    Credentials,
    IamPermissions,
    VpcConfiguration,
    SecurityGroups,
}

/// The name of the check of an area.
pub open spec fn area_name(a: ValidationArea) -> Seq<char> {
    match a {
        ValidationArea::Credentials => "credentials"@,
        ValidationArea::IamPermissions => "iam_permissions"@,
        ValidationArea::VpcConfiguration => "vpc_configuration"@,
        ValidationArea::SecurityGroups => "security_groups"@,
    }
}

/// The weight of an area's check in the overall score, in percent.
pub open spec fn area_weight(a: ValidationArea) -> u32 {
    match a {
        ValidationArea::Credentials => 25,
        ValidationArea::IamPermissions => 30,
        ValidationArea::VpcConfiguration => 25,
        ValidationArea::SecurityGroups => 20,
    }
}

/// The area whose check has the given name.
pub open spec fn area_named(name: Seq<char>) -> Option<ValidationArea> {
    if name == "credentials"@ {
        Some(ValidationArea::Credentials)
    } else if name == "iam_permissions"@ {
        Some(ValidationArea::IamPermissions)
    } else if name == "vpc_configuration"@ {
        Some(ValidationArea::VpcConfiguration)
    } else if name == "security_groups"@ {
        Some(ValidationArea::SecurityGroups)
    } else {
        None
    }
}

impl ValidationArea {
    /// The name of the area's check.
    pub fn check_name(&self) -> (s: &'static str)
        ensures
            s@ == area_name(*self),
    {
        match self {
            ValidationArea::Credentials => "credentials",
            ValidationArea::IamPermissions => "iam_permissions",
            ValidationArea::VpcConfiguration => "vpc_configuration",
            ValidationArea::SecurityGroups => "security_groups",
        }
    }

    /// The weight of the area's check, in percent.
    pub fn weight_percent(&self) -> (w: u32)
        ensures
            w == area_weight(*self),
    {
        match self {
            ValidationArea::Credentials => 25,
            ValidationArea::IamPermissions => 30,
            ValidationArea::VpcConfiguration => 25,
            ValidationArea::SecurityGroups => 20,
        }
    }
}

/// The area whose check has the given name, if any.
pub fn area_of_check(name: &str) -> (a: Option<ValidationArea>)
    ensures
        a == area_named(name@),
{
    proof {
        reveal_strlit("credentials");
        reveal_strlit("iam_permissions");
        reveal_strlit("vpc_configuration");
        reveal_strlit("security_groups");
    }
    if crate::text::str_eq(name, "credentials") {
        Some(ValidationArea::Credentials)
    } else if crate::text::str_eq(name, "iam_permissions") {
        Some(ValidationArea::IamPermissions)
    } else if crate::text::str_eq(name, "vpc_configuration") {
        Some(ValidationArea::VpcConfiguration)
    } else if crate::text::str_eq(name, "security_groups") {
        Some(ValidationArea::SecurityGroups)
    } else {
        None
    }
}

/// The result of one validation check.
#[derive(Debug)]
pub struct ValidationCheckResult {
    pub check_name: String,
    pub status: DiagnosticStatus,
    pub message: String,
    pub score: Score,
    /// The weight of the check in the overall score, in percent.
    pub weight_percent: u32,
    pub details: Option<serde_json::Value>,
    pub improvement_suggestions: Vec<String>,
}

/// The content of a validation check result.
pub struct CheckView {
    pub check_name: Seq<char>,
    pub status: DiagnosticStatus,
    pub message: Seq<char>,
    pub score: Score,
    pub weight_percent: u32,
    pub details: Option<serde_json::Value>,
    pub improvement_suggestions: Seq<Seq<char>>,
}

impl View for ValidationCheckResult {
    type V = CheckView;

    open spec fn view(&self) -> CheckView {
        CheckView {
            check_name: self.check_name@,
            status: self.status,
            message: self.message@,
            score: self.score,
            weight_percent: self.weight_percent,
            details: self.details,
            improvement_suggestions: strings_view(self.improvement_suggestions@),
        }
    }
}

/// The views of a sequence of check results.
pub open spec fn checks_view(v: Seq<ValidationCheckResult>) -> Seq<CheckView> {
    v.map_values(|c: ValidationCheckResult| c@)
}

impl Clone for ValidationCheckResult {
    fn clone(&self) -> (r: Self)
        ensures
            r@ == self@,
    {
        ValidationCheckResult {
            check_name: self.check_name.clone(),
            status: self.status,
            message: self.message.clone(),
            score: self.score,
            weight_percent: self.weight_percent,
            details: match &self.details {
                Some(d) => Some(d.clone()),
                None => None,
            },
            improvement_suggestions: crate::text::clone_strings(&self.improvement_suggestions),
        }
    }
}

impl ValidationCheckResult {
    /// A check result without details or suggestions; the score is kept at
    /// most 100 percent and the weight at most 100 percent.
    pub fn new(
        check_name: String,
        status: DiagnosticStatus,
        message: String,
        score: Score,
        weight_percent: u32,
    ) -> (r: Self)
        requires
            1 <= score.parts <= MAX_PARTS,
        ensures
            r@ == (CheckView {
                check_name: check_name@,
                status: status,
                message: message@,
                score: score.capped(),
                weight_percent: if weight_percent > 100 {
                    100
                } else {
                    weight_percent
                },
                details: None,
                improvement_suggestions: Seq::empty(),
            }),
            r.score.wf(),
    {
        let top = 100 * score.parts;
        let capped = Score { points: if score.points > top { top } else { score.points }, parts: score.parts };
        let r = ValidationCheckResult {
            check_name,
            status,
            message,
            score: capped,
            weight_percent: if weight_percent > 100 {
                100
            } else {
                weight_percent
            },
            details: None,
            improvement_suggestions: Vec::new(),
        };
        assert(strings_view(r.improvement_suggestions@) =~= Seq::empty());
        r
    }

    /// The score times the weight, as the fraction `(numerator, denominator)`.
    pub fn weighted_score(&self) -> (w: (u64, u64))
        requires
            self.score.wf(),
            self.weight_percent <= 100,
        ensures
            w.0 == self.score.points * self.weight_percent,
            w.1 == self.score.parts * 100,
    {
        assert(self.score.points * self.weight_percent <= 100 * MAX_PARTS * 100) by (nonlinear_arith)
            requires
                self.score.points <= 100 * self.score.parts,
                self.score.parts <= MAX_PARTS,
                self.weight_percent <= 100,
        ;
        (self.score.points * self.weight_percent as u64, self.score.parts * 100)
    }

    /// The same result with details.
    pub fn with_details(self, details: serde_json::Value) -> (r: Self)
        ensures
            r@ == (CheckView { details: Some(details), ..self@ }),
    {
        ValidationCheckResult { details: Some(details), ..self }
    }

    /// The same result with the given suggestions.
    pub fn with_suggestions(self, suggestions: Vec<String>) -> (r: Self)
        ensures
            r@ == (CheckView { improvement_suggestions: strings_view(suggestions@), ..self@ }),
    {
        ValidationCheckResult { improvement_suggestions: suggestions, ..self }
    }
}

/// The score a diagnostic earns in validation: full marks for a success,
/// less for a warning or an error the more severe it is, and half for a
/// skipped check.
pub open spec fn diagnostic_points(status: DiagnosticStatus, severity: Severity) -> u64 {
    match status {
        DiagnosticStatus::Success => 100,
        DiagnosticStatus::Warning => match severity {
            Severity::Low => 80,
            Severity::Medium => 70,
            Severity::High => 60,
            Severity::Critical => 40,
            Severity::Info => 90,
        },
        DiagnosticStatus::Error => match severity {
            Severity::Low => 60,
            Severity::Medium => 40,
            Severity::High => 20,
            Severity::Critical => 0,
            Severity::Info => 50,
        },
        DiagnosticStatus::Skipped => 50,
    }
}

/// The score a diagnostic earns in validation.
pub fn diagnostic_score(status: DiagnosticStatus, severity: Severity) -> (s: Score)
    ensures
        s == Score::whole_spec(diagnostic_points(status, severity)),
        s.wf(),
{
    let p: u64 = match status {
        DiagnosticStatus::Success => 100,
        DiagnosticStatus::Warning => match severity {
            Severity::Low => 80,
            Severity::Medium => 70,
            Severity::High => 60,
            Severity::Critical => 40,
            Severity::Info => 90,
        },
        DiagnosticStatus::Error => match severity {
            Severity::Low => 60,
            Severity::Medium => 40,
            Severity::High => 20,
            Severity::Critical => 0,
            Severity::Info => 50,
        },
        DiagnosticStatus::Skipped => 50,
    };
    Score::whole(p)
}

/// A check result made from a diagnostic: its name, status and message, the
/// score it earns, the given weight, and its details (an empty object when
/// it has none).
pub fn check_from_diagnostic(d: DiagnosticResult, weight_percent: u32) -> (r: ValidationCheckResult)
    ensures
        r.check_name@ == d.item_name@,
        r.status == d.status,
        r.message@ == d.message@,
        r.score == Score::whole_spec(diagnostic_points(d.status, d.severity)),
        r.weight_percent == if weight_percent > 100 {
            100
        } else {
            weight_percent
        },
        r.details is Some,
        d.details is Some ==> r.details == d.details,
        d.details is None ==> crate::json::json_is_object(r.details->0) && forall|k: Seq<char>|
            #[trigger] crate::json::json_member(r.details->0, k) is None,
        r@.improvement_suggestions == Seq::<Seq<char>>::empty(),
{
    let score = diagnostic_score(d.status, d.severity);
    let details = match d.details {
        Some(v) => v,
        None => json_empty_object(),
    };
    ValidationCheckResult::new(d.item_name, d.status, d.message, score, weight_percent).with_details(
        details,
    )
}

/// Where a check failed to run.
#[derive(Debug, Clone, Copy, PartialEq, Eq, Structural)]
pub enum ValidationStage {
    /// The area's own validation could not reach its diagnostic.
    Check,
    /// The validation of the whole configuration could not run the check.
    Overall,
    /// The integrated validation could not run the check.
    Integrated,
}

/// The message of a check that failed to run, before the error's text.
pub open spec fn failure_prefix(a: ValidationArea, stage: ValidationStage) -> Seq<char> {
    match stage {
        ValidationStage::Check => match a {
            ValidationArea::Credentials => "Failed to validate AWS credentials: "@,
            ValidationArea::IamPermissions => "Failed to validate IAM permissions: "@,
            ValidationArea::VpcConfiguration => "Failed to validate VPC configuration: "@,
            ValidationArea::SecurityGroups => "Failed to validate security groups: "@,
        },
        ValidationStage::Overall => match a {
            ValidationArea::Credentials => "Credential validation failed: "@,
            ValidationArea::IamPermissions => "IAM validation failed: "@,
            ValidationArea::VpcConfiguration => "VPC validation failed: "@,
            ValidationArea::SecurityGroups => "Security group validation failed: "@,
        },
        ValidationStage::Integrated => match a {
            ValidationArea::Credentials => "Integrated credential validation failed: "@,
            ValidationArea::IamPermissions => "Integrated IAM validation failed: "@,
            ValidationArea::VpcConfiguration => "Integrated VPC validation failed: "@,
            ValidationArea::SecurityGroups => "Integrated security group validation failed: "@,
        },
    }
}

/// The suggestions given with a check that could not reach its diagnostic.
pub open spec fn failure_suggestions(a: ValidationArea) -> Seq<Seq<char>> {
    match a {
        ValidationArea::Credentials => seq![
            "Configure AWS credentials using 'aws configure'"@,
            "Verify AWS CLI is installed and accessible"@,
            "Check AWS profile configuration"@,
        ],
        ValidationArea::IamPermissions => seq![
            "Ensure instance has an IAM role attached"@,
            "Attach AmazonSSMManagedInstanceCore policy to instance role"@,
            "Verify user has necessary SSM permissions"@,
        ],
        ValidationArea::VpcConfiguration => seq![
            "Create VPC endpoints for SSM services"@,
            "Ensure instance is in a VPC with proper routing"@,
            "Verify VPC endpoint security groups allow HTTPS"@,
        ],
        ValidationArea::SecurityGroups => seq![
            "Allow outbound HTTPS (port 443) traffic"@,
            "Ensure security group is attached to instance"@,
            "Review Network ACLs for restrictions"@,
        ],
    }
}

fn failure_prefix_text(a: ValidationArea, stage: ValidationStage) -> (s: &'static str)
    ensures
        s@ == failure_prefix(a, stage),
{
    match stage {
        ValidationStage::Check => match a {
            ValidationArea::Credentials => "Failed to validate AWS credentials: ",
            ValidationArea::IamPermissions => "Failed to validate IAM permissions: ",
            ValidationArea::VpcConfiguration => "Failed to validate VPC configuration: ",
            ValidationArea::SecurityGroups => "Failed to validate security groups: ",
        },
        ValidationStage::Overall => match a {
            ValidationArea::Credentials => "Credential validation failed: ",
            ValidationArea::IamPermissions => "IAM validation failed: ",
            ValidationArea::VpcConfiguration => "VPC validation failed: ",
            ValidationArea::SecurityGroups => "Security group validation failed: ",
        },
        ValidationStage::Integrated => match a {
            ValidationArea::Credentials => "Integrated credential validation failed: ",
            ValidationArea::IamPermissions => "Integrated IAM validation failed: ",
            ValidationArea::VpcConfiguration => "Integrated VPC validation failed: ",
            ValidationArea::SecurityGroups => "Integrated security group validation failed: ",
        },
    }
}

fn strings3(a: &str, b: &str, c: &str) -> (v: Vec<String>)
    ensures
        strings_view(v@) == seq![a@, b@, c@],
{
    let v = vec![String::from_str(a), String::from_str(b), String::from_str(c)];
    assert(strings_view(v@) =~= seq![a@, b@, c@]);
    v
}

fn failure_suggestion_list(a: ValidationArea) -> (v: Vec<String>)
    ensures
        strings_view(v@) == failure_suggestions(a),
{
    match a {
        ValidationArea::Credentials => strings3(
            "Configure AWS credentials using 'aws configure'",
            "Verify AWS CLI is installed and accessible",
            "Check AWS profile configuration",
        ),
        ValidationArea::IamPermissions => strings3(
            "Ensure instance has an IAM role attached",
            "Attach AmazonSSMManagedInstanceCore policy to instance role",
            "Verify user has necessary SSM permissions",
        ),
        ValidationArea::VpcConfiguration => strings3(
            "Create VPC endpoints for SSM services",
            "Ensure instance is in a VPC with proper routing",
            "Verify VPC endpoint security groups allow HTTPS",
        ),
        ValidationArea::SecurityGroups => strings3(
            "Allow outbound HTTPS (port 443) traffic",
            "Ensure security group is attached to instance",
            "Review Network ACLs for restrictions",
        ),
    }
}

/// The result of a check that failed to run with the given error: an error
/// scoring zero, with the area's weight; a check that could not reach its
/// diagnostic also carries the area's first suggestions.
pub fn failed_check(a: ValidationArea, stage: ValidationStage, error: &str) -> (r:
    ValidationCheckResult)
    ensures
        r@ == (CheckView {
            check_name: area_name(a),
            status: DiagnosticStatus::Error,
            message: failure_prefix(a, stage) + error@,
            score: Score::whole_spec(0),
            weight_percent: area_weight(a),
            details: None,
            improvement_suggestions: if stage == ValidationStage::Check {
                failure_suggestions(a)
            } else {
                Seq::empty()
            },
        }),
{
    let r = ValidationCheckResult::new(
        String::from_str(a.check_name()),
        DiagnosticStatus::Error,
        concat2(failure_prefix_text(a, stage), error),
        Score::whole(0),
        a.weight_percent(),
    );
    match stage {
        ValidationStage::Check => r.with_suggestions(failure_suggestion_list(a)),
        _ => r,
    }
}


/// A suggested improvement of the configuration.
#[derive(Debug)]
pub struct ImprovementSuggestion {
    pub category: SuggestionCategory,
    pub priority: SuggestionPriority,
    pub title: String,
    pub description: String,
    pub action_items: Vec<String>,
    /// The expected gain in the overall score, in percent.
    pub estimated_impact: u32,
    pub related_checks: Vec<String>,
}

/// The content of an improvement suggestion.
pub struct SuggestionView {
    pub category: SuggestionCategory,
    pub priority: SuggestionPriority,
    pub title: Seq<char>,
    pub description: Seq<char>,
    pub action_items: Seq<Seq<char>>,
    pub estimated_impact: u32,
    pub related_checks: Seq<Seq<char>>,
}

impl View for ImprovementSuggestion {
    type V = SuggestionView;

    open spec fn view(&self) -> SuggestionView {
        SuggestionView {
            category: self.category,
            priority: self.priority,
            title: self.title@,
            description: self.description@,
            action_items: strings_view(self.action_items@),
            estimated_impact: self.estimated_impact,
            related_checks: strings_view(self.related_checks@),
        }
    }
}

impl Clone for ImprovementSuggestion {
    fn clone(&self) -> (r: Self)
        ensures
            r@ == self@,
    {
        ImprovementSuggestion {
            category: self.category,
            priority: self.priority,
            title: self.title.clone(),
            description: self.description.clone(),
            action_items: crate::text::clone_strings(&self.action_items),
            estimated_impact: self.estimated_impact,
            related_checks: crate::text::clone_strings(&self.related_checks),
        }
    }
}

/// The views of a sequence of suggestions.
pub open spec fn suggestions_view(v: Seq<ImprovementSuggestion>) -> Seq<SuggestionView> {
    v.map_values(|s: ImprovementSuggestion| s@)
}

/// The suggestion for an area's check that scored below 80 percent: what to
/// do about the area, more urgent the lower the score.
pub open spec fn area_suggestion(a: ValidationArea, score: Score, check_name: Seq<char>) -> Option<
    SuggestionView,
> {
    if !score.below(80) {
        None
    } else {
        Some(
            match a {
                ValidationArea::Credentials => SuggestionView {
                    category: SuggestionCategory::Credentials,
                    priority: if score.below(40) {
                        SuggestionPriority::Critical
                    } else {
                        SuggestionPriority::High
                    },
                    title: "AWS Credentials Configuration"@,
                    description: "AWS credentials are not properly configured or accessible"@,
                    action_items: seq![
                        "Verify AWS credentials are configured: aws configure list"@,
                        "Check AWS profile configuration: aws configure list-profiles"@,
                        "Ensure AWS CLI is installed and updated"@,
                        "Verify IAM user has necessary permissions"@,
                        "Check for expired or invalid credentials"@,
                    ],
                    estimated_impact: 30,
                    related_checks: seq![check_name],
                },
                ValidationArea::IamPermissions => SuggestionView {
                    category: SuggestionCategory::IamPermissions,
                    priority: if score.below(40) {
                        SuggestionPriority::Critical
                    } else if score.below(60) {
                        SuggestionPriority::High
                    } else {
                        SuggestionPriority::Medium
                    },
                    title: "IAM Permissions for SSM"@,
                    description: "IAM permissions are insufficient for SSM Session Manager connections"@,
                    action_items: seq![
                        "Attach AmazonSSMManagedInstanceCore policy to EC2 instance role"@,
                        "Ensure instance has an IAM role attached"@,
                        "Verify user has ssm:StartSession permission"@,
                        "Check for permission boundaries that might restrict access"@,
                        "Review CloudTrail logs for permission denied errors"@,
                    ],
                    estimated_impact: 25,
                    related_checks: seq![check_name],
                },
                ValidationArea::VpcConfiguration => SuggestionView {
                    category: SuggestionCategory::VpcConfiguration,
                    priority: if score.below(50) {
                        SuggestionPriority::High
                    } else {
                        SuggestionPriority::Medium
                    },
                    title: "VPC Endpoints for SSM"@,
                    description: "VPC endpoints are missing or misconfigured for SSM connectivity"@,
                    action_items: seq![
                        "Create VPC endpoint for com.amazonaws.region.ssm"@,
                        "Create VPC endpoint for com.amazonaws.region.ssmmessages"@,
                        "Create VPC endpoint for com.amazonaws.region.ec2messages"@,
                        "Ensure VPC endpoints are in the same VPC as the instance"@,
                        "Verify route tables include VPC endpoint routes"@,
                        "Check VPC endpoint security groups allow HTTPS traffic"@,
                    ],
                    estimated_impact: 20,
                    related_checks: seq![check_name],
                },
                ValidationArea::SecurityGroups => SuggestionView {
                    category: SuggestionCategory::SecurityGroups,
                    priority: if score.below(60) {
                        SuggestionPriority::High
                    } else {
                        SuggestionPriority::Medium
                    },
                    title: "Security Group Rules for SSM"@,
                    description: "Security group rules may be blocking SSM connectivity"@,
                    action_items: seq![
                        "Allow outbound HTTPS (port 443) to 0.0.0.0/0"@,
                        "Ensure no restrictive outbound rules block SSM endpoints"@,
                        "Verify security group is attached to the instance"@,
                        "Check for conflicting security group rules"@,
                        "Review Network ACLs for additional restrictions"@,
                    ],
                    estimated_impact: 15,
                    related_checks: seq![check_name],
                },
            },
        )
    }
}

/// An optional suggestion as a sequence of none or one.
pub open spec fn opt_seq(o: Option<SuggestionView>) -> Seq<SuggestionView> {
    match o {
        Some(s) => seq![s],
        None => Seq::empty(),
    }
}

/// The suggestions a check gives: its area's suggestion, if its name is one
/// of the four areas' and it scored below 80 percent.
pub open spec fn check_suggestions(c: CheckView) -> Seq<SuggestionView> {
    match area_named(c.check_name) {
        Some(a) => opt_seq(area_suggestion(a, c.score, c.check_name)),
        None => Seq::empty(),
    }
}

/// The suggestions of the checks, check after check.
pub open spec fn gathered(cs: Seq<CheckView>) -> Seq<SuggestionView>
    decreases cs.len(),
{
    if cs.len() == 0 {
        Seq::empty()
    } else {
        gathered(cs.drop_last()) + check_suggestions(cs.last())
    }
}

/// The suggestions of the given priority rank, in their order.
pub open spec fn with_rank(s: Seq<SuggestionView>, k: nat) -> Seq<SuggestionView>
    decreases s.len(),
{
    if s.len() == 0 {
        Seq::empty()
    } else if priority_rank(s.last().priority) == k {
        with_rank(s.drop_last(), k).push(s.last())
    } else {
        with_rank(s.drop_last(), k)
    }
}

/// The suggestions ordered by priority, most urgent first, keeping the order
/// of those of equal priority (what a stable sort by priority gives).
pub open spec fn by_priority(s: Seq<SuggestionView>) -> Seq<SuggestionView> {
    with_rank(s, 0) + with_rank(s, 1) + with_rank(s, 2) + with_rank(s, 3)
}

/// The titles of the suggestions.
pub open spec fn titles(s: Seq<SuggestionView>) -> Seq<Seq<char>> {
    s.map_values(|x: SuggestionView| x.title)
}

/// The suggestions without those whose title came earlier.
pub open spec fn first_titles(s: Seq<SuggestionView>) -> Seq<SuggestionView>
    decreases s.len(),
{
    if s.len() == 0 {
        Seq::empty()
    } else {
        let d = first_titles(s.drop_last());
        if titles(d).contains(s.last().title) {
            d
        } else {
            d.push(s.last())
        }
    }
}

/// The improvement suggestions of a set of checks: each check's suggestion,
/// ordered by priority, one per title.
pub open spec fn improvement_list(cs: Seq<CheckView>) -> Seq<SuggestionView> {
    first_titles(by_priority(gathered(cs)))
}

fn make_suggestion(
    category: SuggestionCategory,
    priority: SuggestionPriority,
    title: &str,
    description: &str,
    action_items: Vec<String>,
    estimated_impact: u32,
    related_checks: Vec<String>,
) -> (r: ImprovementSuggestion)
    ensures
        r@ == (SuggestionView {
            category: category,
            priority: priority,
            title: title@,
            description: description@,
            action_items: strings_view(action_items@),
            estimated_impact: estimated_impact,
            related_checks: strings_view(related_checks@),
        }),
{
    ImprovementSuggestion {
        category,
        priority,
        title: String::from_str(title),
        description: String::from_str(description),
        action_items,
        estimated_impact,
        related_checks,
    }
}

fn strings5(a: &str, b: &str, c: &str, d: &str, e: &str) -> (v: Vec<String>)
    ensures
        strings_view(v@) == seq![a@, b@, c@, d@, e@],
{
    let v = vec![
        String::from_str(a),
        String::from_str(b),
        String::from_str(c),
        String::from_str(d),
        String::from_str(e),
    ];
    assert(strings_view(v@) =~= seq![a@, b@, c@, d@, e@]);
    v
}

fn one_string(s: &String) -> (v: Vec<String>)
    ensures
        strings_view(v@) == seq![s@],
{
    let v = vec![s.clone()];
    assert(strings_view(v@) =~= seq![s@]);
    v
}

/// The suggestion for an area's check with the given score and name, if it
/// scored below 80 percent.
pub fn area_suggestion_for(a: ValidationArea, score: Score, check_name: &String) -> (r: Option<
    ImprovementSuggestion,
>)
    ensures
        match r {
            Some(s) => area_suggestion(a, score, check_name@) == Some(s@),
            None => area_suggestion(a, score, check_name@) is None,
        },
{
    if !score.is_below(80) {
        return None;
    }
    let related = one_string(check_name);
    let s = match a {
        ValidationArea::Credentials => {
            let priority = if score.is_below(40) {
                SuggestionPriority::Critical
            } else {
                SuggestionPriority::High
            };
            make_suggestion(
                SuggestionCategory::Credentials,
                priority,
                "AWS Credentials Configuration",
                "AWS credentials are not properly configured or accessible",
                strings5(
                    "Verify AWS credentials are configured: aws configure list",
                    "Check AWS profile configuration: aws configure list-profiles",
                    "Ensure AWS CLI is installed and updated",
                    "Verify IAM user has necessary permissions",
                    "Check for expired or invalid credentials",
                ),
                30,
                related,
            )
        },
        ValidationArea::IamPermissions => {
            let priority = if score.is_below(40) {
                SuggestionPriority::Critical
            } else if score.is_below(60) {
                SuggestionPriority::High
            } else {
                SuggestionPriority::Medium
            };
            make_suggestion(
                SuggestionCategory::IamPermissions,
                priority,
                "IAM Permissions for SSM",
                "IAM permissions are insufficient for SSM Session Manager connections",
                strings5(
                    "Attach AmazonSSMManagedInstanceCore policy to EC2 instance role",
                    "Ensure instance has an IAM role attached",
                    "Verify user has ssm:StartSession permission",
                    "Check for permission boundaries that might restrict access",
                    "Review CloudTrail logs for permission denied errors",
                ),
                25,
                related,
            )
        },
        ValidationArea::VpcConfiguration => {
            let priority = if score.is_below(50) {
                SuggestionPriority::High
            } else {
                SuggestionPriority::Medium
            };
            let items = vec![
                String::from_str("Create VPC endpoint for com.amazonaws.region.ssm"),
                String::from_str("Create VPC endpoint for com.amazonaws.region.ssmmessages"),
                String::from_str("Create VPC endpoint for com.amazonaws.region.ec2messages"),
                String::from_str("Ensure VPC endpoints are in the same VPC as the instance"),
                String::from_str("Verify route tables include VPC endpoint routes"),
                String::from_str("Check VPC endpoint security groups allow HTTPS traffic"),
            ];
            assert(strings_view(items@) =~= seq![
                "Create VPC endpoint for com.amazonaws.region.ssm"@,
                "Create VPC endpoint for com.amazonaws.region.ssmmessages"@,
                "Create VPC endpoint for com.amazonaws.region.ec2messages"@,
                "Ensure VPC endpoints are in the same VPC as the instance"@,
                "Verify route tables include VPC endpoint routes"@,
                "Check VPC endpoint security groups allow HTTPS traffic"@,
            ]);
            make_suggestion(
                SuggestionCategory::VpcConfiguration,
                priority,
                "VPC Endpoints for SSM",
                "VPC endpoints are missing or misconfigured for SSM connectivity",
                items,
                20,
                related,
            )
        },
        ValidationArea::SecurityGroups => {
            let priority = if score.is_below(60) {
                SuggestionPriority::High
            } else {
                SuggestionPriority::Medium
            };
            make_suggestion(
                SuggestionCategory::SecurityGroups,
                priority,
                "Security Group Rules for SSM",
                "Security group rules may be blocking SSM connectivity",
                strings5(
                    "Allow outbound HTTPS (port 443) to 0.0.0.0/0",
                    "Ensure no restrictive outbound rules block SSM endpoints",
                    "Verify security group is attached to the instance",
                    "Check for conflicting security group rules",
                    "Review Network ACLs for additional restrictions",
                ),
                15,
                related,
            )
        },
    };
    Some(s)
}

fn suggestions_of_check(c: &ValidationCheckResult) -> (v: Vec<ImprovementSuggestion>)
    ensures
        suggestions_view(v@) == check_suggestions(c@),
{
    let mut v: Vec<ImprovementSuggestion> = Vec::new();
    match area_of_check(c.check_name.as_str()) {
        Some(a) => match area_suggestion_for(a, c.score, &c.check_name) {
            Some(s) => {
                v.push(s);
                assert(suggestions_view(v@) =~= check_suggestions(c@));
            },
            None => {
                assert(suggestions_view(v@) =~= check_suggestions(c@));
            },
        },
        None => {
            assert(suggestions_view(v@) =~= check_suggestions(c@));
        },
    }
    v
}

fn gather_suggestions(results: &Vec<ValidationCheckResult>) -> (v: Vec<ImprovementSuggestion>)
    ensures
        suggestions_view(v@) == gathered(checks_view(results@)),
{
    let mut v: Vec<ImprovementSuggestion> = Vec::new();
    let mut i: usize = 0;
    while i < results.len()
        invariant
            i <= results.len(),
            suggestions_view(v@) == gathered(checks_view(results@.subrange(0, i as int))),
        decreases results.len() - i,
    {
        let part = suggestions_of_check(&results[i]);
        let ghost before = v@;
        let mut j: usize = 0;
        while j < part.len()
            invariant
                j <= part.len(),
                suggestions_view(v@) == suggestions_view(before) + suggestions_view(part@).subrange(
                    0,
                    j as int,
                ),
            decreases part.len() - j,
        {
            let ghost w = v@;
            v.push(part[j].clone());
            assert(suggestions_view(v@) =~= suggestions_view(w).push(part@[j as int]@));
            assert(suggestions_view(part@).subrange(0, j + 1) =~= suggestions_view(part@).subrange(
                0,
                j as int,
            ).push(part@[j as int]@));
            j = j + 1;
        }
        proof {
            let cs = checks_view(results@.subrange(0, i + 1));
            assert(cs.drop_last() =~= checks_view(results@.subrange(0, i as int)));
            assert(cs.last() == results@[i as int]@);
            assert(suggestions_view(part@).subrange(0, part@.len() as int) =~= suggestions_view(
                part@,
            ));
        }
        i = i + 1;
    }
    assert(results@.subrange(0, results@.len() as int) =~= results@);
    v
}

fn collect_rank(s: &Vec<ImprovementSuggestion>, k: u8, out: &mut Vec<ImprovementSuggestion>)
    requires
        k <= 3,
    ensures
        suggestions_view(final(out)@) == suggestions_view(old(out)@) + with_rank(
            suggestions_view(s@),
            k as nat,
        ),
{
    let ghost start = old(out)@;
    let mut i: usize = 0;
    while i < s.len()
        invariant
            i <= s.len(),
            suggestions_view(out@) == suggestions_view(start) + with_rank(
                suggestions_view(s@.subrange(0, i as int)),
                k as nat,
            ),
        decreases s.len() - i,
    {
        let ghost w = out@;
        let ghost pre = suggestions_view(s@.subrange(0, i as int));
        let ghost next = suggestions_view(s@.subrange(0, i + 1));
        assert(next.drop_last() =~= pre);
        assert(next.last() == s@[i as int]@);
        if crate::validator::priority_rank_of(s[i].priority) == k {
            out.push(s[i].clone());
            assert(suggestions_view(out@) =~= suggestions_view(w).push(s@[i as int]@));
        }
        i = i + 1;
    }
    assert(s@.subrange(0, s@.len() as int) =~= s@);
}

fn sort_by_priority(s: &Vec<ImprovementSuggestion>) -> (r: Vec<ImprovementSuggestion>)
    ensures
        suggestions_view(r@) == by_priority(suggestions_view(s@)),
{
    let mut r: Vec<ImprovementSuggestion> = Vec::new();
    assert(suggestions_view(r@) =~= Seq::empty());
    collect_rank(s, 0, &mut r);
    collect_rank(s, 1, &mut r);
    collect_rank(s, 2, &mut r);
    collect_rank(s, 3, &mut r);
    assert(suggestions_view(r@) =~= by_priority(suggestions_view(s@)));
    r
}

fn has_title(v: &Vec<ImprovementSuggestion>, title: &String) -> (b: bool)
    ensures
        b == titles(suggestions_view(v@)).contains(title@),
{
    let ghost ts = titles(suggestions_view(v@));
    let mut i: usize = 0;
    while i < v.len()
        invariant
            i <= v.len(),
            ts == titles(suggestions_view(v@)),
            forall|j: int| 0 <= j < i ==> ts[j] != title@,
        decreases v.len() - i,
    {
        if crate::text::str_eq(v[i].title.as_str(), title.as_str()) {
            assert(ts[i as int] == title@);
            return true;
        }
        i = i + 1;
    }
    false
}

fn keep_first_titles(s: &Vec<ImprovementSuggestion>) -> (r: Vec<ImprovementSuggestion>)
    ensures
        suggestions_view(r@) == first_titles(suggestions_view(s@)),
{
    let mut r: Vec<ImprovementSuggestion> = Vec::new();
    let mut i: usize = 0;
    assert(suggestions_view(r@) =~= first_titles(suggestions_view(s@.subrange(0, 0))));
    while i < s.len()
        invariant
            i <= s.len(),
            suggestions_view(r@) == first_titles(suggestions_view(s@.subrange(0, i as int))),
        decreases s.len() - i,
    {
        let ghost w = r@;
        let ghost pre = suggestions_view(s@.subrange(0, i as int));
        let ghost next = suggestions_view(s@.subrange(0, i + 1));
        assert(next.drop_last() =~= pre);
        assert(next.last() == s@[i as int]@);
        if !has_title(&r, &s[i].title) {
            r.push(s[i].clone());
            assert(suggestions_view(r@) =~= suggestions_view(w).push(s@[i as int]@));
        }
        i = i + 1;
    }
    assert(s@.subrange(0, s@.len() as int) =~= s@);
    r
}

/// The improvement suggestions of a set of checks: the suggestion of each
/// check that scored below 80 percent, the most urgent first (in check order
/// among equally urgent ones), keeping only the first of each title.
pub fn improvement_suggestions(results: &Vec<ValidationCheckResult>) -> (r: Vec<
    ImprovementSuggestion,
>)
    ensures
        suggestions_view(r@) == improvement_list(checks_view(results@)),
{
    let all = gather_suggestions(results);
    let sorted = sort_by_priority(&all);
    keep_first_titles(&sorted)
}

/// The suggestions come most urgent first.
pub open spec fn ordered_by_priority(s: Seq<SuggestionView>) -> bool {
    forall|i: int, j: int|
        0 <= i < j < s.len() ==> priority_rank(#[trigger] s[i].priority) <= priority_rank(
            #[trigger] s[j].priority,
        )
}

/// No two suggestions share a title.
pub open spec fn distinct_titles(s: Seq<SuggestionView>) -> bool {
    forall|i: int, j: int| 0 <= i < j < s.len() ==> #[trigger] s[i].title != #[trigger] s[j].title
}

proof fn lemma_with_rank_has_rank(s: Seq<SuggestionView>, k: nat)
    ensures
        forall|i: int|
            0 <= i < with_rank(s, k).len() ==> priority_rank(#[trigger] with_rank(s, k)[i].priority)
                == k,
    decreases s.len(),
{
    if s.len() > 0 {
        lemma_with_rank_has_rank(s.drop_last(), k);
    }
}

proof fn lemma_by_priority_ordered(s: Seq<SuggestionView>)
    ensures
        ordered_by_priority(by_priority(s)),
{
    let a = with_rank(s, 0);
    let b = with_rank(s, 1);
    let c = with_rank(s, 2);
    let d = with_rank(s, 3);
    lemma_with_rank_has_rank(s, 0);
    lemma_with_rank_has_rank(s, 1);
    lemma_with_rank_has_rank(s, 2);
    lemma_with_rank_has_rank(s, 3);
    let r = by_priority(s);
    assert forall|i: int| 0 <= i < r.len() implies priority_rank(#[trigger] r[i].priority) == (if i
        < a.len() {
        0int
    } else if i < a.len() + b.len() {
        1int
    } else if i < a.len() + b.len() + c.len() {
        2int
    } else {
        3int
    }) by {
        if i < a.len() {
            assert(r[i] == a[i]);
        } else if i < a.len() + b.len() {
            assert(r[i] == b[i - a.len()]);
        } else if i < a.len() + b.len() + c.len() {
            assert(r[i] == c[i - a.len() - b.len()]);
        } else {
            assert(r[i] == d[i - a.len() - b.len() - c.len()]);
        }
    }
}

proof fn lemma_first_titles_from(s: Seq<SuggestionView>)
    ensures
        forall|i: int|
            0 <= i < first_titles(s).len() ==> s.contains(#[trigger] first_titles(s)[i]),
        distinct_titles(first_titles(s)),
    decreases s.len(),
{
    if s.len() > 0 {
        let p = s.drop_last();
        lemma_first_titles_from(p);
        let d = first_titles(p);
        assert forall|i: int| 0 <= i < d.len() implies s.contains(#[trigger] d[i]) by {
            let m = choose|m: int| 0 <= m < p.len() && p[m] == d[i];
            assert(s[m] == d[i]);
        }
        if !titles(d).contains(s.last().title) {
            let e = d.push(s.last());
            assert(e == first_titles(s));
            assert forall|i: int| 0 <= i < e.len() implies s.contains(#[trigger] e[i]) by {
                if i == d.len() {
                    assert(s[s.len() - 1] == e[i]);
                } else {
                    assert(e[i] == d[i]);
                }
            }
            assert forall|i: int, j: int| 0 <= i < j < e.len() implies #[trigger] e[i].title
                != #[trigger] e[j].title by {
                if j == d.len() {
                    assert(titles(d)[i] == d[i].title);
                }
            }
        }
    }
}

proof fn lemma_first_titles_ordered(s: Seq<SuggestionView>)
    requires
        ordered_by_priority(s),
    ensures
        ordered_by_priority(first_titles(s)),
    decreases s.len(),
{
    if s.len() > 0 {
        let p = s.drop_last();
        assert(ordered_by_priority(p)) by {
            assert forall|i: int, j: int| 0 <= i < j < p.len() implies priority_rank(
                #[trigger] p[i].priority,
            ) <= priority_rank(#[trigger] p[j].priority) by {
                assert(p[i] == s[i] && p[j] == s[j]);
            }
        }
        lemma_first_titles_ordered(p);
        lemma_first_titles_from(p);
        let d = first_titles(p);
        if !titles(d).contains(s.last().title) {
            let e = d.push(s.last());
            assert forall|i: int, j: int| 0 <= i < j < e.len() implies priority_rank(
                #[trigger] e[i].priority,
            ) <= priority_rank(#[trigger] e[j].priority) by {
                if j == d.len() {
                    assert(p.contains(d[i]));
                    let m = choose|m: int| 0 <= m < p.len() && p[m] == d[i];
                    assert(s[m] == d[i]);
                    assert(s[s.len() - 1] == e[j]);
                } else {
                    assert(e[i] == d[i] && e[j] == d[j]);
                }
            }
        }
    }
}

/// Law: the improvement suggestions of any set of checks come most urgent
/// first, and no title occurs twice among them.
pub proof fn lemma_improvements_ordered_and_distinct(cs: Seq<CheckView>)
    ensures
        ordered_by_priority(improvement_list(cs)),
        distinct_titles(improvement_list(cs)),
{
    lemma_by_priority_ordered(gathered(cs));
    lemma_first_titles_ordered(by_priority(gathered(cs)));
    lemma_first_titles_from(by_priority(gathered(cs)));
}

/// A check failed badly: an error scoring below 40 percent.
pub open spec fn critical_failure(c: CheckView) -> bool {
    c.status == DiagnosticStatus::Error && c.score.below(40)
}

/// The names of the checks that failed badly, in order.
pub open spec fn critical_names(cs: Seq<CheckView>) -> Seq<Seq<char>>
    decreases cs.len(),
{
    if cs.len() == 0 {
        Seq::empty()
    } else if critical_failure(cs.last()) {
        critical_names(cs.drop_last()).push(cs.last().check_name)
    } else {
        critical_names(cs.drop_last())
    }
}

/// Some check of the given name ended in an error.
pub open spec fn failed_named(cs: Seq<CheckView>, name: Seq<char>) -> bool {
    exists|i: int|
        0 <= i < cs.len() && #[trigger] cs[i].check_name == name && cs[i].status
            == DiagnosticStatus::Error
}

/// The suggestion made when checks failed badly, naming them.
pub open spec fn critical_suggestion(names: Seq<Seq<char>>) -> SuggestionView {
    SuggestionView {
        category: SuggestionCategory::General,
        priority: SuggestionPriority::Critical,
        title: "Critical Integration Issues Detected"@,
        description: "Multiple critical issues detected that prevent SSM connectivity"@,
        action_items: seq![
            "Address credential issues first as they affect all other checks"@,
            "Fix IAM permissions before configuring network settings"@,
            "Ensure VPC configuration is correct before modifying security groups"@,
            "Test connectivity after each fix to verify improvements"@,
        ],
        estimated_impact: 40,
        related_checks: names,
    }
}

/// The suggestion made when both the credential and the IAM check failed.
pub open spec fn dependency_suggestion() -> SuggestionView {
    SuggestionView {
        category: SuggestionCategory::General,
        priority: SuggestionPriority::Critical,
        title: "Dependency Chain Issues"@,
        description: "Credential and IAM issues create a dependency chain that must be resolved in order"@,
        action_items: seq![
            "1. Fix AWS credential configuration first"@,
            "2. Verify IAM permissions after credentials are working"@,
            "3. Test network configuration after IAM is resolved"@,
            "4. Re-run validation to verify all fixes"@,
        ],
        estimated_impact: 50,
        related_checks: seq!["credentials"@, "iam_permissions"@],
    }
}

/// The suggestions of the integrated validation: the dependency-chain
/// suggestion when credentials and IAM both failed, then the suggestion on
/// badly failed checks when there are any, then the checks' own suggestions.
pub open spec fn integrated_list(cs: Seq<CheckView>) -> Seq<SuggestionView> {
    (if failed_named(cs, "credentials"@) && failed_named(cs, "iam_permissions"@) {
        seq![dependency_suggestion()]
    } else {
        Seq::empty()
    }) + (if critical_names(cs).len() > 0 {
        seq![critical_suggestion(critical_names(cs))]
    } else {
        Seq::empty()
    }) + improvement_list(cs)
}

fn critical_check_names(results: &Vec<ValidationCheckResult>) -> (v: Vec<String>)
    ensures
        strings_view(v@) == critical_names(checks_view(results@)),
{
    let mut v: Vec<String> = Vec::new();
    let mut i: usize = 0;
    while i < results.len()
        invariant
            i <= results.len(),
            strings_view(v@) == critical_names(checks_view(results@.subrange(0, i as int))),
        decreases results.len() - i,
    {
        let ghost w = v@;
        let ghost cs = checks_view(results@.subrange(0, i + 1));
        assert(cs.drop_last() =~= checks_view(results@.subrange(0, i as int)));
        assert(cs.last() == results@[i as int]@);
        let failed = match results[i].status {
            DiagnosticStatus::Error => true,
            _ => false,
        };
        if failed && results[i].score.is_below(40) {
            v.push(results[i].check_name.clone());
            assert(strings_view(v@) =~= strings_view(w).push(results@[i as int].check_name@));
        }
        i = i + 1;
    }
    assert(results@.subrange(0, results@.len() as int) =~= results@);
    v
}

fn any_failed_named(results: &Vec<ValidationCheckResult>, name: &str) -> (b: bool)
    ensures
        b == failed_named(checks_view(results@), name@),
{
    let ghost cs = checks_view(results@);
    let mut i: usize = 0;
    while i < results.len()
        invariant
            i <= results.len(),
            cs == checks_view(results@),
            forall|j: int|
                0 <= j < i ==> !(#[trigger] cs[j].check_name == name@ && cs[j].status
                    == DiagnosticStatus::Error),
        decreases results.len() - i,
    {
        let failed = match results[i].status {
            DiagnosticStatus::Error => true,
            _ => false,
        };
        if failed && crate::text::str_eq(results[i].check_name.as_str(), name) {
            assert(cs[i as int].check_name == name@);
            return true;
        }
        i = i + 1;
    }
    false
}

fn strings4(a: &str, b: &str, c: &str, d: &str) -> (v: Vec<String>)
    ensures
        strings_view(v@) == seq![a@, b@, c@, d@],
{
    let v = vec![String::from_str(a), String::from_str(b), String::from_str(c), String::from_str(d)];
    assert(strings_view(v@) =~= seq![a@, b@, c@, d@]);
    v
}

/// The improvement suggestions of the integrated validation: the checks'
/// own suggestions, preceded by one on badly failed checks (errors below 40
/// percent) when there are any, and before all by one on the dependency
/// chain when both the credential and the IAM check failed.
pub fn integrated_improvement_suggestions(results: &Vec<ValidationCheckResult>) -> (r: Vec<
    ImprovementSuggestion,
>)
    ensures
        suggestions_view(r@) == integrated_list(checks_view(results@)),
{
    let base = improvement_suggestions(results);
    let names = critical_check_names(results);
    let mut r: Vec<ImprovementSuggestion> = Vec::new();
    let ghost cs = checks_view(results@);
    if any_failed_named(results, "credentials") && any_failed_named(results, "iam_permissions") {
        let s = make_suggestion(
            SuggestionCategory::General,
            SuggestionPriority::Critical,
            "Dependency Chain Issues",
            "Credential and IAM issues create a dependency chain that must be resolved in order",
            strings4(
                "1. Fix AWS credential configuration first",
                "2. Verify IAM permissions after credentials are working",
                "3. Test network configuration after IAM is resolved",
                "4. Re-run validation to verify all fixes",
            ),
            50,
            vec![String::from_str("credentials"), String::from_str("iam_permissions")],
        );
        assert(s@.related_checks =~= seq!["credentials"@, "iam_permissions"@]);
        r.push(s);
    }
    let ghost front = suggestions_view(r@);
    assert(front =~= (if failed_named(cs, "credentials"@) && failed_named(cs, "iam_permissions"@) {
        seq![dependency_suggestion()]
    } else {
        Seq::empty()
    }));
    if names.len() > 0 {
        let s = make_suggestion(
            SuggestionCategory::General,
            SuggestionPriority::Critical,
            "Critical Integration Issues Detected",
            "Multiple critical issues detected that prevent SSM connectivity",
            strings4(
                "Address credential issues first as they affect all other checks",
                "Fix IAM permissions before configuring network settings",
                "Ensure VPC configuration is correct before modifying security groups",
                "Test connectivity after each fix to verify improvements",
            ),
            40,
            names,
        );
        r.push(s);
    }
    let ghost middle = suggestions_view(r@);
    assert(middle =~= front + (if critical_names(cs).len() > 0 {
        seq![critical_suggestion(critical_names(cs))]
    } else {
        Seq::empty()
    }));
    let mut i: usize = 0;
    while i < base.len()
        invariant
            i <= base.len(),
            suggestions_view(r@) == middle + suggestions_view(base@).subrange(0, i as int),
        decreases base.len() - i,
    {
        let ghost w = r@;
        r.push(base[i].clone());
        assert(suggestions_view(r@) =~= suggestions_view(w).push(base@[i as int]@));
        assert(suggestions_view(base@).subrange(0, i + 1) =~= suggestions_view(base@).subrange(
            0,
            i as int,
        ).push(base@[i as int]@));
        i = i + 1;
    }
    assert(suggestions_view(base@).subrange(0, base@.len() as int) =~= suggestions_view(base@));
    r
}

/// The title is one of the four areas' suggestion titles.
pub open spec fn area_title(t: Seq<char>) -> bool {
    ||| t == "AWS Credentials Configuration"@
    ||| t == "IAM Permissions for SSM"@
    ||| t == "VPC Endpoints for SSM"@
    ||| t == "Security Group Rules for SSM"@
}

proof fn lemma_gathered_titles(cs: Seq<CheckView>)
    ensures
        forall|i: int| 0 <= i < gathered(cs).len() ==> area_title(#[trigger] gathered(cs)[i].title),
    decreases cs.len(),
{
    if cs.len() > 0 {
        lemma_gathered_titles(cs.drop_last());
        let g = gathered(cs);
        let p = gathered(cs.drop_last());
        assert forall|i: int| 0 <= i < g.len() implies area_title(#[trigger] g[i].title) by {
            if i < p.len() {
                assert(g[i] == p[i]);
            }
        }
    }
}

proof fn lemma_with_rank_from(s: Seq<SuggestionView>, k: nat)
    ensures
        forall|i: int| 0 <= i < with_rank(s, k).len() ==> s.contains(#[trigger] with_rank(s, k)[i]),
    decreases s.len(),
{
    if s.len() > 0 {
        let p = s.drop_last();
        lemma_with_rank_from(p, k);
        let w = with_rank(s, k);
        let q = with_rank(p, k);
        assert forall|i: int| 0 <= i < w.len() implies s.contains(#[trigger] w[i]) by {
            if i < q.len() {
                assert(w[i] == q[i]);
                let m = choose|m: int| 0 <= m < p.len() && p[m] == q[i];
                assert(s[m] == w[i]);
            } else {
                assert(s[s.len() - 1] == w[i]);
            }
        }
    }
}

proof fn lemma_improvement_titles(cs: Seq<CheckView>)
    ensures
        forall|i: int|
            0 <= i < improvement_list(cs).len() ==> area_title(#[trigger] improvement_list(cs)[i].title),
{
    let g = gathered(cs);
    let b = by_priority(g);
    lemma_gathered_titles(cs);
    lemma_with_rank_from(g, 0);
    lemma_with_rank_from(g, 1);
    lemma_with_rank_from(g, 2);
    lemma_with_rank_from(g, 3);
    assert forall|i: int| 0 <= i < b.len() implies area_title(#[trigger] b[i].title) by {
        let a0 = with_rank(g, 0);
        let a1 = with_rank(g, 1);
        let a2 = with_rank(g, 2);
        let a3 = with_rank(g, 3);
        if i < a0.len() {
            assert(b[i] == a0[i]);
            assert(g.contains(a0[i]));
        } else if i < a0.len() + a1.len() {
            assert(b[i] == a1[i - a0.len()]);
            assert(g.contains(a1[i - a0.len()]));
        } else if i < a0.len() + a1.len() + a2.len() {
            assert(b[i] == a2[i - a0.len() - a1.len()]);
            assert(g.contains(a2[i - a0.len() - a1.len()]));
        } else {
            assert(b[i] == a3[i - a0.len() - a1.len() - a2.len()]);
            assert(g.contains(a3[i - a0.len() - a1.len() - a2.len()]));
        }
    }
    lemma_first_titles_from(b);
    let f = first_titles(b);
    assert forall|i: int| 0 <= i < f.len() implies area_title(#[trigger] f[i].title) by {
        assert(b.contains(f[i]));
    }
}

/// Law: the suggestions of the integrated validation also come most urgent
/// first with no title twice: the two it adds are critical and have titles
/// of their own.
pub proof fn lemma_integrated_ordered_and_distinct(cs: Seq<CheckView>)
    ensures
        ordered_by_priority(integrated_list(cs)),
        distinct_titles(integrated_list(cs)),
{
    lemma_improvements_ordered_and_distinct(cs);
    lemma_improvement_titles(cs);
    reveal_strlit("Dependency Chain Issues");
    reveal_strlit("Critical Integration Issues Detected");
    reveal_strlit("AWS Credentials Configuration");
    reveal_strlit("IAM Permissions for SSM");
    reveal_strlit("VPC Endpoints for SSM");
    reveal_strlit("Security Group Rules for SSM");
    let front = if failed_named(cs, "credentials"@) && failed_named(cs, "iam_permissions"@) {
        seq![dependency_suggestion()]
    } else {
        Seq::empty()
    };
    let mid = if critical_names(cs).len() > 0 {
        seq![critical_suggestion(critical_names(cs))]
    } else {
        Seq::empty()
    };
    let base = improvement_list(cs);
    let r = integrated_list(cs);
    let h = front.len() + mid.len();
    let dt = dependency_suggestion().title;
    let ct = critical_suggestion(critical_names(cs)).title;
    assert(dt[0] != "IAM Permissions for SSM"@[0]);
    assert(!area_title(dt));
    assert(ct.len() == 36);
    assert("AWS Credentials Configuration"@.len() == 29);
    assert("IAM Permissions for SSM"@.len() == 23);
    assert("VPC Endpoints for SSM"@.len() == 21);
    assert("Security Group Rules for SSM"@.len() == 28);
    assert(!area_title(ct));
    assert(dt != ct);
    assert(r == front + mid + base);
    assert forall|i: int| 0 <= i < r.len() implies (i < h ==> priority_rank(r[i].priority) == 0
        && !area_title(r[i].title)) && (i >= h ==> r[i] == base[i - h]) by {
        if i < front.len() {
            assert(r[i] == front[i]);
        } else if i < h {
            assert(r[i] == mid[i - front.len()]);
        }
    }
    if front.len() == 1 && mid.len() == 1 {
        assert(r[0] == front[0] && r[1] == mid[0]);
    }
}

/// The points an IAM diagnostic earns: full for a success, 70 for a
/// warning, 20 for an error and half for a skipped check.
pub open spec fn iam_item_points(st: DiagnosticStatus) -> nat {
    match st {
        DiagnosticStatus::Success => 100,
        DiagnosticStatus::Warning => 70,
        DiagnosticStatus::Error => 20,
        DiagnosticStatus::Skipped => 50,
    }
}

/// The points of all IAM diagnostics.
pub open spec fn iam_points(ds: Seq<DiagnosticResult>) -> nat
    decreases ds.len(),
{
    if ds.len() == 0 {
        0
    } else {
        iam_points(ds.drop_last()) + iam_item_points(ds.last().status)
    }
}

/// The IAM score: the average of the diagnostics' points, zero without any.
pub open spec fn iam_score(ds: Seq<DiagnosticResult>) -> Score {
    if ds.len() == 0 {
        Score::whole_spec(0)
    } else {
        Score { points: iam_points(ds) as u64, parts: ds.len() as u64 }
    }
}

/// The IAM status: an error if some diagnostic failed critically, a warning
/// if some failed otherwise, a success if none failed.
pub open spec fn iam_status(ds: Seq<DiagnosticResult>) -> DiagnosticStatus {
    if exists|i: int|
        0 <= i < ds.len() && #[trigger] ds[i].status == DiagnosticStatus::Error && ds[i].severity
            == Severity::Critical {
        DiagnosticStatus::Error
    } else if exists|i: int| 0 <= i < ds.len() && #[trigger] ds[i].status == DiagnosticStatus::Error {
        DiagnosticStatus::Warning
    } else {
        DiagnosticStatus::Success
    }
}

/// The line of one diagnostic: its name and message.
pub open spec fn item_line(d: DiagnosticResult) -> Seq<char> {
    d.item_name@ + ": "@ + d.message@
}

/// The lines of the diagnostics.
pub open spec fn item_lines(ds: Seq<DiagnosticResult>) -> Seq<Seq<char>> {
    ds.map_values(|d: DiagnosticResult| item_line(d))
}

/// The IAM message: the diagnostics' lines separated by `"; "`.
pub open spec fn iam_message(ds: Seq<DiagnosticResult>) -> Seq<char> {
    if ds.len() == 0 {
        "No IAM diagnostics performed"@
    } else {
        crate::text::joined(item_lines(ds), "; "@)
    }
}

/// The action items of an optional suggestion.
pub open spec fn suggestion_items(o: Option<SuggestionView>) -> Seq<Seq<char>> {
    match o {
        Some(s) => s.action_items,
        None => Seq::empty(),
    }
}

/// The IAM check made from the IAM diagnostics.
pub open spec fn iam_check_view(ds: Seq<DiagnosticResult>) -> CheckView {
    CheckView {
        check_name: "iam_permissions"@,
        status: iam_status(ds),
        message: iam_message(ds),
        score: iam_score(ds),
        weight_percent: 30,
        details: None,
        improvement_suggestions: suggestion_items(
            area_suggestion(ValidationArea::IamPermissions, iam_score(ds), "iam_permissions"@),
        ),
    }
}

fn items_of(o: Option<ImprovementSuggestion>) -> (v: Vec<String>)
    ensures
        strings_view(v@) == suggestion_items(
            match o {
                Some(s) => Some(s@),
                None => None,
            },
        ),
{
    match o {
        Some(s) => s.action_items,
        None => {
            let v: Vec<String> = Vec::new();
            assert(strings_view(v@) =~= Seq::empty());
            v
        },
    }
}

/// The IAM check made from the IAM diagnostics: their average points as the
/// score, the status of the worst failure, their lines as the message and
/// the action items of the IAM suggestion as its suggestions. The caller
/// attaches the details.
pub fn iam_check(ds: &Vec<DiagnosticResult>) -> (r: ValidationCheckResult)
    requires
        ds.len() <= MAX_PARTS,
    ensures
        r@ == iam_check_view(ds@),
        r.score.wf(),
{
    let mut points: u64 = 0;
    let mut critical = false;
    let mut failed = false;
    let mut lines: Vec<String> = Vec::new();
    let mut i: usize = 0;
    while i < ds.len()
        invariant
            i <= ds.len() <= MAX_PARTS,
            points == iam_points(ds@.subrange(0, i as int)),
            points <= 100 * i,
            critical == exists|j: int|
                0 <= j < i && #[trigger] ds@[j].status == DiagnosticStatus::Error && ds@[j].severity
                    == Severity::Critical,
            failed == exists|j: int| 0 <= j < i && #[trigger] ds@[j].status == DiagnosticStatus::Error,
            strings_view(lines@) == item_lines(ds@.subrange(0, i as int)),
        decreases ds.len() - i,
    {
        let d = &ds[i];
        let ghost pre = ds@.subrange(0, i as int);
        let ghost next = ds@.subrange(0, i + 1);
        assert(next.drop_last() =~= pre);
        let p: u64 = match d.status {
            DiagnosticStatus::Success => 100,
            DiagnosticStatus::Warning => 70,
            DiagnosticStatus::Error => 20,
            DiagnosticStatus::Skipped => 50,
        };
        points = points + p;
        match d.status {
            DiagnosticStatus::Error => {
                failed = true;
                match d.severity {
                    Severity::Critical => {
                        critical = true;
                    },
                    _ => {},
                }
            },
            _ => {},
        }
        let mut line = concat2(d.item_name.as_str(), ": ");
        line.append(d.message.as_str());
        let ghost w = lines@;
        lines.push(line);
        assert(strings_view(lines@) =~= strings_view(w).push(item_line(ds@[i as int])));
        assert(item_lines(next) =~= item_lines(pre).push(item_line(ds@[i as int])));
        i = i + 1;
    }
    assert(ds@.subrange(0, ds@.len() as int) =~= ds@);
    let n = ds.len();
    let score = if n == 0 {
        Score::whole(0)
    } else {
        Score { points, parts: n as u64 }
    };
    let status = if critical {
        DiagnosticStatus::Error
    } else if failed {
        DiagnosticStatus::Warning
    } else {
        DiagnosticStatus::Success
    };
    let message = if n == 0 {
        String::from_str("No IAM diagnostics performed")
    } else {
        crate::text::join_strings(&lines, "; ")
    };
    let name = String::from_str("iam_permissions");
    let suggestion = area_suggestion_for(ValidationArea::IamPermissions, score, &name);
    let items = items_of(suggestion);
    ValidationCheckResult::new(name, status, message, score, 30).with_suggestions(items)
}

/// The check of an area made from its diagnostic: the diagnostic's check
/// result with the area's weight, carrying the action items of the area's
/// suggestion for its score.
pub fn area_check(a: ValidationArea, d: DiagnosticResult) -> (r: ValidationCheckResult)
    ensures
        r.check_name@ == d.item_name@,
        r.status == d.status,
        r.message@ == d.message@,
        r.score == Score::whole_spec(diagnostic_points(d.status, d.severity)),
        r.score.wf(),
        r.weight_percent == area_weight(a),
        d.details is Some ==> r.details == d.details,
        d.details is None ==> r.details is Some && crate::json::json_is_object(r.details->0)
            && forall|k: Seq<char>| #[trigger] crate::json::json_member(r.details->0, k) is None,
        r@.improvement_suggestions == suggestion_items(
            area_suggestion(a, Score::whole_spec(diagnostic_points(d.status, d.severity)), d.item_name@),
        ),
{
    let c = check_from_diagnostic(d, a.weight_percent());
    let suggestion = area_suggestion_for(a, c.score, &c.check_name);
    let items = items_of(suggestion);
    c.with_suggestions(items)
}

/// How many checks ended with each status.
#[derive(Debug, Clone, Copy, PartialEq, Eq, Structural)]
pub struct CheckTally {
    pub total: usize,
    pub passed: usize,
    pub warnings: usize,
    pub failed: usize,
    pub skipped: usize,
}

/// The number of checks with the given status.
pub open spec fn status_count(cs: Seq<CheckView>, st: DiagnosticStatus) -> nat
    decreases cs.len(),
{
    if cs.len() == 0 {
        0
    } else {
        status_count(cs.drop_last(), st) + if cs.last().status == st {
            1nat
        } else {
            0nat
        }
    }
}

/// Counts the checks by status.
pub fn check_tally(results: &Vec<ValidationCheckResult>) -> (t: CheckTally)
    ensures
        t.total == results.len(),
        t.passed == status_count(checks_view(results@), DiagnosticStatus::Success),
        t.warnings == status_count(checks_view(results@), DiagnosticStatus::Warning),
        t.failed == status_count(checks_view(results@), DiagnosticStatus::Error),
        t.skipped == status_count(checks_view(results@), DiagnosticStatus::Skipped),
{
    let mut t = CheckTally { total: results.len(), passed: 0, warnings: 0, failed: 0, skipped: 0 };
    let mut i: usize = 0;
    while i < results.len()
        invariant
            i <= results.len(),
            t.total == results.len(),
            t.passed == status_count(checks_view(results@.subrange(0, i as int)), DiagnosticStatus::Success),
            t.warnings == status_count(checks_view(results@.subrange(0, i as int)), DiagnosticStatus::Warning),
            t.failed == status_count(checks_view(results@.subrange(0, i as int)), DiagnosticStatus::Error),
            t.skipped == status_count(checks_view(results@.subrange(0, i as int)), DiagnosticStatus::Skipped),
            t.passed + t.warnings + t.failed + t.skipped == i,
        decreases results.len() - i,
    {
        let ghost cs = checks_view(results@.subrange(0, i + 1));
        assert(cs.drop_last() =~= checks_view(results@.subrange(0, i as int)));
        assert(cs.last() == results@[i as int]@);
        match results[i].status {
            DiagnosticStatus::Success => {
                t.passed = t.passed + 1;
            },
            DiagnosticStatus::Warning => {
                t.warnings = t.warnings + 1;
            },
            DiagnosticStatus::Error => {
                t.failed = t.failed + 1;
            },
            DiagnosticStatus::Skipped => {
                t.skipped = t.skipped + 1;
            },
        }
        i = i + 1;
    }
    assert(results@.subrange(0, results@.len() as int) =~= results@);
    t
}

/// The view of an optional check result.
pub open spec fn opt_check(r: Option<ValidationCheckResult>) -> Option<CheckView> {
    match r {
        Some(c) => Some(c@),
        None => None,
    }
}

/// A check's result if it was asked for and ran.
pub open spec fn picked(wanted: bool, r: Option<CheckView>) -> Seq<CheckView> {
    match r {
        Some(c) if wanted => seq![c],
        _ => Seq::empty(),
    }
}

fn pick_into(wanted: bool, r: Option<ValidationCheckResult>, out: &mut Vec<ValidationCheckResult>)
    ensures
        checks_view(final(out)@) == checks_view(old(out)@) + picked(wanted, opt_check(r)),
{
    let ghost w = out@;
    match r {
        Some(c) => {
            if wanted {
                out.push(c);
                assert(checks_view(out@) =~= checks_view(w) + picked(wanted, opt_check(r)));
            } else {
                assert(checks_view(out@) =~= checks_view(w) + picked(wanted, opt_check(r)));
            }
        },
        None => {
            assert(checks_view(out@) =~= checks_view(w) + picked(wanted, opt_check(r)));
        },
    }
}

/// The checks to report: of the credential, IAM, VPC and security group
/// checks, in that order, each one that was asked for and ran.
pub fn selected_checks(
    include_credentials: bool,
    include_iam: bool,
    include_vpc: bool,
    include_security_groups: bool,
    credentials: Option<ValidationCheckResult>,
    iam: Option<ValidationCheckResult>,
    vpc: Option<ValidationCheckResult>,
    security_groups: Option<ValidationCheckResult>,
) -> (v: Vec<ValidationCheckResult>)
    ensures
        checks_view(v@) == picked(include_credentials, opt_check(credentials)) + picked(
            include_iam,
            opt_check(iam),
        ) + picked(include_vpc, opt_check(vpc)) + picked(
            include_security_groups,
            opt_check(security_groups),
        ),
{
    let mut v: Vec<ValidationCheckResult> = Vec::new();
    assert(checks_view(v@) =~= Seq::empty());
    pick_into(include_credentials, credentials, &mut v);
    pick_into(include_iam, iam, &mut v);
    pick_into(include_vpc, vpc, &mut v);
    pick_into(include_security_groups, security_groups, &mut v);
    v
}

/// The status a score earns: a success from 80 percent, a warning from 60,
/// an error below.
pub open spec fn status_for(s: Score) -> DiagnosticStatus {
    if !s.below(80) {
        DiagnosticStatus::Success
    } else if !s.below(60) {
        DiagnosticStatus::Warning
    } else {
        DiagnosticStatus::Error
    }
}

/// A check's message followed by the results of the integration checks.
pub open spec fn with_integration_lines(base: Seq<char>, lines: Seq<Seq<char>>) -> Seq<char> {
    base + "\n\nIntegration Results:\n"@ + crate::text::joined(lines, "\n"@)
}

/// The result of an integrated check: the basic check's score moved by the
/// adjustment, the status that score earns, the basic message with the
/// integration lines, the area's name and weight, and the given suggestions.
pub open spec fn integrated_view(
    a: ValidationArea,
    basic: CheckView,
    adjustment: int,
    lines: Seq<Seq<char>>,
    suggestions: Seq<Seq<char>>,
) -> CheckView {
    let score = basic.score.shifted(adjustment);
    CheckView {
        check_name: area_name(a),
        status: status_for(score),
        message: with_integration_lines(basic.message, lines),
        score: score,
        weight_percent: area_weight(a),
        details: None,
        improvement_suggestions: suggestions,
    }
}

/// The adjustment an area's check gets from the check it depends on: the
/// IAM check from the credential check, the VPC check from the IAM check,
/// the security group check from the VPC check; a penalty when that check
/// is missing or scored low, a small bonus when it scored 80 or more.
pub open spec fn dependency_delta(a: ValidationArea, prior: Option<Score>) -> int {
    match a {
        ValidationArea::Credentials => 0,
        ValidationArea::IamPermissions => match prior {
            None => -30,
            Some(s) => if s.below(60) {
                -20
            } else if s.below(80) {
                -10
            } else {
                5
            },
        },
        ValidationArea::VpcConfiguration => match prior {
            None => -20,
            Some(s) => if s.below(60) {
                -15
            } else if s.below(80) {
                -5
            } else {
                3
            },
        },
        ValidationArea::SecurityGroups => match prior {
            None => -15,
            Some(s) => if s.below(60) {
                -10
            } else if s.below(80) {
                -3
            } else {
                2
            },
        },
    }
}

/// The name of the dependency in the line reporting its adjustment.
pub open spec fn dependency_label(a: ValidationArea) -> Seq<char> {
    match a {
        ValidationArea::Credentials => ""@,
        ValidationArea::IamPermissions => "Credential dependency adjustment: "@,
        ValidationArea::VpcConfiguration => "IAM dependency adjustment: "@,
        ValidationArea::SecurityGroups => "VPC dependency adjustment: "@,
    }
}

/// The line reporting a dependency adjustment, with one decimal.
pub open spec fn dependency_line(a: ValidationArea, delta: int) -> Seq<char> {
    dependency_label(a) + crate::text::signed_decimal(delta) + ".0"@
}

/// The advice put first when the dependency cost points.
pub open spec fn dependency_advice(a: ValidationArea) -> Seq<char> {
    match a {
        ValidationArea::Credentials => ""@,
        ValidationArea::IamPermissions => "Fix credential issues before addressing IAM permissions"@,
        ValidationArea::VpcConfiguration => "Ensure IAM permissions are sufficient before configuring VPC endpoints"@,
        ValidationArea::SecurityGroups => "Address VPC configuration issues before modifying security groups"@,
    }
}

/// The suggestions of a dependent check: the dependency advice first when
/// the dependency cost points.
pub open spec fn dependent_suggestions(a: ValidationArea, delta: int, basic: Seq<Seq<char>>) -> Seq<
    Seq<char>,
> {
    if delta < 0 {
        seq![dependency_advice(a)] + basic
    } else {
        basic
    }
}

/// What an integrated check reports: its result, the basic score, the
/// dependency adjustment (for the checks that depend on another), the total
/// adjustment and the lines of the integration checks.
#[derive(Debug)]
pub struct IntegratedCheck {
    pub result: ValidationCheckResult,
    pub basic_score: Score,
    pub dependency_adjustment: Option<i64>,
    pub adjustment: i64,
    pub integration_messages: Vec<String>,
}

fn dependency_label_text(a: ValidationArea) -> (s: &'static str)
    ensures
        s@ == dependency_label(a),
{
    match a {
        ValidationArea::Credentials => "",
        ValidationArea::IamPermissions => "Credential dependency adjustment: ",
        ValidationArea::VpcConfiguration => "IAM dependency adjustment: ",
        ValidationArea::SecurityGroups => "VPC dependency adjustment: ",
    }
}

fn dependency_advice_text(a: ValidationArea) -> (s: &'static str)
    ensures
        s@ == dependency_advice(a),
{
    match a {
        ValidationArea::Credentials => "",
        ValidationArea::IamPermissions => "Fix credential issues before addressing IAM permissions",
        ValidationArea::VpcConfiguration => "Ensure IAM permissions are sufficient before configuring VPC endpoints",
        ValidationArea::SecurityGroups => "Address VPC configuration issues before modifying security groups",
    }
}

fn dependency_delta_of(a: ValidationArea, prior: Option<Score>) -> (d: i64)
    ensures
        d == dependency_delta(a, prior),
        -30 <= d <= 5,
{
    match a {
        ValidationArea::Credentials => 0,
        ValidationArea::IamPermissions => match prior {
            None => -30,
            Some(s) => if s.is_below(60) {
                -20
            } else if s.is_below(80) {
                -10
            } else {
                5
            },
        },
        ValidationArea::VpcConfiguration => match prior {
            None => -20,
            Some(s) => if s.is_below(60) {
                -15
            } else if s.is_below(80) {
                -5
            } else {
                3
            },
        },
        ValidationArea::SecurityGroups => match prior {
            None => -15,
            Some(s) => if s.is_below(60) {
                -10
            } else if s.is_below(80) {
                -3
            } else {
                2
            },
        },
    }
}

fn dependency_line_text(a: ValidationArea, delta: i64) -> (s: String)
    ensures
        s@ == dependency_line(a, delta as int),
{
    let n = crate::text::signed_decimal_string(delta);
    let mut s = concat2(dependency_label_text(a), n.as_str());
    s.append(".0");
    s
}

fn status_of(s: Score) -> (st: DiagnosticStatus)
    ensures
        st == status_for(s),
{
    if !s.is_below(80) {
        DiagnosticStatus::Success
    } else if !s.is_below(60) {
        DiagnosticStatus::Warning
    } else {
        DiagnosticStatus::Error
    }
}

fn integrate(
    a: ValidationArea,
    basic: ValidationCheckResult,
    dependency: Option<i64>,
    adjustment: i64,
    lines: Vec<String>,
    suggestions: Vec<String>,
) -> (r: IntegratedCheck)
    requires
        basic.score.wf(),
        -100 <= adjustment <= 100,
    ensures
        r.result@ == integrated_view(
            a,
            basic@,
            adjustment as int,
            strings_view(lines@),
            strings_view(suggestions@),
        ),
        r.result.score.wf(),
        r.basic_score == basic.score,
        r.dependency_adjustment == dependency,
        r.adjustment == adjustment,
        strings_view(r.integration_messages@) == strings_view(lines@),
{
    let score = basic.score.shift(adjustment);
    let joined = crate::text::join_strings(&lines, "\n");
    let mut message = concat2(basic.message.as_str(), "\n\nIntegration Results:\n");
    message.append(joined.as_str());
    let result = ValidationCheckResult::new(
        String::from_str(a.check_name()),
        status_of(score),
        message,
        score,
        a.weight_percent(),
    ).with_suggestions(suggestions);
    IntegratedCheck {
        result,
        basic_score: basic.score,
        dependency_adjustment: dependency,
        adjustment,
        integration_messages: lines,
    }
}

fn prepend_advice(a: ValidationArea, delta: i64, basic: &Vec<String>) -> (v: Vec<String>)
    ensures
        strings_view(v@) == dependent_suggestions(a, delta as int, strings_view(basic@)),
{
    let mut v: Vec<String> = Vec::new();
    if delta < 0 {
        v.push(String::from_str(dependency_advice_text(a)));
    }
    let ghost front = strings_view(v@);
    let mut i: usize = 0;
    while i < basic.len()
        invariant
            i <= basic.len(),
            strings_view(v@) == front + strings_view(basic@).subrange(0, i as int),
        decreases basic.len() - i,
    {
        let ghost w = v@;
        v.push(basic[i].clone());
        assert(strings_view(v@) =~= strings_view(w).push(basic@[i as int]@));
        assert(strings_view(basic@).subrange(0, i + 1) =~= strings_view(basic@).subrange(
            0,
            i as int,
        ).push(basic@[i as int]@));
        i = i + 1;
    }
    assert(strings_view(basic@).subrange(0, basic@.len() as int) =~= strings_view(basic@));
    assert(strings_view(v@) =~= dependent_suggestions(a, delta as int, strings_view(basic@)));
    v
}

/// What the EC2 probe of the credentials adds: 10 when it worked, minus 15
/// when it did not.
pub open spec fn ec2_probe_delta(ec2: Result<(), String>) -> int {
    match ec2 {
        Ok(_) => 10,
        Err(_) => -15,
    }
}

/// The line of the EC2 probe of the credentials.
pub open spec fn ec2_probe_line(ec2: Result<(), String>) -> Seq<char> {
    match ec2 {
        Ok(_) => "✅ Credentials work with EC2 service"@,
        Err(e) => "❌ Credentials may not work with EC2 service: "@ + e@,
    }
}

/// What the SSM probe of the credentials adds: 10 when its diagnostic
/// succeeded, minus 15 otherwise.
pub open spec fn ssm_probe_delta(ssm: Result<DiagnosticResult, String>) -> int {
    match ssm {
        Ok(d) => if d.status == DiagnosticStatus::Success {
            10
        } else {
            -15
        },
        Err(_) => -15,
    }
}

/// The line of the SSM probe of the credentials.
pub open spec fn ssm_probe_line(ssm: Result<DiagnosticResult, String>) -> Seq<char> {
    match ssm {
        Ok(d) => if d.status == DiagnosticStatus::Success {
            "✅ Credentials work with SSM service"@
        } else {
            "❌ Credentials may not work with SSM service: "@ + d.message@
        },
        Err(e) => "❌ Credentials may not work with SSM service: "@ + e@,
    }
}

/// The advice added when the credential probes cost points.
pub open spec fn credential_probe_advice() -> Seq<Seq<char>> {
    seq![
        "Verify credentials have access to both EC2 and SSM services"@,
        "Check if credentials are configured for the correct region"@,
    ]
}

/// The integrated credential check: the basic credential check adjusted by
/// whether the credentials worked with EC2 and with SSM, reporting both
/// probes, with advice added when they cost points.
pub fn integrated_credentials(
    basic: ValidationCheckResult,
    ec2: Result<(), String>,
    ssm: Result<DiagnosticResult, String>,
) -> (r: IntegratedCheck)
    requires
        basic.score.wf(),
    ensures
        r.result@ == integrated_view(
            ValidationArea::Credentials,
            basic@,
            ec2_probe_delta(ec2) + ssm_probe_delta(ssm),
            seq![ec2_probe_line(ec2), ssm_probe_line(ssm)],
            if ec2_probe_delta(ec2) + ssm_probe_delta(ssm) < 0 {
                basic@.improvement_suggestions + credential_probe_advice()
            } else {
                basic@.improvement_suggestions
            },
        ),
        r.result.score.wf(),
        r.basic_score == basic.score,
        r.dependency_adjustment is None,
        r.adjustment == ec2_probe_delta(ec2) + ssm_probe_delta(ssm),
        strings_view(r.integration_messages@) == seq![ec2_probe_line(ec2), ssm_probe_line(ssm)],
{
    let (d1, l1): (i64, String) = match &ec2 {
        Ok(_) => (10, String::from_str("✅ Credentials work with EC2 service")),
        Err(e) => (-15, concat2("❌ Credentials may not work with EC2 service: ", e.as_str())),
    };
    let (d2, l2): (i64, String) = match &ssm {
        Ok(d) => match d.status {
            DiagnosticStatus::Success => (10, String::from_str("✅ Credentials work with SSM service")),
            _ => (-15, concat2("❌ Credentials may not work with SSM service: ", d.message.as_str())),
        },
        Err(e) => (-15, concat2("❌ Credentials may not work with SSM service: ", e.as_str())),
    };
    let adjustment = d1 + d2;
    let lines = vec![l1, l2];
    assert(strings_view(lines@) =~= seq![ec2_probe_line(ec2), ssm_probe_line(ssm)]);
    let mut suggestions = crate::text::clone_strings(&basic.improvement_suggestions);
    if adjustment < 0 {
        suggestions.push(String::from_str("Verify credentials have access to both EC2 and SSM services"));
        suggestions.push(String::from_str("Check if credentials are configured for the correct region"));
    }
    assert(strings_view(suggestions@) =~= (if adjustment < 0 {
        basic@.improvement_suggestions + credential_probe_advice()
    } else {
        basic@.improvement_suggestions
    }));
    integrate(ValidationArea::Credentials, basic, None, adjustment, lines, suggestions)
}

/// What the instance probe of the IAM check adds: 5 when the instance's
/// state check succeeded, minus 10 when it did not, minus 15 when it could
/// not run.
pub open spec fn instance_probe_delta(probe: Result<DiagnosticResult, String>) -> int {
    match probe {
        Ok(d) => if d.status == DiagnosticStatus::Success {
            5
        } else {
            -10
        },
        Err(_) => -15,
    }
}

/// The line of the instance probe of the IAM check.
pub open spec fn instance_probe_line(probe: Result<DiagnosticResult, String>) -> Seq<char> {
    match probe {
        Ok(d) => if d.status == DiagnosticStatus::Success {
            "✅ IAM permissions allow instance access"@
        } else {
            "⚠️ IAM permissions may not allow full instance access"@
        },
        Err(e) => "❌ Cannot verify instance access with current IAM permissions: "@ + e@,
    }
}

/// The integrated IAM check: the basic IAM check adjusted by the credential
/// check's score and by whether the instance's state could be read.
pub fn integrated_iam(
    basic: ValidationCheckResult,
    credentials: Option<Score>,
    instance: Result<DiagnosticResult, String>,
) -> (r: IntegratedCheck)
    requires
        basic.score.wf(),
    ensures
        ({
            let dep = dependency_delta(ValidationArea::IamPermissions, credentials);
            let lines = seq![
                dependency_line(ValidationArea::IamPermissions, dep),
                instance_probe_line(instance),
            ];
            &&& r.result@ == integrated_view(
                ValidationArea::IamPermissions,
                basic@,
                dep + instance_probe_delta(instance),
                lines,
                dependent_suggestions(ValidationArea::IamPermissions, dep, basic@.improvement_suggestions),
            )
            &&& r.dependency_adjustment == Some(dep as i64)
            &&& r.adjustment == dep + instance_probe_delta(instance)
            &&& strings_view(r.integration_messages@) == lines
        }),
        r.result.score.wf(),
        r.basic_score == basic.score,
{
    let a = ValidationArea::IamPermissions;
    let dep = dependency_delta_of(a, credentials);
    let (d, l): (i64, String) = match &instance {
        Ok(res) => match res.status {
            DiagnosticStatus::Success => (5, String::from_str("✅ IAM permissions allow instance access")),
            _ => (-10, String::from_str("⚠️ IAM permissions may not allow full instance access")),
        },
        Err(e) => (-15, concat2("❌ Cannot verify instance access with current IAM permissions: ", e.as_str())),
    };
    let lines = vec![dependency_line_text(a, dep), l];
    assert(strings_view(lines@) =~= seq![dependency_line(a, dep as int), instance_probe_line(instance)]);
    let suggestions = prepend_advice(a, dep, &basic.improvement_suggestions);
    integrate(a, basic, Some(dep), dep + d, lines, suggestions)
}

/// What the connectivity probe of the VPC check adds, by the status of the
/// connectivity test: 10 for a success, 2 for a warning, minus 15 for an
/// error, nothing when skipped, minus 10 when it could not run.
pub open spec fn connectivity_probe_delta(probe: Result<DiagnosticResult, String>) -> int {
    match probe {
        Ok(d) => match d.status {
            DiagnosticStatus::Success => 10,
            DiagnosticStatus::Warning => 2,
            DiagnosticStatus::Error => -15,
            DiagnosticStatus::Skipped => 0,
        },
        Err(_) => -10,
    }
}

/// The line of the connectivity probe of the VPC check.
pub open spec fn connectivity_probe_line(probe: Result<DiagnosticResult, String>) -> Seq<char> {
    match probe {
        Ok(d) => match d.status {
            DiagnosticStatus::Success => "✅ VPC configuration supports network connectivity"@,
            DiagnosticStatus::Warning => "⚠️ VPC configuration has minor connectivity issues"@,
            DiagnosticStatus::Error => "❌ VPC configuration prevents network connectivity"@,
            DiagnosticStatus::Skipped => "⏭️ Network connectivity test was skipped"@,
        },
        Err(e) => "⚠️ Cannot verify network connectivity: "@ + e@,
    }
}

/// The integrated VPC check: the basic VPC check adjusted by the IAM
/// check's score and by the network connectivity test.
pub fn integrated_vpc(
    basic: ValidationCheckResult,
    iam: Option<Score>,
    connectivity: Result<DiagnosticResult, String>,
) -> (r: IntegratedCheck)
    requires
        basic.score.wf(),
    ensures
        ({
            let dep = dependency_delta(ValidationArea::VpcConfiguration, iam);
            let lines = seq![
                dependency_line(ValidationArea::VpcConfiguration, dep),
                connectivity_probe_line(connectivity),
            ];
            &&& r.result@ == integrated_view(
                ValidationArea::VpcConfiguration,
                basic@,
                dep + connectivity_probe_delta(connectivity),
                lines,
                dependent_suggestions(ValidationArea::VpcConfiguration, dep, basic@.improvement_suggestions),
            )
            &&& r.dependency_adjustment == Some(dep as i64)
            &&& r.adjustment == dep + connectivity_probe_delta(connectivity)
            &&& strings_view(r.integration_messages@) == lines
        }),
        r.result.score.wf(),
        r.basic_score == basic.score,
{
    let a = ValidationArea::VpcConfiguration;
    let dep = dependency_delta_of(a, iam);
    let (d, l): (i64, String) = match &connectivity {
        Ok(res) => match res.status {
            DiagnosticStatus::Success => (10, String::from_str("✅ VPC configuration supports network connectivity")),
            DiagnosticStatus::Warning => (2, String::from_str("⚠️ VPC configuration has minor connectivity issues")),
            DiagnosticStatus::Error => (-15, String::from_str("❌ VPC configuration prevents network connectivity")),
            DiagnosticStatus::Skipped => (0, String::from_str("⏭️ Network connectivity test was skipped")),
        },
        Err(e) => (-10, concat2("⚠️ Cannot verify network connectivity: ", e.as_str())),
    };
    let lines = vec![dependency_line_text(a, dep), l];
    assert(strings_view(lines@) =~= seq![dependency_line(a, dep as int), connectivity_probe_line(connectivity)]);
    let suggestions = prepend_advice(a, dep, &basic.improvement_suggestions);
    integrate(a, basic, Some(dep), dep + d, lines, suggestions)
}

/// The integrated security group check: the basic security group check
/// adjusted by the VPC check's score.
pub fn integrated_security_groups(basic: ValidationCheckResult, vpc: Option<Score>) -> (r:
    IntegratedCheck)
    requires
        basic.score.wf(),
    ensures
        ({
            let dep = dependency_delta(ValidationArea::SecurityGroups, vpc);
            let lines = seq![
                dependency_line(ValidationArea::SecurityGroups, dep),
                "✅ Security group rules validated against SSM requirements"@,
            ];
            &&& r.result@ == integrated_view(
                ValidationArea::SecurityGroups,
                basic@,
                dep,
                lines,
                dependent_suggestions(ValidationArea::SecurityGroups, dep, basic@.improvement_suggestions),
            )
            &&& r.dependency_adjustment == Some(dep as i64)
            &&& r.adjustment == dep
            &&& strings_view(r.integration_messages@) == lines
        }),
        r.result.score.wf(),
        r.basic_score == basic.score,
{
    let a = ValidationArea::SecurityGroups;
    let dep = dependency_delta_of(a, vpc);
    let lines = vec![
        dependency_line_text(a, dep),
        String::from_str("✅ Security group rules validated against SSM requirements"),
    ];
    assert(strings_view(lines@) =~= seq![
        dependency_line(a, dep as int),
        "✅ Security group rules validated against SSM requirements"@,
    ]);
    let suggestions = prepend_advice(a, dep, &basic.improvement_suggestions);
    integrate(a, basic, Some(dep), dep, lines, suggestions)
}

/// Law: a check that depends on another is penalised more when that check
/// is missing than when it ran, whatever its score, and gains points
/// exactly when that check scored 80 percent or more.
pub proof fn lemma_dependency_adjustments(a: ValidationArea, prior: Score)
    requires
        a != ValidationArea::Credentials,
    ensures
        dependency_delta(a, None) < dependency_delta(a, Some(prior)),
        dependency_delta(a, Some(prior)) > 0 <==> !prior.below(80),
        dependency_delta(a, None) < 0,
{
}

/// The whole seconds of a span of nanoseconds, rounded toward zero.
pub open spec fn whole_seconds(nanos: int) -> int {
    if nanos >= 0 {
        nanos / 1_000_000_000
    } else {
        -((-nanos) / 1_000_000_000)
    }
}

/// Stored results are still valid at `now`: they were stored less than the
/// time to live before, counted in whole seconds.
pub open spec fn cache_valid(last: Option<i64>, ttl_secs: u64, now: i64) -> bool {
    match last {
        Some(t) => whole_seconds(now - t) < ttl_secs,
        None => false,
    }
}

/// The results of the last integrated validation, kept for a while so that
/// a new validation soon after reuses them.
#[derive(Debug)]
pub struct IntegrationCache {
    pub credential_result: Option<ValidationCheckResult>,
    pub iam_result: Option<ValidationCheckResult>,
    pub vpc_result: Option<ValidationCheckResult>,
    pub security_group_result: Option<ValidationCheckResult>,
    /// When the results were stored, in nanoseconds since the Unix epoch.
    pub last_validation: Option<i64>,
    pub cache_ttl_secs: u64,
}

impl IntegrationCache {
    /// An empty cache whose results live five minutes.
    pub fn new() -> (c: Self)
        ensures
            c.credential_result is None,
            c.iam_result is None,
            c.vpc_result is None,
            c.security_group_result is None,
            c.last_validation is None,
            c.cache_ttl_secs == 300,
    {
        IntegrationCache {
            credential_result: None,
            iam_result: None,
            vpc_result: None,
            security_group_result: None,
            last_validation: None,
            cache_ttl_secs: 300,
        }
    }

    /// Whether the stored results may be used at `now` (nanoseconds since
    /// the Unix epoch).
    pub fn is_cache_valid(&self, now: i64) -> (b: bool)
        ensures
            b == cache_valid(self.last_validation, self.cache_ttl_secs, now),
    {
        match self.last_validation {
            Some(t) => {
                let diff: i128 = now as i128 - t as i128;
                let secs: i128 = if diff >= 0 {
                    diff / 1_000_000_000
                } else {
                    -((-diff) / 1_000_000_000)
                };
                secs < self.cache_ttl_secs as i128
            },
            None => false,
        }
    }

    /// Forgets the stored results.
    pub fn clear_cache(&mut self)
        ensures
            final(self).credential_result is None,
            final(self).iam_result is None,
            final(self).vpc_result is None,
            final(self).security_group_result is None,
            final(self).last_validation is None,
            final(self).cache_ttl_secs == old(self).cache_ttl_secs,
    {
        self.credential_result = None;
        self.iam_result = None;
        self.vpc_result = None;
        self.security_group_result = None;
        self.last_validation = None;
    }

    /// Stores the results of a validation made at `now`.
    pub fn update_cache(
        &mut self,
        credential: Option<ValidationCheckResult>,
        iam: Option<ValidationCheckResult>,
        vpc: Option<ValidationCheckResult>,
        security_group: Option<ValidationCheckResult>,
        now: i64,
    )
        ensures
            opt_check(final(self).credential_result) == opt_check(credential),
            opt_check(final(self).iam_result) == opt_check(iam),
            opt_check(final(self).vpc_result) == opt_check(vpc),
            opt_check(final(self).security_group_result) == opt_check(security_group),
            final(self).last_validation == Some(now),
            final(self).cache_ttl_secs == old(self).cache_ttl_secs,
    {
        self.credential_result = credential;
        self.iam_result = iam;
        self.vpc_result = vpc;
        self.security_group_result = security_group;
        self.last_validation = Some(now);
    }

    /// Copies of the stored results that were asked for, in the order
    /// credential, IAM, VPC, security group.
    pub fn cached_checks(
        &self,
        include_credentials: bool,
        include_iam: bool,
        include_vpc: bool,
        include_security_groups: bool,
    ) -> (v: Vec<ValidationCheckResult>)
        ensures
            checks_view(v@) == picked(include_credentials, opt_check(self.credential_result))
                + picked(include_iam, opt_check(self.iam_result)) + picked(
                include_vpc,
                opt_check(self.vpc_result),
            ) + picked(include_security_groups, opt_check(self.security_group_result)),
    {
        selected_checks(
            include_credentials,
            include_iam,
            include_vpc,
            include_security_groups,
            copy_check(&self.credential_result),
            copy_check(&self.iam_result),
            copy_check(&self.vpc_result),
            copy_check(&self.security_group_result),
        )
    }
}

/// What an AWS configuration validation covers: the instance, the region
/// and profile, which checks run, and the lowest acceptable compliance
/// score.
#[derive(Debug)]
pub struct AwsConfigValidationConfig {
    pub instance_id: String,
    pub region: Option<String>,
    pub profile: Option<String>,
    pub include_credential_check: bool,
    pub include_iam_check: bool,
    pub include_vpc_check: bool,
    pub include_security_group_check: bool,
    pub minimum_compliance_score: Score,
}

impl Default for AwsConfigValidationConfig {
    /// No instance, no region or profile, every check, and 80 percent.
    fn default() -> (c: Self)
        ensures
            c.instance_id@ == Seq::<char>::empty(),
            c.region is None,
            c.profile is None,
            c.include_credential_check,
            c.include_iam_check,
            c.include_vpc_check,
            c.include_security_group_check,
            c.minimum_compliance_score == Score::whole_spec(80),
    {
        AwsConfigValidationConfig {
            instance_id: String::new(),
            region: None,
            profile: None,
            include_credential_check: true,
            include_iam_check: true,
            include_vpc_check: true,
            include_security_group_check: true,
            minimum_compliance_score: Score::whole(80),
        }
    }
}

impl AwsConfigValidationConfig {
    /// The default validation of an instance.
    pub fn new(instance_id: String) -> (c: Self)
        ensures
            c.instance_id == instance_id,
            c.region is None,
            c.profile is None,
            c.include_credential_check,
            c.include_iam_check,
            c.include_vpc_check,
            c.include_security_group_check,
            c.minimum_compliance_score == Score::whole_spec(80),
    {
        let mut c = AwsConfigValidationConfig::default();
        c.instance_id = instance_id;
        c
    }

    /// The same validation in another region and profile.
    pub fn with_aws_config(self, region: Option<String>, profile: Option<String>) -> (c: Self)
        ensures
            c == (AwsConfigValidationConfig { region, profile, ..self }),
    {
        AwsConfigValidationConfig { region, profile, ..self }
    }

    /// The same validation with the given checks.
    pub fn with_checks(self, credential: bool, iam: bool, vpc: bool, security_group: bool) -> (c: Self)
        ensures
            c == (AwsConfigValidationConfig {
                include_credential_check: credential,
                include_iam_check: iam,
                include_vpc_check: vpc,
                include_security_group_check: security_group,
                ..self
            }),
    {
        AwsConfigValidationConfig {
            include_credential_check: credential,
            include_iam_check: iam,
            include_vpc_check: vpc,
            include_security_group_check: security_group,
            ..self
        }
    }

    /// The same validation with the lowest acceptable score, kept at most
    /// 100 percent.
    pub fn with_minimum_compliance_score(self, score: Score) -> (c: Self)
        requires
            score.parts <= MAX_PARTS,
        ensures
            c == (AwsConfigValidationConfig { minimum_compliance_score: score.capped(), ..self }),
    {
        let top = 100 * score.parts;
        let capped = Score { points: if score.points > top { top } else { score.points }, parts: score.parts };
        AwsConfigValidationConfig { minimum_compliance_score: capped, ..self }
    }
}

/// How an integrated validation starts.
#[derive(Debug)]
pub enum IntegratedStart {
    /// The stored results are still valid: these, as asked for, are the
    /// checks of the validation, and nothing runs.
    Cached(Vec<ValidationCheckResult>),
    /// The checks run afresh; `finish_fresh_validation` takes their results.
    RunFresh,
}

/// The start of an integrated validation at `now` (nanoseconds since the
/// Unix epoch): the stored results asked for while they are valid, else a
/// fresh run. With `lemma_cache_lifetime`, a validation within the time to
/// live of the last fresh one reuses its results.
pub fn start_integrated_validation(
    cache: &IntegrationCache,
    now: i64,
    config: &AwsConfigValidationConfig,
) -> (s: IntegratedStart)
    ensures
        cache_valid(cache.last_validation, cache.cache_ttl_secs, now) ==> (s matches IntegratedStart::Cached(v)
            && checks_view(v@) == picked(config.include_credential_check, opt_check(cache.credential_result))
            + picked(config.include_iam_check, opt_check(cache.iam_result)) + picked(
            config.include_vpc_check,
            opt_check(cache.vpc_result),
        ) + picked(config.include_security_group_check, opt_check(cache.security_group_result))),
        !cache_valid(cache.last_validation, cache.cache_ttl_secs, now) ==> s is RunFresh,
{
    if cache.is_cache_valid(now) {
        IntegratedStart::Cached(
            cache.cached_checks(
                config.include_credential_check,
                config.include_iam_check,
                config.include_vpc_check,
                config.include_security_group_check,
            ),
        )
    } else {
        IntegratedStart::RunFresh
    }
}

/// The end of a fresh integrated validation made at `now`: stores every
/// result in the cache and gives the checks asked for, in the order
/// credential, IAM, VPC, security group.
pub fn finish_fresh_validation(
    cache: &mut IntegrationCache,
    credential: Option<ValidationCheckResult>,
    iam: Option<ValidationCheckResult>,
    vpc: Option<ValidationCheckResult>,
    security_group: Option<ValidationCheckResult>,
    now: i64,
    config: &AwsConfigValidationConfig,
) -> (v: Vec<ValidationCheckResult>)
    ensures
        checks_view(v@) == picked(config.include_credential_check, opt_check(credential)) + picked(
            config.include_iam_check,
            opt_check(iam),
        ) + picked(config.include_vpc_check, opt_check(vpc)) + picked(
            config.include_security_group_check,
            opt_check(security_group),
        ),
        opt_check(final(cache).credential_result) == opt_check(credential),
        opt_check(final(cache).iam_result) == opt_check(iam),
        opt_check(final(cache).vpc_result) == opt_check(vpc),
        opt_check(final(cache).security_group_result) == opt_check(security_group),
        final(cache).last_validation == Some(now),
        final(cache).cache_ttl_secs == old(cache).cache_ttl_secs,
{
    let v = selected_checks(
        config.include_credential_check,
        config.include_iam_check,
        config.include_vpc_check,
        config.include_security_group_check,
        copy_check(&credential),
        copy_check(&iam),
        copy_check(&vpc),
        copy_check(&security_group),
    );
    cache.update_cache(credential, iam, vpc, security_group, now);
    v
}

/// Law: once `finish_fresh_validation` stored results at `t0`, a validation
/// started at `now`, no earlier and less than the time to live later, with
/// no `clear_cache` in between, finds the cache valid, so that
/// `start_integrated_validation` gives the stored results asked for and runs
/// nothing.
pub proof fn lemma_integrated_validation_reuses_results(cache: IntegrationCache, t0: i64, now: i64)
    requires
        cache.last_validation == Some(t0),
        cache.cache_ttl_secs >= 1,
        t0 <= now,
        now - t0 < cache.cache_ttl_secs * 1_000_000_000,
    ensures
        cache_valid(cache.last_validation, cache.cache_ttl_secs, now),
{
    lemma_cache_lifetime(t0, cache.cache_ttl_secs, now);
}

fn copy_check(r: &Option<ValidationCheckResult>) -> (c: Option<ValidationCheckResult>)
    ensures
        opt_check(c) == opt_check(*r),
{
    match r {
        Some(x) => Some(x.clone()),
        None => None,
    }
}

/// Law: results stored at some moment are valid at that moment and for the
/// time to live after it, and no longer once that time has passed; an empty
/// cache is never valid.
pub proof fn lemma_cache_lifetime(t: i64, ttl_secs: u64, now: i64)
    requires
        ttl_secs >= 1,
    ensures
        cache_valid(Some(t), ttl_secs, t),
        t <= now ==> (cache_valid(Some(t), ttl_secs, now) <==> now - t < ttl_secs * 1_000_000_000),
        !cache_valid(None, ttl_secs, now),
{
    if t <= now {
        let e = now - t;
        assert(e / 1_000_000_000 < ttl_secs <==> e < ttl_secs * 1_000_000_000) by (nonlinear_arith)
            requires
                e >= 0,
        ;
    }
}

} // verus!
