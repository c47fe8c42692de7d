//! The classifications of the AWS configuration validation: the compliance
//! levels and the categories and priorities of improvement suggestions,
//! with their texts and marks.

use vstd::prelude::*;

verus! {

/// How well an AWS configuration complies, from best to worst.
#[derive(Debug, Clone, Copy, PartialEq, Eq, Structural)]
pub enum ComplianceStatus {
    /// 90 to 100 percent.
    Excellent,
    /// 75 to 89 percent.
    Good,
    /// 60 to 74 percent.
    Fair,
    /// 40 to 59 percent.
    Poor,
    /// Below 40 percent.
    Critical,
}

/// The description of a compliance level.
pub open spec fn compliance_text(c: ComplianceStatus) -> Seq<char> {
    match c {
        ComplianceStatus::Excellent => "Excellent - AWS configuration is optimal for SSM connections"@,
        ComplianceStatus::Good => "Good - AWS configuration is well-configured with minor improvements possible"@,
        ComplianceStatus::Fair => "Fair - AWS configuration has some issues that should be addressed"@,
        ComplianceStatus::Poor => "Poor - AWS configuration has significant issues that may prevent SSM connections"@,
        ComplianceStatus::Critical => "Critical - AWS configuration has critical issues that will prevent SSM connections"@,
    }
}

/// The mark of a compliance level.
pub open spec fn compliance_mark(c: ComplianceStatus) -> Seq<char> {
    match c {
        ComplianceStatus::Excellent => "🟢"@,
        ComplianceStatus::Good => "🟡"@,
        ComplianceStatus::Fair => "🟠"@,
        ComplianceStatus::Poor => "🔴"@,
        ComplianceStatus::Critical => "🚨"@,
    }
}

impl ComplianceStatus {
    /// The description of the level.
    pub fn description(&self) -> (t: &'static str)
        ensures
            t@ == compliance_text(*self),
    {
        match self {
            ComplianceStatus::Excellent => "Excellent - AWS configuration is optimal for SSM connections",
            ComplianceStatus::Good => "Good - AWS configuration is well-configured with minor improvements possible",
            ComplianceStatus::Fair => "Fair - AWS configuration has some issues that should be addressed",
            ComplianceStatus::Poor => "Poor - AWS configuration has significant issues that may prevent SSM connections",
            ComplianceStatus::Critical => "Critical - AWS configuration has critical issues that will prevent SSM connections",
        }
    }

    /// The mark shown beside the level.
    pub fn color_code(&self) -> (t: &'static str)
        ensures
            t@ == compliance_mark(*self),
    {
        match self {
            ComplianceStatus::Excellent => "🟢",
            ComplianceStatus::Good => "🟡",
            ComplianceStatus::Fair => "🟠",
            ComplianceStatus::Poor => "🔴",
            ComplianceStatus::Critical => "🚨",
        }
    }
}

/// What an improvement suggestion is about.
#[derive(Debug, Clone, Copy, PartialEq, Eq, Structural)]
pub enum SuggestionCategory {
    Credentials,
    IamPermissions,
    VpcConfiguration,
    SecurityGroups,
    NetworkConnectivity,
    General,
}

/// The label of a suggestion category.
pub open spec fn category_text(c: SuggestionCategory) -> Seq<char> {
    match c {
        SuggestionCategory::Credentials => "Credentials"@,
        SuggestionCategory::IamPermissions => "IAM Permissions"@,
        SuggestionCategory::VpcConfiguration => "VPC Configuration"@,
        SuggestionCategory::SecurityGroups => "Security Groups"@,
        SuggestionCategory::NetworkConnectivity => "Network Connectivity"@,
        SuggestionCategory::General => "General"@,
    }
}

/// The label of a suggestion category.
pub fn category_label(c: SuggestionCategory) -> (t: &'static str)
    ensures
        t@ == category_text(c),
{
    match c {
        SuggestionCategory::Credentials => "Credentials",
        SuggestionCategory::IamPermissions => "IAM Permissions",
        SuggestionCategory::VpcConfiguration => "VPC Configuration",
        SuggestionCategory::SecurityGroups => "Security Groups",
        SuggestionCategory::NetworkConnectivity => "Network Connectivity",
        SuggestionCategory::General => "General",
    }
}

/// How urgent a suggestion is; declared, and ordered, from the most to the
/// least urgent.
#[derive(Debug, Clone, Copy, PartialEq, Eq, PartialOrd, Ord, Structural)]
pub enum SuggestionPriority {
    Critical,
    High,
    Medium,
    Low,
}

/// The position of a priority in its declaration order, which the derived
/// order follows: `Critical` first.
pub open spec fn priority_rank(p: SuggestionPriority) -> nat {
    match p {
        SuggestionPriority::Critical => 0,
        SuggestionPriority::High => 1,
        SuggestionPriority::Medium => 2,
        SuggestionPriority::Low => 3,
    }
}

/// The description of a priority.
pub open spec fn priority_text(p: SuggestionPriority) -> Seq<char> {
    match p {
        SuggestionPriority::Critical => "Critical - Must be addressed immediately"@,
        SuggestionPriority::High => "High - Should be addressed soon"@,
        SuggestionPriority::Medium => "Medium - Should be addressed when convenient"@,
        SuggestionPriority::Low => "Low - Optional improvement"@,
    }
}

/// The mark of a priority.
pub open spec fn priority_mark(p: SuggestionPriority) -> Seq<char> {
    match p {
        SuggestionPriority::Critical => "🚨"@,
        SuggestionPriority::High => "🔴"@,
        SuggestionPriority::Medium => "🟡"@,
        SuggestionPriority::Low => "🟢"@,
    }
}

impl SuggestionPriority {
    /// The description of the priority.
    pub fn description(&self) -> (t: &'static str)
        ensures
            t@ == priority_text(*self),
    {
        match self {
            SuggestionPriority::Critical => "Critical - Must be addressed immediately",
            SuggestionPriority::High => "High - Should be addressed soon",
            SuggestionPriority::Medium => "Medium - Should be addressed when convenient",
            SuggestionPriority::Low => "Low - Optional improvement",
        }
    }
}

/// The rank of a priority, as a number.
pub fn priority_rank_of(p: SuggestionPriority) -> (r: u8)
    ensures
        r as nat == priority_rank(p),
{
    match p {
        SuggestionPriority::Critical => 0,
        SuggestionPriority::High => 1,
        SuggestionPriority::Medium => 2,
        SuggestionPriority::Low => 3,
    }
}

/// The mark shown beside a suggestion of the priority.
pub fn priority_icon(p: SuggestionPriority) -> (t: &'static str)
    ensures
        t@ == priority_mark(p),
{
    match p {
        SuggestionPriority::Critical => "🚨",
        SuggestionPriority::High => "🔴",
        SuggestionPriority::Medium => "🟡",
        SuggestionPriority::Low => "🟢",
    }
}

/// The mark of a validation scope flag: included or not.
pub fn scope_mark(included: bool) -> (t: &'static str)
    ensures
        included ==> t@ == "✅"@,
        !included ==> t@ == "❌"@,
{
    if included {
        "✅"
    } else {
        "❌"
    }
}

} // verus!
