//! IAM analysis: what the tool knows of an instance's role and policies,
//! how it decides whether a policy grants SSM access or a given permission,
//! how it reads trust and boundary policies, and the results of the IAM
//! checks.

use crate::diagnostic::{DiagnosticResult, DiagnosticStatus, Severity};
use crate::text::{
    concat2, concat3, contains, decimal, signed_decimal, signed_decimal_string, decimal_string,
    opt_view, str_contains, strings_view,
};
use std::string::FromUtf8Error;
use std::time::Duration;
use vstd::prelude::*;

verus! {

/// Where a policy comes from.
#[derive(Debug, Clone, Copy, PartialEq, Eq, Structural)]
pub enum PolicyType {
    Managed,
    Inline,
    AwsManaged,
}

/// A policy attached to a role.
#[derive(Debug, Clone)]
pub struct PolicyInfo {
    pub policy_name: String,
    pub policy_arn: String,
    pub policy_type: PolicyType,
    pub has_ssm_permissions: bool,
}

/// What is known of an instance's IAM set-up.
#[derive(Debug, Clone)]
pub struct IamInfo {
    pub instance_profile_name: Option<String>,
    pub instance_profile_arn: Option<String>,
    pub role_name: Option<String>,
    pub role_arn: Option<String>,
    pub attached_policies: Vec<PolicyInfo>,
    pub inline_policies: Vec<String>,
    pub permissions_boundary: Option<String>,
    pub credentials_valid: bool,
    pub session_token_valid: bool,
}

// ---------------------------------------------------------------------------
// Policies
// ---------------------------------------------------------------------------

/// Whether an ARN names a policy managed by AWS.
pub open spec fn is_aws_policy_arn(arn: Seq<char>) -> bool {
    contains(arn, ":aws:policy/"@)
}

/// The type of an attached policy, from its ARN.
pub fn policy_type_for(arn: &str) -> (t: PolicyType)
    ensures
        t == (if is_aws_policy_arn(arn@) {
            PolicyType::AwsManaged
        } else {
            PolicyType::Managed
        }),
{
    if str_contains(arn, ":aws:policy/") {
        PolicyType::AwsManaged
    } else {
        PolicyType::Managed
    }
}

/// The AWS managed policies known to grant SSM access, and the broad ones.
pub open spec fn ssm_policy_names() -> Seq<Seq<char>> {
    seq![
        "AmazonSSMManagedInstanceCore"@,
        "AmazonSSMDirectoryServiceAccess"@,
        "CloudWatchAgentServerPolicy"@,
        "AmazonSSMPatchAssociation"@,
        "AmazonSSMMaintenanceWindowRole"@,
        "AmazonSSMAutomationRole"@,
        "PowerUserAccess"@,
        "AdministratorAccess"@,
    ]
}

/// Whether the ARN of an AWS managed policy names one known to grant SSM
/// access.
pub open spec fn arn_grants_ssm(arn: Seq<char>) -> bool {
    is_aws_policy_arn(arn) && exists|i: int| 0 <= i < ssm_policy_names().len() && contains(arn, #[trigger] ssm_policy_names()[i])
}

/// The texts whose presence in a policy document means it grants SSM
/// access.
pub open spec fn ssm_document_markers() -> Seq<Seq<char>> {
    seq![
        "ssm:UpdateInstanceInformation"@,
        "ssm:SendCommand"@,
        "ssm:ListCommands"@,
        "ssm:ListCommandInvocations"@,
        "ssm:DescribeInstanceInformation"@,
        "ssm:GetConnectionStatus"@,
        "ssm:DescribeInstanceAssociationsStatus"@,
        "ec2messages:"@,
        "ssmmessages:"@,
        "\"*\""@,
        "ssm:*"@,
    ]
}

/// Whether a policy document grants SSM access: it names one of the SSM
/// actions or a wildcard.
pub open spec fn document_grants_ssm(doc: Seq<char>) -> bool {
    exists|i: int| 0 <= i < ssm_document_markers().len() && contains(doc, #[trigger] ssm_document_markers()[i])
}

/// Whether some text of a list occurs in a string, and which first.
fn first_contained(h: &str, needles: &Vec<&str>) -> (r: bool)
    ensures
        r == exists|i: int| 0 <= i < needles@.len() && contains(h@, #[trigger] needles@[i]@),
{
    let mut i: usize = 0;
    while i < needles.len()
        invariant
            i <= needles.len(),
            forall|j: int| 0 <= j < i ==> !contains(h@, #[trigger] needles@[j]@),
        decreases needles.len() - i,
    {
        if str_contains(h, needles[i]) {
            return true;
        }
        i = i + 1;
    }
    false
}

/// Whether the ARN of an AWS managed policy names one known to grant SSM
/// access.
pub fn arn_grants_ssm_access(arn: &str) -> (b: bool)
    ensures
        b == arn_grants_ssm(arn@),
{
    if !str_contains(arn, ":aws:policy/") {
        return false;
    }
    let mut names: Vec<&str> = Vec::new();
    names.push("AmazonSSMManagedInstanceCore");
    names.push("AmazonSSMDirectoryServiceAccess");
    names.push("CloudWatchAgentServerPolicy");
    names.push("AmazonSSMPatchAssociation");
    names.push("AmazonSSMMaintenanceWindowRole");
    names.push("AmazonSSMAutomationRole");
    names.push("PowerUserAccess");
    names.push("AdministratorAccess");
    let r = first_contained(arn, &names);
    proof {
        assert(names@.map_values(|s: &str| s@) =~= ssm_policy_names());
        assert forall|i: int| 0 <= i < 8 implies names@[i]@ == ssm_policy_names()[i] by {
            assert(names@.map_values(|s: &str| s@)[i] == names@[i]@);
        }
    }
    r
}

/// Whether a policy document grants SSM access.
pub fn document_grants_ssm_access(doc: &str) -> (b: bool)
    ensures
        b == document_grants_ssm(doc@),
{
    let mut marks: Vec<&str> = Vec::new();
    marks.push("ssm:UpdateInstanceInformation");
    marks.push("ssm:SendCommand");
    marks.push("ssm:ListCommands");
    marks.push("ssm:ListCommandInvocations");
    marks.push("ssm:DescribeInstanceInformation");
    marks.push("ssm:GetConnectionStatus");
    marks.push("ssm:DescribeInstanceAssociationsStatus");
    marks.push("ec2messages:");
    marks.push("ssmmessages:");
    marks.push("\"*\"");
    marks.push("ssm:*");
    let r = first_contained(doc, &marks);
    proof {
        assert(marks@.map_values(|s: &str| s@) =~= ssm_document_markers());
        assert forall|i: int| 0 <= i < 11 implies marks@[i]@ == ssm_document_markers()[i] by {
            assert(marks@.map_values(|s: &str| s@)[i] == marks@[i]@);
        }
    }
    r
}

/// Whether a policy grants SSM access: known by its ARN, else by its
/// document when that could be read (`None` when it could not).
pub open spec fn policy_grants_ssm(arn: Seq<char>, doc: Option<Seq<char>>) -> bool {
    arn_grants_ssm(arn) || match doc {
        Some(d) => document_grants_ssm(d),
        None => false,
    }
}

/// Whether a policy grants SSM access, given its document if it could be
/// read.
pub fn policy_has_ssm_permissions(arn: &str, doc: Option<&str>) -> (b: bool)
    ensures
        b == policy_grants_ssm(
            arn@,
            match doc {
                Some(d) => Some(d@),
                None => None,
            },
        ),
{
    if arn_grants_ssm_access(arn) {
        return true;
    }
    match doc {
        Some(d) => document_grants_ssm_access(d),
        None => false,
    }
}

/// The text of a permission before its first `:` (all of it without one).
pub open spec fn service_prefix(p: Seq<char>) -> Seq<char> {
    p.subrange(0, crate::health::colon_at(p))
}

/// Whether a policy document allows a permission: it names it, a wildcard,
/// or all actions of the permission's service.
pub open spec fn document_allows(doc: Seq<char>, permission: Seq<char>) -> bool {
    contains(doc, permission) || contains(doc, "\"*\""@) || contains(
        doc,
        service_prefix(permission) + ":*"@,
    )
}

fn prefix_before_colon(p: &str) -> (r: String)
    ensures
        r@ == service_prefix(p@),
{
    let v = crate::text::chars_of(p);
    let mut out = String::new();
    let mut i: usize = 0;
    while i < v.len() && v[i] != ':'
        invariant
            i <= v@.len(),
            v@ == p@,
            out@ == p@.subrange(0, i as int),
            forall|j: int| 0 <= j < i ==> p@[j] != ':',
        decreases v.len() - i,
    {
        out.push(v[i]);
        i = i + 1;
        assert(out@ =~= p@.subrange(0, i as int));
    }
    proof {
        crate::health::lemma_colon_at_unique(p@, i as int);
    }
    out
}

/// Whether a policy document allows a permission.
pub fn document_allows_permission(doc: &str, permission: &str) -> (b: bool)
    ensures
        b == document_allows(doc@, permission@),
{
    if str_contains(doc, permission) || str_contains(doc, "\"*\"") {
        return true;
    }
    let prefix = prefix_before_colon(permission);
    let wildcard = concat2(prefix.as_str(), ":*");
    str_contains(doc, wildcard.as_str())
}

/// The permissions `AmazonSSMManagedInstanceCore` grants.
pub open spec fn core_policy_permissions() -> Seq<Seq<char>> {
    seq![
        "ssm:UpdateInstanceInformation"@,
        "ssmmessages:CreateControlChannel"@,
        "ssmmessages:CreateDataChannel"@,
        "ssmmessages:OpenControlChannel"@,
        "ssmmessages:OpenDataChannel"@,
        "ec2messages:AcknowledgeMessage"@,
        "ec2messages:DeleteMessage"@,
        "ec2messages:FailMessage"@,
        "ec2messages:GetEndpoint"@,
        "ec2messages:GetMessages"@,
        "ec2messages:SendReply"@,
    ]
}

/// Whether an AWS managed policy allows a permission: the instance core
/// policy by its known list, the broad policies always, any other by its
/// document.
pub open spec fn managed_policy_allows(arn: Seq<char>, permission: Seq<char>, doc: Option<Seq<char>>) -> bool {
    if contains(arn, "AmazonSSMManagedInstanceCore"@) {
        core_policy_permissions().contains(permission)
    } else if contains(arn, "PowerUserAccess"@) || contains(arn, "AdministratorAccess"@) {
        true
    } else {
        match doc {
            Some(d) => document_allows(d, permission),
            None => false,
        }
    }
}

/// Whether an attached policy allows a permission: only policies that grant
/// SSM access count; an AWS managed one is judged as such, any other by its
/// document.
pub open spec fn attached_policy_allows(p: PolicyInfo, permission: Seq<char>, doc: Option<Seq<char>>) -> bool {
    p.has_ssm_permissions && if p.policy_type == PolicyType::AwsManaged {
        managed_policy_allows(p.policy_arn@, permission, doc)
    } else {
        match doc {
            Some(d) => document_allows(d, permission),
            None => false,
        }
    }
}

fn core_policy_has(permission: &str) -> (b: bool)
    ensures
        b == core_policy_permissions().contains(permission@),
{
    let mut v: Vec<&str> = Vec::new();
    v.push("ssm:UpdateInstanceInformation");
    v.push("ssmmessages:CreateControlChannel");
    v.push("ssmmessages:CreateDataChannel");
    v.push("ssmmessages:OpenControlChannel");
    v.push("ssmmessages:OpenDataChannel");
    v.push("ec2messages:AcknowledgeMessage");
    v.push("ec2messages:DeleteMessage");
    v.push("ec2messages:FailMessage");
    v.push("ec2messages:GetEndpoint");
    v.push("ec2messages:GetMessages");
    v.push("ec2messages:SendReply");
    let ghost names = v@.map_values(|s: &str| s@);
    assert(names =~= core_policy_permissions());
    let mut i: usize = 0;
    while i < v.len()
        invariant
            i <= v.len(),
            names == v@.map_values(|s: &str| s@),
            names == core_policy_permissions(),
            forall|j: int| 0 <= j < i ==> names[j] != permission@,
        decreases v.len() - i,
    {
        if crate::text::str_eq(v[i], permission) {
            assert(names[i as int] == permission@);
            return true;
        }
        i = i + 1;
    }
    false
}

/// Whether an attached policy allows a permission, given its document if it
/// could be read.
pub fn attached_policy_allows_permission(p: &PolicyInfo, permission: &str, doc: &Option<String>) -> (b: bool)
    ensures
        b == attached_policy_allows(*p, permission@, opt_view(*doc)),
{
    if !p.has_ssm_permissions {
        return false;
    }
    if p.policy_type == PolicyType::AwsManaged {
        let arn = p.policy_arn.as_str();
        if str_contains(arn, "AmazonSSMManagedInstanceCore") {
            return core_policy_has(permission);
        }
        if str_contains(arn, "PowerUserAccess") || str_contains(arn, "AdministratorAccess") {
            return true;
        }
    }
    match doc {
        Some(d) => document_allows_permission(d.as_str(), permission),
        None => false,
    }
}

/// Whether a role's attached policies allow a permission; `docs` holds each
/// policy's document, when it could be read.
pub fn permission_available(info: &IamInfo, permission: &str, docs: &Vec<Option<String>>) -> (b: bool)
    requires
        docs@.len() == info.attached_policies@.len(),
    ensures
        b == exists|i: int|
            0 <= i < info.attached_policies@.len() && attached_policy_allows(
                #[trigger] info.attached_policies@[i],
                permission@,
                opt_view(docs@[i]),
            ),
{
    let mut i: usize = 0;
    while i < info.attached_policies.len()
        invariant
            i <= info.attached_policies@.len(),
            docs@.len() == info.attached_policies@.len(),
            forall|j: int|
                0 <= j < i ==> !attached_policy_allows(
                    #[trigger] info.attached_policies@[j],
                    permission@,
                    opt_view(docs@[j]),
                ),
        decreases info.attached_policies.len() - i,
    {
        if attached_policy_allows_permission(&info.attached_policies[i], permission, &docs[i]) {
            return true;
        }
        i = i + 1;
    }
    false
}

// ---------------------------------------------------------------------------
// Trust and boundary policies
// ---------------------------------------------------------------------------

/// `std::string::FromUtf8Error`, carried as an opaque value.
#[verifier::external_type_specification]
#[verifier::external_body]
pub struct ExFromUtf8Error(FromUtf8Error);

/// What `urlencoding::decode` makes of a text: the decoded text, or none
/// when the decoded bytes are not UTF-8.
pub uninterp spec fn url_decoded(s: Seq<char>) -> Option<Seq<char>>;

/// What the `Display` of a `FromUtf8Error` writes.
pub uninterp spec fn utf8_error_text(e: FromUtf8Error) -> Seq<char>;

/// `urlencoding::decode`, owned; named by `url_decoded`. Its source returns
/// the input itself when it holds no `%`.
#[verifier::external_body]
fn url_decode(s: &str) -> (r: Result<String, FromUtf8Error>)
    ensures
        match r {
            Ok(d) => url_decoded(s@) == Some(d@),
            Err(_) => url_decoded(s@) is None,
        },
        !s@.contains('%') ==> r is Ok && r->Ok_0@ == s@,
{
    urlencoding::decode(s).map(|c| c.into_owned())
}

/// The `Display` text of a `FromUtf8Error`; named by `utf8_error_text`.
#[verifier::external_body]
fn utf8_error_message(e: &FromUtf8Error) -> (t: String)
    ensures
        t@ == utf8_error_text(*e),
{
    format!("{}", e)
}

/// A policy document as stored by IAM, percent-decoded; the error's text
/// when the result is not UTF-8.
pub fn decode_policy_document(raw: &str) -> (r: Result<String, String>)
    ensures
        match url_decoded(raw@) {
            Some(d) => r is Ok && r->Ok_0@ == d,
            None => r is Err,
        },
        !raw@.contains('%') ==> r is Ok && r->Ok_0@ == raw@,
{
    match url_decode(raw) {
        Ok(d) => Ok(d),
        Err(e) => Err(utf8_error_message(&e)),
    }
}

/// What a decoded trust policy shows: another account, the EC2 service, or
/// something else.
pub open spec fn trust_kind(doc: Seq<char>) -> Seq<char> {
    if contains(doc, "arn:aws:iam::"@) && !contains(doc, "arn:aws:iam:::"@) {
        "Cross-account trust relationship detected"@
    } else if contains(doc, "ec2.amazonaws.com"@) {
        "Standard EC2 service trust relationship"@
    } else {
        "Custom trust relationship detected"@
    }
}

/// What a role's trust policy shows, read from its stored (percent-encoded)
/// form; none stored gives "No trust policy found". The error is the
/// decoding error's text.
pub fn analyze_trust_policy(raw: Option<&str>) -> (r: Result<String, String>)
    ensures
        match raw {
            None => r is Ok && r->Ok_0@ == "No trust policy found"@,
            Some(t) => match url_decoded(t@) {
                Some(d) => r is Ok && r->Ok_0@ == trust_kind(d),
                None => r is Err,
            },
        },
{
    match raw {
        None => Ok(String::from_str("No trust policy found")),
        Some(t) => {
            let d = decode_policy_document(t)?;
            let s = d.as_str();
            if str_contains(s, "arn:aws:iam::") && !str_contains(s, "arn:aws:iam:::") {
                Ok(String::from_str("Cross-account trust relationship detected"))
            } else if str_contains(s, "ec2.amazonaws.com") {
                Ok(String::from_str("Standard EC2 service trust relationship"))
            } else {
                Ok(String::from_str("Custom trust relationship detected"))
            }
        },
    }
}

/// The SSM actions looked for in a boundary policy.
pub open spec fn ssm_actions_listed() -> Seq<Seq<char>> {
    seq![
        "ssm:UpdateInstanceInformation"@,
        "ssm:SendCommand"@,
        "ssm:ListCommands"@,
        "ssm:ListCommandInvocations"@,
        "ssm:DescribeInstanceInformation"@,
        "ssm:GetConnectionStatus"@,
        "ssm:DescribeInstanceAssociationsStatus"@,
        "ec2messages:*"@,
        "ssmmessages:*"@,
    ]
}

/// The entries of a list that occur in a text, in order.
pub open spec fn occurring(doc: Seq<char>, xs: Seq<Seq<char>>) -> Seq<Seq<char>> {
    xs.filter(|x: Seq<char>| contains(doc, x))
}

/// The SSM permissions a policy document names, then "Full access (*)" when
/// it has a wildcard.
pub open spec fn ssm_permissions_named(doc: Seq<char>) -> Seq<Seq<char>> {
    occurring(doc, ssm_actions_listed()) + if contains(doc, "\"*\""@) {
        seq!["Full access (*)"@]
    } else {
        Seq::empty()
    }
}

fn keep_occurring(doc: &str, xs: &Vec<&str>) -> (r: Vec<String>)
    ensures
        strings_view(r@) == occurring(doc@, xs@.map_values(|s: &str| s@)),
{
    let ghost all = xs@.map_values(|s: &str| s@);
    let mut r: Vec<String> = Vec::new();
    let mut i: usize = 0;
    while i < xs.len()
        invariant
            i <= xs.len(),
            all == xs@.map_values(|s: &str| s@),
            strings_view(r@) == occurring(doc@, all.subrange(0, i as int)),
        decreases xs.len() - i,
    {
        let ghost next = all.subrange(0, i + 1);
        assert(next.drop_last() =~= all.subrange(0, i as int));
        assert(next.last() == xs@[i as int]@);
        proof {
            reveal(Seq::filter);
        }
        if str_contains(doc, xs[i]) {
            let ghost before = r@;
            let s = String::from_str(xs[i]);
            let ghost sv = s;
            r.push(s);
            assert(strings_view(r@) =~= strings_view(before).push(sv@));
        }
        i = i + 1;
    }
    assert(all.subrange(0, xs.len() as int) =~= all);
    r
}

/// The SSM permissions a policy document names.
pub fn ssm_permissions_in_policy(doc: &str) -> (r: Vec<String>)
    ensures
        strings_view(r@) == ssm_permissions_named(doc@),
{
    let mut xs: Vec<&str> = Vec::new();
    xs.push("ssm:UpdateInstanceInformation");
    xs.push("ssm:SendCommand");
    xs.push("ssm:ListCommands");
    xs.push("ssm:ListCommandInvocations");
    xs.push("ssm:DescribeInstanceInformation");
    xs.push("ssm:GetConnectionStatus");
    xs.push("ssm:DescribeInstanceAssociationsStatus");
    xs.push("ec2messages:*");
    xs.push("ssmmessages:*");
    assert(xs@.map_values(|s: &str| s@) =~= ssm_actions_listed());
    let mut r = keep_occurring(doc, &xs);
    if str_contains(doc, "\"*\"") {
        let ghost before = r@;
        r.push(String::from_str("Full access (*)"));
        assert(strings_view(r@) =~= strings_view(before) + seq!["Full access (*)"@]);
    } else {
        assert(strings_view(r@) =~= strings_view(r@) + Seq::<Seq<char>>::empty());
    }
    r
}

/// The restrictions a boundary policy document shows, in order: by time, by
/// IP address, by region, and MFA.
pub open spec fn boundary_restrictions_of(doc: Seq<char>) -> Seq<Seq<char>> {
    let a: Seq<Seq<char>> = if contains(doc, "DateLessThan"@) || contains(doc, "DateGreaterThan"@) {
        seq!["Time-based restrictions detected"@]
    } else {
        Seq::empty()
    };
    let b: Seq<Seq<char>> = if contains(doc, "IpAddress"@) || contains(doc, "IpAddressIfExists"@) {
        seq!["IP-based restrictions detected"@]
    } else {
        Seq::empty()
    };
    let c: Seq<Seq<char>> = if contains(doc, "RequestedRegion"@) {
        seq!["Region-based restrictions detected"@]
    } else {
        Seq::empty()
    };
    let d: Seq<Seq<char>> = if contains(doc, "aws:MultiFactorAuthPresent"@) {
        seq!["MFA requirements detected"@]
    } else {
        Seq::empty()
    };
    a + b + c + d
}

/// The restrictions a boundary policy document shows.
pub fn boundary_restrictions(doc: &str) -> (r: Vec<String>)
    ensures
        strings_view(r@) == boundary_restrictions_of(doc@),
{
    let mut r: Vec<String> = Vec::new();
    let ghost s0 = strings_view(r@);
    if str_contains(doc, "DateLessThan") || str_contains(doc, "DateGreaterThan") {
        r.push(String::from_str("Time-based restrictions detected"));
    }
    let ghost s1 = strings_view(r@);
    if str_contains(doc, "IpAddress") || str_contains(doc, "IpAddressIfExists") {
        r.push(String::from_str("IP-based restrictions detected"));
    }
    let ghost s2 = strings_view(r@);
    if str_contains(doc, "RequestedRegion") {
        r.push(String::from_str("Region-based restrictions detected"));
    }
    let ghost s3 = strings_view(r@);
    if str_contains(doc, "aws:MultiFactorAuthPresent") {
        r.push(String::from_str("MFA requirements detected"));
    }
    assert(strings_view(r@) =~= boundary_restrictions_of(doc@));
    r
}

/// The name of an instance profile: the part of its ARN after the last `/`.
pub open spec fn profile_name_of(arn: Seq<char>) -> Seq<char>
    decreases arn.len(),
{
    if arn.len() == 0 {
        arn
    } else if arn.last() == '/' {
        Seq::empty()
    } else {
        profile_name_of(arn.drop_last()).push(arn.last())
    }
}

/// The name of an instance profile from its ARN.
pub fn profile_name_from_arn(arn: &str) -> (r: String)
    ensures
        r@ == profile_name_of(arn@),
{
    let v = crate::text::chars_of(arn);
    let mut start: usize = 0;
    let mut i: usize = 0;
    while i < v.len()
        invariant
            i <= v@.len(),
            v@ == arn@,
            start <= i,
            profile_name_of(v@.subrange(0, i as int)) == v@.subrange(start as int, i as int),
        decreases v.len() - i,
    {
        let ghost p = v@.subrange(0, i + 1);
        assert(p.drop_last() =~= v@.subrange(0, i as int));
        if v[i] == '/' {
            start = i + 1;
        }
        i = i + 1;
        assert(profile_name_of(v@.subrange(0, i as int)) =~= v@.subrange(start as int, i as int));
    }
    let mut out = String::new();
    let mut k: usize = start;
    while k < v.len()
        invariant
            start <= k <= v@.len(),
            out@ == v@.subrange(start as int, k as int),
        decreases v.len() - k,
    {
        out.push(v[k]);
        k = k + 1;
        assert(out@ =~= v@.subrange(start as int, k as int));
    }
    assert(v@.subrange(0, v@.len() as int) =~= arn@);
    out
}

// ---------------------------------------------------------------------------
// Results of the IAM checks
// ---------------------------------------------------------------------------

/// The kind and severity of a check result, and its message.
pub open spec fn result_is(
    r: DiagnosticResult,
    name: Seq<char>,
    status: DiagnosticStatus,
    severity: Severity,
    message: Seq<char>,
) -> bool {
    &&& r.item_name@ == name
    &&& r.status == status
    &&& r.severity == severity
    &&& r.message@ == message
    &&& r.details is None
}

fn success_result(name: &str, message: String, duration: Duration) -> (r: DiagnosticResult)
    ensures
        result_is(r, name@, DiagnosticStatus::Success, Severity::Info, message@),
        !r.auto_fixable,
        r.duration == duration,
{
    DiagnosticResult::success(String::from_str(name), message, duration)
}

fn warning_result(name: &str, message: String, duration: Duration, severity: Severity) -> (r: DiagnosticResult)
    ensures
        result_is(r, name@, DiagnosticStatus::Warning, severity, message@),
        !r.auto_fixable,
        r.duration == duration,
{
    DiagnosticResult::warning(String::from_str(name), message, duration, severity)
}

fn error_result(name: &str, message: String, duration: Duration, severity: Severity) -> (r: DiagnosticResult)
    ensures
        result_is(r, name@, DiagnosticStatus::Error, severity, message@),
        !r.auto_fixable,
        r.duration == duration,
{
    DiagnosticResult::error(String::from_str(name), message, duration, severity)
}

/// The instance profile check: a profile with a role succeeds; one without
/// a role warns; none, or a failed lookup, fails. `lookup` is the profile's
/// name and whether it has a role (or the lookup's error text).
pub fn instance_profile_result(
    lookup: Result<Option<(Option<String>, bool)>, String>,
    duration: Duration,
) -> (r: DiagnosticResult)
    ensures
        r.duration == duration,
        !r.auto_fixable,
        match lookup {
            Ok(Some((name, true))) => result_is(
                r,
                "instance_profile"@,
                DiagnosticStatus::Success,
                Severity::Info,
                "Instance profile configured: "@ + match name {
                    Some(n) => n@,
                    None => "unknown"@,
                },
            ),
            Ok(Some((_, false))) => result_is(
                r,
                "instance_profile"@,
                DiagnosticStatus::Warning,
                Severity::High,
                "Instance profile exists but no IAM role attached"@,
            ),
            Ok(None) => result_is(
                r,
                "instance_profile"@,
                DiagnosticStatus::Error,
                Severity::Critical,
                "No IAM instance profile attached to EC2 instance"@,
            ),
            Err(e) => result_is(
                r,
                "instance_profile"@,
                DiagnosticStatus::Error,
                Severity::High,
                "Failed to check instance profile: "@ + e@,
            ),
        },
{
    match lookup {
        Ok(Some((name, true))) => {
            let n = match name {
                Some(n) => n,
                None => String::from_str("unknown"),
            };
            success_result("instance_profile", concat2("Instance profile configured: ", n.as_str()), duration)
        },
        Ok(Some((_, false))) => warning_result(
            "instance_profile",
            String::from_str("Instance profile exists but no IAM role attached"),
            duration,
            Severity::High,
        ),
        Ok(None) => error_result(
            "instance_profile",
            String::from_str("No IAM instance profile attached to EC2 instance"),
            duration,
            Severity::Critical,
        ),
        Err(e) => error_result(
            "instance_profile",
            concat2("Failed to check instance profile: ", e.as_str()),
            duration,
            Severity::High,
        ),
    }
}

/// Whether some attached policy grants SSM access.
pub fn any_policy_grants_ssm(info: &IamInfo) -> (b: bool)
    ensures
        b == exists|i: int|
            0 <= i < info.attached_policies@.len() && (#[trigger] info.attached_policies@[i]).has_ssm_permissions,
{
    let mut i: usize = 0;
    while i < info.attached_policies.len()
        invariant
            i <= info.attached_policies@.len(),
            forall|j: int| 0 <= j < i ==> !(#[trigger] info.attached_policies@[j]).has_ssm_permissions,
        decreases info.attached_policies.len() - i,
    {
        if info.attached_policies[i].has_ssm_permissions {
            return true;
        }
        i = i + 1;
    }
    false
}

/// The SSM permission check: success when some attached policy grants SSM
/// access, a critical error otherwise or without a role; a lookup error is a
/// high one.
pub fn ssm_permissions_result(lookup: Result<Option<&IamInfo>, String>, duration: Duration) -> (r: DiagnosticResult)
    ensures
        r.duration == duration,
        !r.auto_fixable,
        match lookup {
            Ok(Some(info)) => if exists|i: int|
                0 <= i < info.attached_policies@.len()
                    && (#[trigger] info.attached_policies@[i]).has_ssm_permissions {
                result_is(
                    r,
                    "ssm_permissions"@,
                    DiagnosticStatus::Success,
                    Severity::Info,
                    "Required SSM permissions found"@,
                )
            } else {
                result_is(
                    r,
                    "ssm_permissions"@,
                    DiagnosticStatus::Error,
                    Severity::Critical,
                    "Missing required SSM permissions"@,
                )
            },
            Ok(None) => result_is(
                r,
                "ssm_permissions"@,
                DiagnosticStatus::Error,
                Severity::Critical,
                "Cannot verify SSM permissions - no IAM role attached"@,
            ),
            Err(e) => result_is(
                r,
                "ssm_permissions"@,
                DiagnosticStatus::Error,
                Severity::High,
                "Failed to verify SSM permissions: "@ + e@,
            ),
        },
{
    match lookup {
        Ok(Some(info)) => {
            if any_policy_grants_ssm(info) {
                success_result("ssm_permissions", String::from_str("Required SSM permissions found"), duration)
            } else {
                error_result(
                    "ssm_permissions",
                    String::from_str("Missing required SSM permissions"),
                    duration,
                    Severity::Critical,
                )
            }
        },
        Ok(None) => error_result(
            "ssm_permissions",
            String::from_str("Cannot verify SSM permissions - no IAM role attached"),
            duration,
            Severity::Critical,
        ),
        Err(e) => error_result(
            "ssm_permissions",
            concat2("Failed to verify SSM permissions: ", e.as_str()),
            duration,
            Severity::High,
        ),
    }
}

/// The lines listing the policies that grant SSM access, then the count of
/// inline policies when there are any.
pub open spec fn permission_detail_lines(info: IamInfo) -> Seq<Seq<char>> {
    info.attached_policies@.filter(|p: PolicyInfo| p.has_ssm_permissions).map_values(
        |p: PolicyInfo| "Policy '"@ + p.policy_name@ + "' has SSM permissions"@,
    ) + if info.inline_policies@.len() > 0 {
        seq![
            "Found "@ + decimal(info.inline_policies@.len() as nat)
                + " inline policies (manual review recommended)"@,
        ]
    } else {
        Seq::empty()
    }
}

/// The lines listing the policies that grant SSM access, and the inline
/// policies to review.
pub fn permission_details(info: &IamInfo) -> (v: Vec<String>)
    ensures
        strings_view(v@) == permission_detail_lines(*info),
{
    let ghost ps = info.attached_policies@;
    let ghost f = |p: PolicyInfo| "Policy '"@ + p.policy_name@ + "' has SSM permissions"@;
    let mut v: Vec<String> = Vec::new();
    let mut i: usize = 0;
    while i < info.attached_policies.len()
        invariant
            i <= ps.len(),
            ps == info.attached_policies@,
            f == (|p: PolicyInfo| "Policy '"@ + p.policy_name@ + "' has SSM permissions"@),
            strings_view(v@) == ps.subrange(0, i as int).filter(|p: PolicyInfo| p.has_ssm_permissions).map_values(f),
        decreases ps.len() - i,
    {
        let ghost next = ps.subrange(0, i + 1);
        assert(next.drop_last() =~= ps.subrange(0, i as int));
        assert(next.last() == ps[i as int]);
        proof {
            reveal(Seq::filter);
        }
        let p = &info.attached_policies[i];
        if p.has_ssm_permissions {
            let line = concat3("Policy '", p.policy_name.as_str(), "' has SSM permissions");
            let ghost before = v@;
            let ghost l = line;
            v.push(line);
            assert(strings_view(v@) =~= strings_view(before).push(l@));
            assert(ps.subrange(0, i + 1).filter(|p: PolicyInfo| p.has_ssm_permissions) =~= ps.subrange(
                0,
                i as int,
            ).filter(|p: PolicyInfo| p.has_ssm_permissions).push(ps[i as int]));
        }
        i = i + 1;
    }
    assert(ps.subrange(0, ps.len() as int) =~= ps);
    let n = info.inline_policies.len();
    if n > 0 {
        let count = decimal_string(n as u64);
        let line = concat3("Found ", count.as_str(), " inline policies (manual review recommended)");
        let ghost before = v@;
        let ghost l = line;
        v.push(line);
        assert(strings_view(v@) =~= strings_view(before) + seq![l@]);
    } else {
        assert(strings_view(v@) =~= strings_view(v@) + Seq::<Seq<char>>::empty());
    }
    v
}

/// The permissions boundary check: none configured succeeds; one that
/// grants SSM access succeeds; any other warns.
pub fn boundary_result(
    lookup: Result<Option<Option<(String, bool)>>, String>,
    duration: Duration,
) -> (r: DiagnosticResult)
    ensures
        r.duration == duration,
        !r.auto_fixable,
        match lookup {
            Ok(Some(Some((arn, true)))) => result_is(
                r,
                "permissions_boundary"@,
                DiagnosticStatus::Success,
                Severity::Info,
                "Permissions boundary allows SSM access: "@ + arn@,
            ),
            Ok(Some(Some((arn, false)))) => result_is(
                r,
                "permissions_boundary"@,
                DiagnosticStatus::Warning,
                Severity::High,
                "Permissions boundary may restrict SSM access: "@ + arn@,
            ),
            Ok(Some(None)) => result_is(
                r,
                "permissions_boundary"@,
                DiagnosticStatus::Success,
                Severity::Info,
                "No permissions boundary configured"@,
            ),
            Ok(None) => result_is(
                r,
                "permissions_boundary"@,
                DiagnosticStatus::Error,
                Severity::Medium,
                "Cannot check permissions boundary - no IAM role attached"@,
            ),
            Err(e) => result_is(
                r,
                "permissions_boundary"@,
                DiagnosticStatus::Error,
                Severity::Medium,
                "Failed to check permissions boundary: "@ + e@,
            ),
        },
{
    match lookup {
        Ok(Some(Some((arn, true)))) => success_result(
            "permissions_boundary",
            concat2("Permissions boundary allows SSM access: ", arn.as_str()),
            duration,
        ),
        Ok(Some(Some((arn, false)))) => warning_result(
            "permissions_boundary",
            concat2("Permissions boundary may restrict SSM access: ", arn.as_str()),
            duration,
            Severity::High,
        ),
        Ok(Some(None)) => success_result(
            "permissions_boundary",
            String::from_str("No permissions boundary configured"),
            duration,
        ),
        Ok(None) => error_result(
            "permissions_boundary",
            String::from_str("Cannot check permissions boundary - no IAM role attached"),
            duration,
            Severity::Medium,
        ),
        Err(e) => error_result(
            "permissions_boundary",
            concat2("Failed to check permissions boundary: ", e.as_str()),
            duration,
            Severity::Medium,
        ),
    }
}

/// The state of the current credentials, with the time to their expiry in
/// whole seconds when known.
#[derive(Debug, Clone, Copy, PartialEq, Eq, Structural)]
pub struct CredentialsState {
    pub is_valid: bool,
    pub is_expired: bool,
    pub session_token_present: bool,
    pub seconds_until_expiry: Option<i64>,
}

/// Whole units in a signed count, rounded toward zero (how `num_minutes`
/// and `num_hours` count).
pub open spec fn whole_units(secs: int, unit: int) -> int {
    if secs >= 0 {
        secs / unit
    } else {
        -((-secs) / unit)
    }
}

fn whole_units_of(secs: i64, unit: i64) -> (r: i64)
    requires
        unit > 1,
    ensures
        r == whole_units(secs as int, unit as int),
{
    if secs >= 0 {
        secs / unit
    } else {
        let pos: i128 = -(secs as i128);
        let u: i128 = unit as i128;
        let q: i128 = pos / u;
        assert(q <= pos) by (nonlinear_arith)
            requires
                pos >= 0,
                u > 1,
                q == pos / u,
        ;
        (-q) as i64
    }
}

/// The credentials check: invalid or expired credentials fail; a session
/// token expiring within fifteen minutes warns; otherwise it succeeds.
pub fn credentials_result(c: CredentialsState, duration: Duration) -> (r: DiagnosticResult)
    ensures
        r.duration == duration,
        !c.is_valid ==> result_is(
            r,
            "temporary_credentials"@,
            DiagnosticStatus::Error,
            Severity::Critical,
            "AWS credentials are invalid"@,
        ) && !r.auto_fixable,
        c.is_valid && c.is_expired ==> result_is(
            r,
            "temporary_credentials"@,
            DiagnosticStatus::Error,
            Severity::High,
            "AWS session token has expired"@,
        ) && r.auto_fixable,
        c.is_valid && !c.is_expired ==> !r.auto_fixable && if c.session_token_present {
            match c.seconds_until_expiry {
                Some(s) => if s < 900 {
                    result_is(
                        r,
                        "temporary_credentials"@,
                        DiagnosticStatus::Warning,
                        Severity::Medium,
                        "Session token expires soon: "@ + signed_decimal(whole_units(s as int, 60))
                            + " minutes remaining"@,
                    )
                } else {
                    result_is(
                        r,
                        "temporary_credentials"@,
                        DiagnosticStatus::Success,
                        Severity::Info,
                        "Session token valid for "@ + signed_decimal(whole_units(s as int, 3600))
                            + " hours"@,
                    )
                },
                None => result_is(
                    r,
                    "temporary_credentials"@,
                    DiagnosticStatus::Success,
                    Severity::Info,
                    "Session token is valid (expiration unknown)"@,
                ),
            }
        } else {
            result_is(
                r,
                "temporary_credentials"@,
                DiagnosticStatus::Success,
                Severity::Info,
                "Using long-term AWS credentials"@,
            )
        },
{
    if !c.is_valid {
        return error_result(
            "temporary_credentials",
            String::from_str("AWS credentials are invalid"),
            duration,
            Severity::Critical,
        );
    }
    if c.is_expired {
        return error_result(
            "temporary_credentials",
            String::from_str("AWS session token has expired"),
            duration,
            Severity::High,
        ).with_auto_fixable(true);
    }
    if c.session_token_present {
        match c.seconds_until_expiry {
            Some(s) => {
                if s < 900 {
                    let m = signed_decimal_string(whole_units_of(s, 60));
                    warning_result(
                        "temporary_credentials",
                        concat3("Session token expires soon: ", m.as_str(), " minutes remaining"),
                        duration,
                        Severity::Medium,
                    )
                } else {
                    let h = signed_decimal_string(whole_units_of(s, 3600));
                    success_result(
                        "temporary_credentials",
                        concat3("Session token valid for ", h.as_str(), " hours"),
                        duration,
                    )
                }
            },
            None => success_result(
                "temporary_credentials",
                String::from_str("Session token is valid (expiration unknown)"),
                duration,
            ),
        }
    } else {
        success_result(
            "temporary_credentials",
            String::from_str("Using long-term AWS credentials"),
            duration,
        )
    }
}

/// The SSM permissions an instance role needs, each with why.
pub open spec fn required_ssm_permissions() -> Seq<(Seq<char>, Seq<char>)> {
    seq![
        ("ssm:UpdateInstanceInformation"@, "Required for instance registration with SSM"@),
        ("ssm:SendCommand"@, "Required for executing commands via SSM"@),
        ("ssm:ListCommands"@, "Required for listing command history"@),
        ("ssm:ListCommandInvocations"@, "Required for command execution status"@),
        ("ssm:DescribeInstanceInformation"@, "Required for instance status reporting"@),
        ("ssm:GetConnectionStatus"@, "Required for connection status monitoring"@),
        ("ssm:DescribeInstanceAssociationsStatus"@, "Required for association status"@),
        ("ec2messages:AcknowledgeMessage"@, "Required for EC2 message acknowledgment"@),
        ("ec2messages:DeleteMessage"@, "Required for EC2 message cleanup"@),
        ("ec2messages:FailMessage"@, "Required for EC2 message failure handling"@),
        ("ec2messages:GetEndpoint"@, "Required for EC2 message endpoint discovery"@),
        ("ec2messages:GetMessages"@, "Required for EC2 message retrieval"@),
        ("ec2messages:SendReply"@, "Required for EC2 message responses"@),
        ("ssmmessages:CreateControlChannel"@, "Required for SSM control channel"@),
        ("ssmmessages:CreateDataChannel"@, "Required for SSM data channel"@),
        ("ssmmessages:OpenControlChannel"@, "Required for opening SSM control channel"@),
        ("ssmmessages:OpenDataChannel"@, "Required for opening SSM data channel"@),
    ]
}

/// The SSM permissions an instance role needs, each with why.
pub fn required_ssm_permission_list() -> (v: Vec<(&'static str, &'static str)>)
    ensures
        v@.map_values(|p: (&'static str, &'static str)| (p.0@, p.1@)) == required_ssm_permissions(),
{
    let mut v: Vec<(&'static str, &'static str)> = Vec::new();
    v.push(("ssm:UpdateInstanceInformation", "Required for instance registration with SSM"));
    v.push(("ssm:SendCommand", "Required for executing commands via SSM"));
    v.push(("ssm:ListCommands", "Required for listing command history"));
    v.push(("ssm:ListCommandInvocations", "Required for command execution status"));
    v.push(("ssm:DescribeInstanceInformation", "Required for instance status reporting"));
    v.push(("ssm:GetConnectionStatus", "Required for connection status monitoring"));
    v.push(("ssm:DescribeInstanceAssociationsStatus", "Required for association status"));
    v.push(("ec2messages:AcknowledgeMessage", "Required for EC2 message acknowledgment"));
    v.push(("ec2messages:DeleteMessage", "Required for EC2 message cleanup"));
    v.push(("ec2messages:FailMessage", "Required for EC2 message failure handling"));
    v.push(("ec2messages:GetEndpoint", "Required for EC2 message endpoint discovery"));
    v.push(("ec2messages:GetMessages", "Required for EC2 message retrieval"));
    v.push(("ec2messages:SendReply", "Required for EC2 message responses"));
    v.push(("ssmmessages:CreateControlChannel", "Required for SSM control channel"));
    v.push(("ssmmessages:CreateDataChannel", "Required for SSM data channel"));
    v.push(("ssmmessages:OpenControlChannel", "Required for opening SSM control channel"));
    v.push(("ssmmessages:OpenDataChannel", "Required for opening SSM data channel"));
    assert(v@.map_values(|p: (&'static str, &'static str)| (p.0@, p.1@)) =~= required_ssm_permissions());
    v
}

/// The result name of a permission check: `permission_` and the permission
/// with each `:` turned into `_`.
pub open spec fn permission_item_name(p: Seq<char>) -> Seq<char> {
    "permission_"@ + p.map_values(|c: char| if c == ':' { '_' } else { c })
}

fn colons_to_underscores(p: &str) -> (r: String)
    ensures
        r@ == p@.map_values(|c: char| if c == ':' { '_' } else { c }),
{
    let v = crate::text::chars_of(p);
    let mut out = String::new();
    let mut i: usize = 0;
    while i < v.len()
        invariant
            i <= v@.len(),
            v@ == p@,
            out@ == p@.subrange(0, i as int).map_values(|c: char| if c == ':' { '_' } else { c }),
        decreases v.len() - i,
    {
        let c = v[i];
        if c == ':' {
            out.push('_');
        } else {
            out.push(c);
        }
        i = i + 1;
        assert(out@ =~= p@.subrange(0, i as int).map_values(|c: char| if c == ':' { '_' } else { c }));
    }
    assert(p@.subrange(0, p@.len() as int) =~= p@);
    out
}

/// The result of checking one required permission.
pub fn individual_permission_result(
    permission: &str,
    description: &str,
    available: bool,
    duration: Duration,
) -> (r: DiagnosticResult)
    ensures
        r.duration == duration,
        !r.auto_fixable,
        available ==> result_is(
            r,
            permission_item_name(permission@),
            DiagnosticStatus::Success,
            Severity::Info,
            "Permission '"@ + permission@ + "' is available: "@ + description@,
        ),
        !available ==> result_is(
            r,
            permission_item_name(permission@),
            DiagnosticStatus::Error,
            Severity::High,
            "Missing permission '"@ + permission@ + "': "@ + description@,
        ),
{
    let tail = colons_to_underscores(permission);
    let name = concat2("permission_", tail.as_str());
    if available {
        let head = concat3("Permission '", permission, "' is available: ");
        let msg = concat2(head.as_str(), description);
        DiagnosticResult::success(name, msg, duration)
    } else {
        let head = concat3("Missing permission '", permission, "': ");
        let msg = concat2(head.as_str(), description);
        DiagnosticResult::error(name, msg, duration, Severity::High)
    }
}

/// The result when the individual permissions cannot be checked: no role,
/// or the lookup's error.
pub fn individual_permissions_unavailable(error: Option<&str>, duration: Duration) -> (r: DiagnosticResult)
    ensures
        r.duration == duration,
        !r.auto_fixable,
        match error {
            None => result_is(
                r,
                "individual_permissions"@,
                DiagnosticStatus::Error,
                Severity::Critical,
                "Cannot verify individual permissions - no IAM role attached"@,
            ),
            Some(e) => result_is(
                r,
                "individual_permissions"@,
                DiagnosticStatus::Error,
                Severity::High,
                "Failed to verify individual permissions: "@ + e@,
            ),
        },
{
    match error {
        None => error_result(
            "individual_permissions",
            String::from_str("Cannot verify individual permissions - no IAM role attached"),
            duration,
            Severity::Critical,
        ),
        Some(e) => error_result(
            "individual_permissions",
            concat2("Failed to verify individual permissions: ", e),
            duration,
            Severity::High,
        ),
    }
}

/// The issues the cross-account check raises from the trust policy
/// analysis: none for an analysis (whatever its text, since the match is
/// on the lower-case word), one for a failed one; none without a role.
pub open spec fn cross_account_issues(trust: Option<Result<Seq<char>, Seq<char>>>) -> Seq<Seq<char>> {
    match trust {
        Some(Ok(a)) => if contains(a, "cross-account"@) {
            seq!["Cross-account trust relationship detected"@]
        } else {
            Seq::empty()
        },
        Some(Err(e)) => seq!["Failed to analyze trust policy: "@ + e],
        None => Seq::empty(),
    }
}

/// The cross-account check: `lookup` is, for a role, the analysis of its
/// trust policy (none without a role name); without a role, or on a lookup
/// error, the check fails.
pub fn cross_account_result(
    lookup: Result<Option<Option<Result<String, String>>>, String>,
    duration: Duration,
) -> (r: DiagnosticResult)
    ensures
        r.duration == duration,
        !r.auto_fixable,
        match lookup {
            Ok(Some(trust)) => {
                let issues = cross_account_issues(
                    match trust {
                        Some(Ok(a)) => Some(Ok(a@)),
                        Some(Err(e)) => Some(Err(e@)),
                        None => None,
                    },
                );
                if issues.len() == 0 {
                    result_is(
                        r,
                        "cross_account_permissions"@,
                        DiagnosticStatus::Success,
                        Severity::Info,
                        "No cross-account permission issues detected"@,
                    )
                } else {
                    result_is(
                        r,
                        "cross_account_permissions"@,
                        DiagnosticStatus::Warning,
                        Severity::Medium,
                        "Cross-account permission considerations: "@ + crate::text::joined(issues, ", "@),
                    )
                }
            },
            Ok(None) => result_is(
                r,
                "cross_account_permissions"@,
                DiagnosticStatus::Error,
                Severity::Medium,
                "Cannot verify cross-account permissions - no IAM role attached"@,
            ),
            Err(e) => result_is(
                r,
                "cross_account_permissions"@,
                DiagnosticStatus::Error,
                Severity::Medium,
                "Failed to verify cross-account permissions: "@ + e@,
            ),
        },
{
    match lookup {
        Ok(Some(trust)) => {
            let issue: Option<String> = match &trust {
                Some(Ok(a)) => if str_contains(a.as_str(), "cross-account") {
                    Some(String::from_str("Cross-account trust relationship detected"))
                } else {
                    None
                },
                Some(Err(e)) => Some(concat2("Failed to analyze trust policy: ", e.as_str())),
                None => None,
            };
            match issue {
                None => success_result(
                    "cross_account_permissions",
                    String::from_str("No cross-account permission issues detected"),
                    duration,
                ),
                Some(i) => {
                    let m = concat2("Cross-account permission considerations: ", i.as_str());
                    proof {
                        let issues = seq![i@];
                        assert(crate::text::joined(issues, ", "@) == i@);
                    }
                    warning_result("cross_account_permissions", m, duration, Severity::Medium)
                },
            }
        },
        Ok(None) => error_result(
            "cross_account_permissions",
            String::from_str("Cannot verify cross-account permissions - no IAM role attached"),
            duration,
            Severity::Medium,
        ),
        Err(e) => error_result(
            "cross_account_permissions",
            concat2("Failed to verify cross-account permissions: ", e.as_str()),
            duration,
            Severity::Medium,
        ),
    }
}

/// The resource-based permission analysis: the lines it reports (the KMS,
/// S3 and CloudWatch Logs findings) and its result, which succeeds.
pub fn resource_based_result(duration: Duration) -> (r: (Vec<String>, DiagnosticResult))
    ensures
        strings_view(r.0@) == seq![
            "KMS permissions: "@ + "KMS permissions not required for unencrypted volumes"@,
            "S3 permissions: "@ + "S3 permissions not required for basic SSM functionality"@,
            "CloudWatch Logs permissions: "@ + "CloudWatch Logs permissions available for SSM logging"@,
        ],
        result_is(
            r.1,
            "resource_based_permissions"@,
            DiagnosticStatus::Success,
            Severity::Info,
            "Resource-based permissions analysis completed successfully"@,
        ),
        r.1.duration == duration,
{
    let mut lines: Vec<String> = Vec::new();
    lines.push(concat2("KMS permissions: ", "KMS permissions not required for unencrypted volumes"));
    lines.push(concat2("S3 permissions: ", "S3 permissions not required for basic SSM functionality"));
    lines.push(concat2("CloudWatch Logs permissions: ", "CloudWatch Logs permissions available for SSM logging"));
    assert(strings_view(lines@) =~= seq![
        "KMS permissions: "@ + "KMS permissions not required for unencrypted volumes"@,
        "S3 permissions: "@ + "S3 permissions not required for basic SSM functionality"@,
        "CloudWatch Logs permissions: "@ + "CloudWatch Logs permissions available for SSM logging"@,
    ]);
    let r = success_result(
        "resource_based_permissions",
        String::from_str("Resource-based permissions analysis completed successfully"),
        duration,
    );
    (lines, r)
}

/// The boundary impact check: `lookup` is, for a role, its boundary (the
/// ARN and its document or the reading error), none without one. A
/// boundary always warns, with the restrictions its document shows; its
/// severity is low without restrictions and medium with some.
pub fn boundary_impact_result(
    lookup: Result<Option<Option<Result<String, String>>>, String>,
    duration: Duration,
) -> (r: DiagnosticResult)
    ensures
        r.duration == duration,
        !r.auto_fixable,
        match lookup {
            Ok(Some(Some(doc))) => {
                let restrictions = match doc {
                    Ok(d) => boundary_restrictions_of(d@),
                    Err(_) => Seq::empty(),
                };
                result_is(
                    r,
                    "permissions_boundary_impact"@,
                    DiagnosticStatus::Warning,
                    if restrictions.len() == 0 { Severity::Low } else { Severity::Medium },
                    "Permissions boundary may impact SSM access: "@ + crate::text::joined(restrictions, ", "@),
                )
            },
            Ok(Some(None)) => result_is(
                r,
                "permissions_boundary_impact"@,
                DiagnosticStatus::Success,
                Severity::Info,
                "No permissions boundary configured - no restrictions"@,
            ),
            Ok(None) => result_is(
                r,
                "permissions_boundary_impact"@,
                DiagnosticStatus::Error,
                Severity::Low,
                "Cannot analyze permissions boundary - no IAM role attached"@,
            ),
            Err(e) => result_is(
                r,
                "permissions_boundary_impact"@,
                DiagnosticStatus::Error,
                Severity::Medium,
                "Failed to analyze permissions boundary impact: "@ + e@,
            ),
        },
{
    match lookup {
        Ok(Some(Some(doc))) => {
            let restrictions: Vec<String> = match &doc {
                Ok(d) => boundary_restrictions(d.as_str()),
                Err(_) => {
                    let v: Vec<String> = Vec::new();
                    assert(strings_view(v@) =~= Seq::<Seq<char>>::empty());
                    v
                },
            };
            let joined = crate::text::join_strings(&restrictions, ", ");
            let severity = if restrictions.len() == 0 {
                Severity::Low
            } else {
                Severity::Medium
            };
            warning_result(
                "permissions_boundary_impact",
                concat2("Permissions boundary may impact SSM access: ", joined.as_str()),
                duration,
                severity,
            )
        },
        Ok(Some(None)) => success_result(
            "permissions_boundary_impact",
            String::from_str("No permissions boundary configured - no restrictions"),
            duration,
        ),
        Ok(None) => error_result(
            "permissions_boundary_impact",
            String::from_str("Cannot analyze permissions boundary - no IAM role attached"),
            duration,
            Severity::Low,
        ),
        Err(e) => error_result(
            "permissions_boundary_impact",
            concat2("Failed to analyze permissions boundary impact: ", e.as_str()),
            duration,
            Severity::Medium,
        ),
    }
}

/// The EC2 permissions an instance role needs, each with why.
pub open spec fn required_ec2_permissions() -> Seq<(Seq<char>, Seq<char>)> {
    seq![
        ("ec2:DescribeInstanceStatus"@, "Required for instance status checks"@),
        ("ec2:DescribeInstances"@, "Required for instance metadata"@),
        ("ec2:DescribeInstanceAttribute"@, "Required for instance attributes"@),
        ("ec2:DescribeTags"@, "Required for instance tags"@),
    ]
}

/// The EC2 permissions an instance role needs, each with why.
pub fn required_ec2_permission_list() -> (v: Vec<(&'static str, &'static str)>)
    ensures
        v@.map_values(|p: (&'static str, &'static str)| (p.0@, p.1@)) == required_ec2_permissions(),
{
    let mut v: Vec<(&'static str, &'static str)> = Vec::new();
    v.push(("ec2:DescribeInstanceStatus", "Required for instance status checks"));
    v.push(("ec2:DescribeInstances", "Required for instance metadata"));
    v.push(("ec2:DescribeInstanceAttribute", "Required for instance attributes"));
    v.push(("ec2:DescribeTags", "Required for instance tags"));
    assert(v@.map_values(|p: (&'static str, &'static str)| (p.0@, p.1@)) =~= required_ec2_permissions());
    v
}

/// How many of a list of flags are false.
pub open spec fn count_missing(flags: Seq<bool>) -> nat
    decreases flags.len(),
{
    if flags.len() == 0 {
        0
    } else {
        count_missing(flags.drop_last()) + (if flags.last() { 0nat } else { 1nat })
    }
}

/// The EC2 permission check: `lookup` is, for a role, whether each required
/// permission is available; it succeeds when none is missing and warns
/// with the number missing otherwise.
pub fn ec2_permissions_result(lookup: Result<Option<&Vec<bool>>, String>, duration: Duration) -> (r: DiagnosticResult)
    ensures
        r.duration == duration,
        !r.auto_fixable,
        match lookup {
            Ok(Some(flags)) => if count_missing(flags@) == 0 {
                result_is(
                    r,
                    "ec2_required_permissions"@,
                    DiagnosticStatus::Success,
                    Severity::Info,
                    "All required EC2 permissions are available"@,
                )
            } else {
                result_is(
                    r,
                    "ec2_required_permissions"@,
                    DiagnosticStatus::Warning,
                    Severity::Medium,
                    "Missing "@ + decimal(count_missing(flags@)) + " EC2 permissions"@,
                )
            },
            Ok(None) => result_is(
                r,
                "ec2_required_permissions"@,
                DiagnosticStatus::Error,
                Severity::Medium,
                "Cannot verify EC2 permissions - no IAM role attached"@,
            ),
            Err(e) => result_is(
                r,
                "ec2_required_permissions"@,
                DiagnosticStatus::Error,
                Severity::Medium,
                "Failed to verify EC2 permissions: "@ + e@,
            ),
        },
{
    match lookup {
        Ok(Some(flags)) => {
            let mut missing: usize = 0;
            let mut i: usize = 0;
            while i < flags.len()
                invariant
                    i <= flags@.len(),
                    missing == count_missing(flags@.subrange(0, i as int)),
                    missing <= i,
                decreases flags.len() - i,
            {
                assert(flags@.subrange(0, i + 1).drop_last() =~= flags@.subrange(0, i as int));
                if !flags[i] {
                    missing = missing + 1;
                }
                i = i + 1;
            }
            assert(flags@.subrange(0, flags@.len() as int) =~= flags@);
            if missing == 0 {
                success_result(
                    "ec2_required_permissions",
                    String::from_str("All required EC2 permissions are available"),
                    duration,
                )
            } else {
                let n = decimal_string(missing as u64);
                warning_result(
                    "ec2_required_permissions",
                    concat3("Missing ", n.as_str(), " EC2 permissions"),
                    duration,
                    Severity::Medium,
                )
            }
        },
        Ok(None) => error_result(
            "ec2_required_permissions",
            String::from_str("Cannot verify EC2 permissions - no IAM role attached"),
            duration,
            Severity::Medium,
        ),
        Err(e) => error_result(
            "ec2_required_permissions",
            concat2("Failed to verify EC2 permissions: ", e.as_str()),
            duration,
            Severity::Medium,
        ),
    }
}

/// Law: a wildcard document allows every permission, and a policy that
/// does not grant SSM access allows none.
pub proof fn lemma_policy_permission_rules(p: PolicyInfo, permission: Seq<char>, doc: Seq<char>)
    ensures
        contains(doc, "\"*\""@) ==> document_allows(doc, permission),
        !p.has_ssm_permissions ==> !attached_policy_allows(p, permission, Some(doc)),
{
}

/// Law: an attached policy allows a permission only if it grants SSM
/// access. An AWS managed policy that grants SSM access and names
/// AdministratorAccess or PowerUserAccess (and not the SSM core policy)
/// allows every permission, whatever document is at hand; the SSM core
/// policy allows exactly its listed permissions; any other policy needs a
/// document, and with none it allows nothing.
pub proof fn lemma_attached_policy_rules(p: PolicyInfo, permission: Seq<char>, doc: Option<Seq<char>>)
    ensures
        attached_policy_allows(p, permission, doc) ==> p.has_ssm_permissions,
        p.has_ssm_permissions && p.policy_type == PolicyType::AwsManaged && !contains(
            p.policy_arn@,
            "AmazonSSMManagedInstanceCore"@,
        ) && (contains(p.policy_arn@, "AdministratorAccess"@) || contains(p.policy_arn@, "PowerUserAccess"@))
            ==> attached_policy_allows(p, permission, doc),
        p.has_ssm_permissions && p.policy_type == PolicyType::AwsManaged && contains(
            p.policy_arn@,
            "AmazonSSMManagedInstanceCore"@,
        ) ==> (attached_policy_allows(p, permission, doc) <==> core_policy_permissions().contains(
            permission,
        )),
        p.policy_type != PolicyType::AwsManaged && doc is None ==> !attached_policy_allows(
            p,
            permission,
            doc,
        ),
        p.has_ssm_permissions && p.policy_type != PolicyType::AwsManaged && doc is Some ==> (
        attached_policy_allows(p, permission, doc) <==> document_allows(doc->0, permission)),
{
}

/// Law: a policy grants SSM access when its ARN names an AWS managed
/// policy known for it (the SSM core policy, PowerUserAccess or
/// AdministratorAccess among them), or when its document names an SSM
/// action, the SSM message services, or a wildcard; a policy whose ARN is
/// not one of those and whose document could not be read grants nothing.
/// A document allows a permission it names, and every permission under a
/// wildcard.
pub proof fn lemma_ssm_access_rules(arn: Seq<char>, doc: Seq<char>, permission: Seq<char>)
    ensures
        contains(arn, ":aws:policy/"@) && (contains(arn, "AmazonSSMManagedInstanceCore"@) || contains(
            arn,
            "PowerUserAccess"@,
        ) || contains(arn, "AdministratorAccess"@)) ==> policy_grants_ssm(arn, None),
        contains(doc, "ssm:UpdateInstanceInformation"@) || contains(doc, "ssm:SendCommand"@) || contains(
            doc,
            "ssmmessages:"@,
        ) || contains(doc, "ec2messages:"@) || contains(doc, "ssm:*"@) || contains(doc, "\"*\""@)
            ==> policy_grants_ssm(arn, Some(doc)),
        !arn_grants_ssm(arn) ==> !policy_grants_ssm(arn, None),
        !contains(arn, ":aws:policy/"@) ==> !policy_grants_ssm(arn, None),
        contains(doc, permission) ==> document_allows(doc, permission),
        contains(doc, "\"*\""@) ==> document_allows(doc, permission),
{
    let names = ssm_policy_names();
    assert(names[0] == "AmazonSSMManagedInstanceCore"@);
    assert(names[6] == "PowerUserAccess"@);
    assert(names[7] == "AdministratorAccess"@);
    let marks = ssm_document_markers();
    assert(marks[0] == "ssm:UpdateInstanceInformation"@);
    assert(marks[1] == "ssm:SendCommand"@);
    assert(marks[7] == "ec2messages:"@);
    assert(marks[8] == "ssmmessages:"@);
    assert(marks[9] == "\"*\""@);
    assert(marks[10] == "ssm:*"@);
}

} // verus!
