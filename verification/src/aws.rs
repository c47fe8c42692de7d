//! AWS session and instance data, and where the AWS command line tool is
//! looked for.

use std::collections::HashMap;
use vstd::prelude::*;

verus! {

/// State of an SSM session.
#[derive(Debug, Clone, Copy, PartialEq, Eq, Structural)]
pub enum SsmSessionStatus {
    Connected,
    Connecting,
    Disconnected,
    Failed,
    Terminated,
    Terminating,
}

/// The status of a session as the service reported it: a status the tool
/// does not know counts as failed.
pub fn session_status_or_failed(reported: Option<SsmSessionStatus>) -> (s: SsmSessionStatus)
    ensures
        s == (match reported {
            Some(r) => r,
            None => SsmSessionStatus::Failed,
        }),
{
    match reported {
        Some(r) => r,
        None => SsmSessionStatus::Failed,
    }
}

/// The status of a looked-up session: a session the service does not list
/// is terminated.
pub fn looked_up_status(found: Option<Option<SsmSessionStatus>>) -> (s: SsmSessionStatus)
    ensures
        s == (match found {
            Some(Some(r)) => r,
            Some(None) => SsmSessionStatus::Failed,
            None => SsmSessionStatus::Terminated,
        }),
{
    match found {
        Some(r) => session_status_or_failed(r),
        None => SsmSessionStatus::Terminated,
    }
}

/// Whether a session appears in the list of active sessions: it is
/// connected or connecting.
pub fn is_listed_active(s: Option<SsmSessionStatus>) -> (b: bool)
    ensures
        b == (s == Some(SsmSessionStatus::Connected) || s == Some(SsmSessionStatus::Connecting)),
{
    match s {
        Some(SsmSessionStatus::Connected) => true,
        Some(SsmSessionStatus::Connecting) => true,
        _ => false,
    }
}

/// What is known of an EC2 instance.
#[derive(Debug, Clone)]
pub struct InstanceInfo {
    pub instance_id: String,
    pub instance_type: Option<String>,
    pub state: Option<String>,
    pub private_ip: Option<String>,
    pub public_ip: Option<String>,
    pub availability_zone: Option<String>,
    pub vpc_id: Option<String>,
    pub subnet_id: Option<String>,
}

/// The parameters of an SSM session to start.
#[derive(Debug)]
pub struct SsmSessionConfig {
    pub target: String,
    pub document_name: Option<String>,
    pub parameters: HashMap<String, Vec<String>>,
    pub reason: Option<String>,
}

/// The places the AWS command line tool is looked for, in order.
pub open spec fn aws_command_candidates() -> Seq<Seq<char>> {
    seq!["/opt/homebrew/bin/aws"@, "/usr/local/bin/aws"@, "/usr/bin/aws"@]
}

/// Whether a file exists at the path (`Path::exists`); it depends on the
/// file system, so nothing is stated of it.
#[verifier::external_body]
fn path_exists(path: &str) -> (b: bool) {
    std::path::Path::new(path).exists()
}

/// The first of the candidates for which the existence test said yes.
pub open spec fn first_existing(candidates: Seq<Seq<char>>, exists: Seq<bool>) -> Option<Seq<char>>
    recommends
        candidates.len() == exists.len(),
    decreases candidates.len(),
{
    if candidates.len() == 0 {
        None
    } else if exists[0] {
        Some(candidates[0])
    } else {
        first_existing(candidates.drop_first(), exists.drop_first())
    }
}

/// The first candidate path whose existence test is true.
pub fn pick_first_existing(candidates: &Vec<&str>, exists: &Vec<bool>) -> (r: Option<String>)
    requires
        candidates@.len() == exists@.len(),
    ensures
        match first_existing(candidates@.map_values(|c: &str| c@), exists@) {
            Some(p) => r is Some && r->0@ == p,
            None => r is None,
        },
{
    let ghost cs = candidates@.map_values(|c: &str| c@);
    assert(cs.skip(0) =~= cs);
    assert(exists@.skip(0) =~= exists@);
    let mut i: usize = 0;
    while i < candidates.len()
        invariant
            i <= candidates.len(),
            candidates@.len() == exists@.len(),
            cs == candidates@.map_values(|c: &str| c@),
            first_existing(cs, exists@) == first_existing(cs.skip(i as int), exists@.skip(i as int)),
        decreases candidates.len() - i,
    {
        assert(cs.skip(i as int).drop_first() =~= cs.skip(i + 1));
        assert(exists@.skip(i as int).drop_first() =~= exists@.skip(i + 1));
        assert(cs.skip(i as int)[0] == candidates@[i as int]@);
        if exists[i] {
            return Some(String::from_str(candidates[i]));
        }
        i = i + 1;
    }
    assert(cs.skip(i as int).len() == 0);
    None
}

/// The places the AWS command line tool is looked for, in order: Homebrew,
/// then /usr/local, then /usr.
pub fn aws_command_paths() -> (v: Vec<&'static str>)
    ensures
        v@.map_values(|c: &str| c@) == aws_command_candidates(),
{
    let mut v: Vec<&'static str> = Vec::new();
    v.push("/opt/homebrew/bin/aws");
    v.push("/usr/local/bin/aws");
    v.push("/usr/bin/aws");
    assert(v@.map_values(|c: &str| c@) =~= aws_command_candidates());
    v
}

/// The next move of the search for the AWS tool.
#[derive(Debug)]
pub enum AwsProbeStep {
    /// Test whether a file exists at this path.
    Probe(String),
    /// The search is over, with the path found, if any.
    Done(Option<String>),
}

/// Whether the search ends with `r` after the existence tests answered
/// `answers`, one per candidate in order: with the first candidate tested
/// yes, or with none once every candidate was tested no.
pub open spec fn aws_search_ended(answers: Seq<bool>, r: Option<Seq<char>>) -> bool {
    &&& answers.len() <= aws_command_candidates().len()
    &&& match first_existing(aws_command_candidates().take(answers.len() as int), answers) {
        Some(p) => r == Some(p),
        None => r is None && answers.len() == aws_command_candidates().len(),
    }
}

/// What the search does next, given the answers of the existence tests so
/// far, one per candidate in order: it ends with the first candidate
/// tested yes; else it tests the next candidate; else it ends with none.
pub fn next_aws_probe(answers: &Vec<bool>) -> (s: AwsProbeStep)
    requires
        answers@.len() <= aws_command_candidates().len(),
    ensures
        match first_existing(aws_command_candidates().take(answers@.len() as int), answers@) {
            Some(p) => s matches AwsProbeStep::Done(Some(q)) && q@ == p,
            None => if answers@.len() < aws_command_candidates().len() {
                s matches AwsProbeStep::Probe(q) && q@ == aws_command_candidates()[answers@.len() as int]
            } else {
                s matches AwsProbeStep::Done(None)
            },
        },
{
    let paths = aws_command_paths();
    assert(paths@.map_values(|c: &str| c@).len() == paths@.len());
    let n = answers.len();
    let mut tested: Vec<&str> = Vec::new();
    let mut i: usize = 0;
    while i < n
        invariant
            n == answers@.len(),
            n <= 3,
            paths@.len() == 3,
            paths@.map_values(|c: &str| c@) == aws_command_candidates(),
            i <= n,
            tested@.len() == i,
            tested@.map_values(|c: &str| c@) == aws_command_candidates().take(i as int),
        decreases n - i,
    {
        let ghost before = tested@;
        tested.push(paths[i]);
        proof {
            assert(paths@.map_values(|c: &str| c@)[i as int] == paths@[i as int]@);
            let tm = tested@.map_values(|c: &str| c@);
            let bm = before.map_values(|c: &str| c@);
            assert(tested@ == before.push(paths@[i as int]));
            assert forall|j: int| 0 <= j <= i implies #[trigger] tm[j] == aws_command_candidates().take(
                i + 1,
            )[j] by {
                if j < i {
                    assert(bm[j] == aws_command_candidates().take(i as int)[j]);
                    assert(tested@[j] == before[j]);
                }
            }
            assert(tm =~= aws_command_candidates().take(i + 1));
        }
        i = i + 1;
    }
    match pick_first_existing(&tested, answers) {
        Some(p) => AwsProbeStep::Done(Some(p)),
        None => {
            if n < paths.len() {
                proof {
                    assert(paths@.map_values(|c: &str| c@)[n as int] == paths@[n as int]@);
                }
                AwsProbeStep::Probe(String::from_str(paths[n]))
            } else {
                AwsProbeStep::Done(None)
            }
        },
    }
}

/// Finds the AWS command line tool in its usual places, testing them in the
/// order `next_aws_probe` gives and stopping at the first that exists.
/// Which of them exist depends on the file system, so the answers of the
/// tests are left unsaid: the result is the one the search ends with for
/// some answers.
pub fn find_aws_command() -> (r: Option<String>)
    ensures
        exists|answers: Seq<bool>| #[trigger] aws_search_ended(answers, crate::text::opt_view(r)),
{
    let mut answers: Vec<bool> = Vec::new();
    loop
        invariant
            answers@.len() <= aws_command_candidates().len(),
        decreases aws_command_candidates().len() - answers@.len(),
    {
        match next_aws_probe(&answers) {
            AwsProbeStep::Probe(p) => {
                let b = path_exists(p.as_str());
                answers.push(b);
            },
            AwsProbeStep::Done(r) => {
                assert(aws_search_ended(answers@, crate::text::opt_view(r)));
                return r;
            },
        }
    }
}

} // verus!
