//! The decisions of the connect command: which session manager it builds,
//! how it describes the forwarding, and what it does with the outcome of
//! the preventive checks (retrying once after starting a stopped instance
//! when automatic fixes are on, and refusing the connection on critical
//! issues).

use crate::error::{ConnectionError, NimbusError};
use crate::text::{clone_strings, concat2, concat3, decimal, decimal_string, str_eq, strings_view};
use vstd::prelude::*;

verus! {

/// Which session manager the connect command builds.
#[derive(Debug, Clone, Copy, PartialEq, Eq, Structural)]
pub enum ManagerChoice {
    /// With the profile (the region is then not passed).
    Profile,
    /// With the region.
    Region,
    /// With the defaults.
    Default,
}

/// The session manager for the given options: a profile wins over a region.
pub fn manager_choice(profile: &Option<String>, region: &Option<String>) -> (c: ManagerChoice)
    ensures
        c == (if profile is Some {
            ManagerChoice::Profile
        } else if region is Some {
            ManagerChoice::Region
        } else {
            ManagerChoice::Default
        }),
{
    match (profile, region) {
        (Some(_), _) => ManagerChoice::Profile,
        (None, Some(_)) => ManagerChoice::Region,
        (None, None) => ManagerChoice::Default,
    }
}

/// The line describing a port forwarding: through the instance to a remote
/// host, or to the instance itself.
pub open spec fn forwarding_text(
    instance_id: Seq<char>,
    local_port: u16,
    remote_port: u16,
    remote_host: Option<Seq<char>>,
) -> Seq<char> {
    match remote_host {
        Some(h) => "Port forwarding: localhost:"@ + decimal(local_port as nat) + " -> "@ + instance_id
            + " -> "@ + h + ":"@ + decimal(remote_port as nat),
        None => "Port forwarding: "@ + instance_id + ":"@ + decimal(remote_port as nat)
            + " -> localhost:"@ + decimal(local_port as nat),
    }
}

/// The line describing a port forwarding.
pub fn forwarding_line(instance_id: &str, local_port: u16, remote_port: u16, remote_host: &Option<String>) -> (t: String)
    ensures
        t@ == forwarding_text(instance_id@, local_port, remote_port, crate::text::opt_view(*remote_host)),
{
    let l = decimal_string(local_port as u64);
    let r = decimal_string(remote_port as u64);
    match remote_host {
        Some(h) => {
            let a = concat3("Port forwarding: localhost:", l.as_str(), " -> ");
            let b = concat3(a.as_str(), instance_id, " -> ");
            let c = concat3(b.as_str(), h.as_str(), ":");
            let t = concat2(c.as_str(), r.as_str());
            assert(t@ =~= forwarding_text(instance_id@, local_port, remote_port, Some(h@)));
            t
        },
        None => {
            let a = concat3("Port forwarding: ", instance_id, ":");
            let b = concat3(a.as_str(), r.as_str(), " -> localhost:");
            let t = concat2(b.as_str(), l.as_str());
            assert(t@ =~= forwarding_text(instance_id@, local_port, remote_port, None));
            t
        },
    }
}

/// What the preventive checks found, as far as the connect command cares.
#[derive(Debug)]
pub struct PrecheckOutcome {
    /// Whether the checks advise against connecting.
    pub should_abort: bool,
    /// The names of the critical issues, in order.
    pub critical_names: Vec<String>,
    /// The messages of the critical issues, in order.
    pub critical_messages: Vec<String>,
}

/// Where the connect command stands with the preventive checks.
#[derive(Debug, Clone, Copy, PartialEq, Eq, Structural)]
pub enum GatePhase {
    /// The checks ran once.
    Checked,
    /// The instance is being started by an automatic fix.
    Fixing,
    /// The checks run again after the fix.
    Rechecking,
    /// The decision is taken.
    Decided,
}

/// What the caller reports.
#[derive(Debug)]
pub enum GateEvent {
    /// The checks (first or repeated) finished with this outcome, or failed.
    Checked(Result<PrecheckOutcome, String>),
    /// The start fix finished: whether it worked.
    FixDone(bool),
}

/// What the caller is to do next.
#[derive(Debug)]
pub enum GateAction {
    /// Run the start-instance fix.
    StartInstance,
    /// Run the checks again.
    Recheck,
    /// Connect.
    Proceed,
    /// Refuse to connect with this error; `suggest_auto_fix` says whether to
    /// tell the user how to turn automatic fixes on.
    Abort { error: NimbusError, suggest_auto_fix: bool },
    /// The event does not belong to this phase.
    Ignore,
}

/// The issue name that a stopped or unregistered instance is reported
/// under.
pub open spec fn registration_issue() -> Seq<char> {
    "managed_instance_registration"@
}

/// The preventive-check gate of the connect command: its automatic-fix
/// setting, its phase and the outcome it decides on.
#[derive(Debug)]
pub struct PrecheckGate {
    pub auto_fix_enabled: bool,
    pub phase: GatePhase,
    pub outcome: Option<PrecheckOutcome>,
}

fn has_registration_issue(names: &Vec<String>) -> (b: bool)
    ensures
        b == strings_view(names@).contains(registration_issue()),
{
    crate::commands::holds_string(names, "managed_instance_registration")
}

/// The error that refuses the connection: a failed preventive check with
/// the messages of the critical issues.
pub open spec fn refusal_error(messages: Seq<String>, e: NimbusError) -> bool {
    match e {
        NimbusError::Connection(ConnectionError::PreventiveCheckFailed { reason, issues }) => reason@
            == "Critical issues detected during preventive checks"@ && issues@ == messages,
        _ => false,
    }
}

impl PrecheckGate {
    /// A gate that waits for the first checks.
    pub fn new(auto_fix_enabled: bool) -> (g: Self)
        ensures
            g.auto_fix_enabled == auto_fix_enabled,
            g.phase == GatePhase::Checked,
            g.outcome is None,
    {
        PrecheckGate { auto_fix_enabled, phase: GatePhase::Checked, outcome: None }
    }

    fn decide(&mut self, o: PrecheckOutcome) -> (a: GateAction)
        ensures
            final(self).phase == GatePhase::Decided,
            final(self).auto_fix_enabled == old(self).auto_fix_enabled,
            final(self).outcome == Some(o),
            o.should_abort ==> a is Abort && refusal_error(o.critical_messages@, a->error)
                && a->suggest_auto_fix == !old(self).auto_fix_enabled,
            !o.should_abort ==> a is Proceed,
    {
        self.phase = GatePhase::Decided;
        if o.should_abort {
            let error = NimbusError::Connection(
                ConnectionError::PreventiveCheckFailed {
                    reason: String::from_str("Critical issues detected during preventive checks"),
                    issues: clone_strings(&o.critical_messages),
                },
            );
            let suggest = !self.auto_fix_enabled;
            self.outcome = Some(o);
            GateAction::Abort { error, suggest_auto_fix: suggest }
        } else {
            self.outcome = Some(o);
            GateAction::Proceed
        }
    }

    /// Takes what the caller reports and says what to do next: checks that
    /// failed to run let the connection proceed; checks that advise against
    /// connecting because the instance is not registered, with automatic
    /// fixes on, start the instance and check once more; otherwise the
    /// connection proceeds or is refused as the checks advise.
    pub fn step(&mut self, e: GateEvent) -> (a: GateAction)
        ensures
            final(self).auto_fix_enabled == old(self).auto_fix_enabled,
            match (old(self).phase, e) {
                (GatePhase::Checked, GateEvent::Checked(Err(_))) => a is Proceed && final(self).phase
                    == GatePhase::Decided && final(self).outcome == old(self).outcome,
                (GatePhase::Checked, GateEvent::Checked(Ok(o))) => if o.should_abort && old(self).auto_fix_enabled
                    && strings_view(o.critical_names@).contains(registration_issue()) {
                    a is StartInstance && final(self).phase == GatePhase::Fixing && final(self).outcome
                        == Some(o)
                } else if o.should_abort {
                    a is Abort && refusal_error(o.critical_messages@, a->error) && a->suggest_auto_fix
                        == !old(self).auto_fix_enabled && final(self).phase == GatePhase::Decided
                        && final(self).outcome == Some(o)
                } else {
                    a is Proceed && final(self).phase == GatePhase::Decided && final(self).outcome
                        == Some(o)
                },
                (GatePhase::Fixing, GateEvent::FixDone(true)) => a is Recheck && final(self).phase
                    == GatePhase::Rechecking && final(self).outcome == old(self).outcome,
                (GatePhase::Fixing, GateEvent::FixDone(false)) => match old(self).outcome {
                    Some(o) => final(self).phase == GatePhase::Decided && final(self).outcome == Some(o)
                        && if o.should_abort {
                        a is Abort && refusal_error(o.critical_messages@, a->error)
                    } else {
                        a is Proceed
                    },
                    None => a is Proceed && final(self).phase == GatePhase::Decided
                        && final(self).outcome is None,
                },
                (GatePhase::Rechecking, GateEvent::Checked(Ok(o))) => final(self).outcome == Some(o)
                    && if o.should_abort {
                    a is Abort && refusal_error(o.critical_messages@, a->error) && final(self).phase
                        == GatePhase::Decided
                } else {
                    a is Proceed && final(self).phase == GatePhase::Decided
                },
                (GatePhase::Rechecking, GateEvent::Checked(Err(_))) => match old(self).outcome {
                    Some(o) => final(self).phase == GatePhase::Decided && final(self).outcome == Some(o)
                        && if o.should_abort {
                        a is Abort && refusal_error(o.critical_messages@, a->error)
                    } else {
                        a is Proceed
                    },
                    None => a is Proceed && final(self).phase == GatePhase::Decided
                        && final(self).outcome is None,
                },
                _ => a is Ignore && *final(self) == *old(self),
            },
    {
        match (self.phase, e) {
            (GatePhase::Checked, GateEvent::Checked(Err(_))) => {
                self.phase = GatePhase::Decided;
                GateAction::Proceed
            },
            (GatePhase::Checked, GateEvent::Checked(Ok(o))) => {
                if o.should_abort && self.auto_fix_enabled && has_registration_issue(&o.critical_names) {
                    self.phase = GatePhase::Fixing;
                    self.outcome = Some(o);
                    GateAction::StartInstance
                } else {
                    self.decide(o)
                }
            },
            (GatePhase::Fixing, GateEvent::FixDone(true)) => {
                self.phase = GatePhase::Rechecking;
                GateAction::Recheck
            },
            (GatePhase::Fixing, GateEvent::FixDone(false)) | (
                GatePhase::Rechecking,
                GateEvent::Checked(Err(_)),
            ) => {
                let mut kept: Option<PrecheckOutcome> = None;
                std::mem::swap(&mut kept, &mut self.outcome);
                match kept {
                    Some(o) => self.decide(o),
                    None => {
                        self.phase = GatePhase::Decided;
                        GateAction::Proceed
                    },
                }
            },
            (GatePhase::Rechecking, GateEvent::Checked(Ok(o))) => self.decide(o),
            (_, _) => GateAction::Ignore,
        }
    }
}

} // verus!
