use vstd::prelude::*;

use crate::check::http::HttpCheck;

verus! {

/// The closed set of probe kinds. Adding a kind is a local extension here and
/// in the runtime that performs the call, not a rewrite of the core.
#[derive(Clone, Debug)]
pub enum CheckType {
    Http(HttpCheck),
}

impl CheckType {
    /// The label under which the status listing shows this check's kind.
    pub fn as_str(&self) -> (r: &str)
        ensures
            r@ == "HTTP"@,
    {
        match self {
            CheckType::Http(_) => "HTTP",
        }
    }
}

/// One configured check: an optional display name, the cron expression that
/// schedules it, and the protocol-specific probe configuration.
#[derive(Clone, Debug)]
pub struct Check {
    pub name: Option<String>,
    pub cron: String,
    pub check_type: CheckType,
}

impl Check {
    pub fn new(name: Option<String>, cron: String, check_type: CheckType) -> (r: Self)
        ensures
            r.name == name,
            r.cron == cron,
            r.check_type == check_type,
    {
        Check { name, cron, check_type }
    }
}

/// Why a probe failed, kept distinguishable: the call ran out of its
/// configured time budget, the response carried a status outside the accepted
/// set, or the call failed in transport before any response.
#[derive(Clone, Copy, Debug, PartialEq, Eq, Structural)]
pub enum ProbeFailReason {
    TimedOut,
    BadStatus(u16),
    Transport,
}

/// The binary outcome of one bounded-time probe attempt.
#[derive(Clone, Copy, Debug, PartialEq, Eq, Structural)]
pub enum ProbeOutcome {
    Success,
    Failure(ProbeFailReason),
}

impl ProbeOutcome {
    pub fn is_success(&self) -> (r: bool)
        ensures
            r == (*self is Success),
    {
        match self {
            ProbeOutcome::Success => true,
            ProbeOutcome::Failure(_) => false,
        }
    }
}

} // verus!
