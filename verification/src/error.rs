//! The errors of the supervisor, and what is done about each kind.

use vstd::prelude::*;
use vstd::string::StringExecFns;
use crate::outcome::{OutcomeView, ReadinessOutcome};
use crate::probe::{HealthStatus, HealthStatusView, ProbeConfig};

verus! {

/// The kinds of error.
#[derive(Clone, Copy, Debug, PartialEq, Eq, Structural)]
pub enum ErrorKind {
    /// A directory or file that is needed cannot be made or reached.
    Resource,
    /// The executable is missing or cannot be run.
    Spawn,
    /// One probe failed: no connection, a timeout, an unreadable body.
    Probe,
    /// The attempts of the prober ran out.
    Timeout,
    /// The termination signal could not be sent.
    Shutdown,
}

/// What is done about an error.
#[derive(Clone, Copy, Debug, PartialEq, Eq, Structural)]
pub enum Handling {
    /// It goes to the parent application as an Error outcome.
    Surface,
    /// It is logged at low severity and the prober tries again.
    Retry,
    /// It is logged and goes no further.
    LogOnly,
}

impl ErrorKind {
    pub open spec fn spec_handling(self) -> Handling {
        match self {
            ErrorKind::Resource => Handling::Surface,
            ErrorKind::Spawn => Handling::Surface,
            ErrorKind::Timeout => Handling::Surface,
            ErrorKind::Probe => Handling::Retry,
            ErrorKind::Shutdown => Handling::LogOnly,
        }
    }

    pub fn handling(self) -> (handling: Handling)
        ensures
            handling == self.spec_handling(),
    {
        match self {
            ErrorKind::Resource => Handling::Surface,
            ErrorKind::Spawn => Handling::Surface,
            ErrorKind::Timeout => Handling::Surface,
            ErrorKind::Probe => Handling::Retry,
            ErrorKind::Shutdown => Handling::LogOnly,
        }
    }

    /// The errors that end a startup.
    pub open spec fn spec_fatal_to_startup(self) -> bool {
        self == ErrorKind::Resource || self == ErrorKind::Spawn
    }

    pub fn fatal_to_startup(self) -> (yes: bool)
        ensures
            yes == self.spec_fatal_to_startup(),
    {
        match self {
            ErrorKind::Resource => true,
            ErrorKind::Spawn => true,
            _ => false,
        }
    }
}

/// An error with its message.
#[derive(Clone, Debug, PartialEq, Eq)]
pub struct SupervisorError {
    pub kind: ErrorKind,
    pub message: String,
}

impl SupervisorError {
    /// The outcome that goes to the parent application for this error:
    /// an Error with the same message for an error that surfaces, nothing
    /// for the others.
    pub fn outcome(&self) -> (outcome: Option<ReadinessOutcome>)
        ensures
            self.kind.spec_handling() == Handling::Surface ==> (outcome matches Some(o) && o@
                == OutcomeView::Error(self.message@)),
            self.kind.spec_handling() != Handling::Surface ==> outcome is None,
    {
        match self.kind.handling() {
            Handling::Surface => Some(ReadinessOutcome::Error(self.message.clone())),
            _ => None,
        }
    }
}

impl SupervisorError {
    /// The error of a prober whose attempts have run out. Its message is
    /// the timeout message of the configuration.
    pub fn timeout(config: &ProbeConfig) -> (error: SupervisorError)
        ensures
            error.kind == ErrorKind::Timeout,
            error.message@ == config.spec_timeout_message(),
    {
        SupervisorError { kind: ErrorKind::Timeout, message: config.timeout_message() }
    }

    /// The error of one probe that did not find the backend healthy, with
    /// the reason as its message. A healthy result is no error.
    pub fn probe(status: &HealthStatus) -> (error: Option<SupervisorError>)
        ensures
            match status@ {
                HealthStatusView::Healthy => error is None,
                HealthStatusView::Unhealthy(reason) => error matches Some(e) && e.kind
                    == ErrorKind::Probe && e.message@ == reason,
                HealthStatusView::Unreachable(reason) => error matches Some(e) && e.kind
                    == ErrorKind::Probe && e.message@ == reason,
            },
    {
        match status {
            HealthStatus::Healthy => None,
            HealthStatus::Unhealthy(reason) => Some(
                SupervisorError { kind: ErrorKind::Probe, message: reason.clone() },
            ),
            HealthStatus::Unreachable(reason) => Some(
                SupervisorError { kind: ErrorKind::Probe, message: reason.clone() },
            ),
        }
    }

    pub open spec fn spec_shutdown_message(detail: Seq<char>) -> Seq<char> {
        "Failed to kill backend process: "@ + detail
    }

    /// The error of a termination signal that could not be sent; `detail`
    /// is what the system said.
    pub fn shutdown(detail: &str) -> (error: SupervisorError)
        ensures
            error.kind == ErrorKind::Shutdown,
            error.message@ == Self::spec_shutdown_message(detail@),
    {
        let mut message = String::from_str("Failed to kill backend process: ");
        message.append(detail);
        SupervisorError { kind: ErrorKind::Shutdown, message }
    }
}

/// Only what ends a startup or a prober reaches the parent application:
/// a single failed probe and a failed termination signal never do.
pub proof fn lemma_what_surfaces(kind: ErrorKind)
    ensures
        kind.spec_handling() == Handling::Surface <==> (kind.spec_fatal_to_startup() || kind
            == ErrorKind::Timeout),
        kind == ErrorKind::Probe ==> kind.spec_handling() == Handling::Retry,
        kind == ErrorKind::Shutdown ==> kind.spec_handling() == Handling::LogOnly,
{
}

} // verus!
