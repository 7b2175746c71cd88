//! The stages of a startup, and the error that a failure at each stage
//! becomes.

use vstd::prelude::*;
use vstd::string::StringExecFns;
use crate::error::{ErrorKind, Handling, SupervisorError};

verus! {

/// The stages of a startup, in their order. Each is one piece of outside
/// work that can fail.
#[derive(Clone, Copy, Debug, PartialEq, Eq, Structural)]
pub enum StartupStage {
    /// Find out where the data directory is.
    ResolveDataDir,
    /// Make the data directory.
    CreateDataDir,
    /// Make the directory below it that the backend expects.
    CreateDataSubdir,
    /// Find out where the bundled resources are.
    ResolveResourceDir,
    /// Spawn the backend.
    Spawn,
}

impl StartupStage {
    pub open spec fn spec_kind(self) -> ErrorKind {
        match self {
            StartupStage::Spawn => ErrorKind::Spawn,
            _ => ErrorKind::Resource,
        }
    }

    /// What the message of a failure at this stage begins with.
    pub open spec fn spec_prefix(self) -> Seq<char> {
        match self {
            StartupStage::ResolveDataDir => "Failed to resolve app data directory"@,
            StartupStage::CreateDataDir => "Failed to create app data directory "@,
            StartupStage::CreateDataSubdir => "Failed to create data subdirectory "@,
            StartupStage::ResolveResourceDir => "Failed to resolve resource directory"@,
            StartupStage::Spawn => "Failed to spawn backend process"@,
        }
    }

    /// Whether the message of a failure at this stage names the path that
    /// the stage worked on.
    pub open spec fn names_path(self) -> bool {
        self == StartupStage::CreateDataDir || self == StartupStage::CreateDataSubdir
    }

    /// The message of a failure at this stage: the prefix, the path for
    /// the stages that name it, a colon, a space and the detail.
    pub open spec fn spec_message(self, path: Seq<char>, detail: Seq<char>) -> Seq<char> {
        if self.names_path() {
            self.spec_prefix() + path + ": "@ + detail
        } else {
            self.spec_prefix() + ": "@ + detail
        }
    }

    /// The stage that follows this one, if any.
    pub open spec fn spec_next(self) -> Option<StartupStage> {
        match self {
            StartupStage::ResolveDataDir => Some(StartupStage::CreateDataDir),
            StartupStage::CreateDataDir => Some(StartupStage::CreateDataSubdir),
            StartupStage::CreateDataSubdir => Some(StartupStage::ResolveResourceDir),
            StartupStage::ResolveResourceDir => Some(StartupStage::Spawn),
            StartupStage::Spawn => None,
        }
    }

    /// How many stages come before this one.
    pub open spec fn position(self) -> nat {
        match self {
            StartupStage::ResolveDataDir => 0,
            StartupStage::CreateDataDir => 1,
            StartupStage::CreateDataSubdir => 2,
            StartupStage::ResolveResourceDir => 3,
            StartupStage::Spawn => 4,
        }
    }

    pub fn first() -> (stage: StartupStage)
        ensures
            stage == StartupStage::ResolveDataDir,
    {
        StartupStage::ResolveDataDir
    }

    fn prefix(self) -> (prefix: &'static str)
        ensures
            prefix@ == self.spec_prefix(),
    {
        match self {
            StartupStage::ResolveDataDir => "Failed to resolve app data directory",
            StartupStage::CreateDataDir => "Failed to create app data directory ",
            StartupStage::CreateDataSubdir => "Failed to create data subdirectory ",
            StartupStage::ResolveResourceDir => "Failed to resolve resource directory",
            StartupStage::Spawn => "Failed to spawn backend process",
        }
    }

    /// The error that a failure at this stage becomes. `path` is what the
    /// stage worked on and `detail` is what the system said.
    pub fn failure(self, path: &str, detail: &str) -> (error: SupervisorError)
        ensures
            error.kind == self.spec_kind(),
            error.kind.spec_fatal_to_startup(),
            error.message@ == self.spec_message(path@, detail@),
    {
        let mut message = String::from_str(self.prefix());
        match self {
            StartupStage::CreateDataDir => {
                message.append(path);
            },
            StartupStage::CreateDataSubdir => {
                message.append(path);
            },
            _ => {},
        }
        message.append(": ");
        message.append(detail);
        let kind = match self {
            StartupStage::Spawn => ErrorKind::Spawn,
            _ => ErrorKind::Resource,
        };
        SupervisorError { kind, message }
    }
}

/// How one stage of a startup went.
#[derive(Clone, Debug, PartialEq, Eq)]
pub enum StageResult {
    Done,
    /// It failed; `path` is what it worked on, `detail` what the system
    /// said.
    Failed { path: String, detail: String },
}

/// What follows a stage.
#[derive(Clone, Debug, PartialEq, Eq)]
pub enum StartupStep {
    /// Go on with this stage.
    Continue(StartupStage),
    /// The backend is spawned: store its handle, attach the capture of
    /// both streams and launch the prober. Nothing waits for health.
    Started,
    /// The startup has failed with this error.
    Failed(SupervisorError),
}

/// Decides what follows a stage from how it went: the first failure ends
/// the startup with the error of its stage, and success leads to the next
/// stage or, after the last, to a started backend.
pub fn after_stage(stage: StartupStage, result: &StageResult) -> (step: StartupStep)
    ensures
        match *result {
            StageResult::Done => match stage.spec_next() {
                Some(next) => step == StartupStep::Continue(next),
                None => step == StartupStep::Started,
            },
            StageResult::Failed { path, detail } => step matches StartupStep::Failed(error)
                && error.kind == stage.spec_kind() && error.message@ == stage.spec_message(
                path@,
                detail@,
            ),
        },
{
    match result {
        StageResult::Done => match stage {
            StartupStage::ResolveDataDir => StartupStep::Continue(StartupStage::CreateDataDir),
            StartupStage::CreateDataDir => StartupStep::Continue(StartupStage::CreateDataSubdir),
            StartupStage::CreateDataSubdir => StartupStep::Continue(
                StartupStage::ResolveResourceDir,
            ),
            StartupStage::ResolveResourceDir => StartupStep::Continue(StartupStage::Spawn),
            StartupStage::Spawn => StartupStep::Started,
        },
        StageResult::Failed { path, detail } => StartupStep::Failed(
            stage.failure(path.as_str(), detail.as_str()),
        ),
    }
}

/// The stages follow one another without a loop: each next stage lies one
/// further on, the first lies at the start and only the spawn has none
/// after it.
pub proof fn lemma_stages_in_order(stage: StartupStage)
    ensures
        StartupStage::ResolveDataDir.position() == 0,
        stage.spec_next() matches Some(next) ==> next.position() == stage.position() + 1,
        stage.spec_next() is None <==> stage == StartupStage::Spawn,
        stage.position() <= 4,
{
}

/// Every error of a startup surfaces: it is fatal to the startup and
/// reaches the parent application as an Error outcome.
pub proof fn lemma_startup_errors_surface(stage: StartupStage)
    ensures
        stage.spec_kind().spec_fatal_to_startup(),
        stage.spec_kind().spec_handling() == Handling::Surface,
{
}

} // verus!
