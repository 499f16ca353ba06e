//! Controllers of the single kind of trigger, which either follows a schedule or waits for requests.
pub mod action;
pub mod git_repo;
pub mod trigger;
pub mod trigger_task;

use crate::error::KubeError;
use crate::resources::trigger::TriggerStatus;
use crate::string_map::StringMap;
use vstd::prelude::*;

verus! {

/// Which triggers a controller works for.
#[derive(Clone, Copy, Debug, PartialEq, Eq, Structural)]
pub enum ControllerType {
    /// Those that follow a schedule. Only the leader works for them.
    Leader,
    /// Those that wait for requests.
    Web,
}

/// What is known of the triggers of a controller.
#[derive(Debug)]
pub struct TriggersState<S> {
    /// Identifiers of the scheduled tasks, by the keys of their triggers.
    pub tasks: StringMap<String>,
    /// What the triggers were last seen to be, by their keys.
    pub specs: StringMap<S>,
    /// Statuses of the triggers, by their keys.
    pub statuses: StringMap<TriggerStatus>,
}

impl<S> Default for TriggersState<S> {
    fn default() -> (r: Self)
        ensures
            r.tasks@ == Map::<Seq<char>, String>::empty(),
            r.specs@ == Map::<Seq<char>, S>::empty(),
            r.statuses@ == Map::<Seq<char>, TriggerStatus>::empty(),
    {
        TriggersState { tasks: StringMap::new(), specs: StringMap::new(), statuses: StringMap::new() }
    }
}

/// Whether a source can be used.
#[derive(Clone, Copy, Debug, PartialEq, Eq, Structural)]
pub enum SourceState {
    /// It can.
    Ready,
    /// Its URI is written wrongly.
    WrongRepoUriFormat,
    /// It isn't clear how to log in.
    AuthConfigError,
}

/// Status of a repository.
#[derive(Clone, Copy, Debug, PartialEq, Eq, Structural)]
pub struct GitRepoStatus {
    /// Whether it can be used.
    pub state: SourceState,
}

/// Reason why a resource couldn't be reconciled.
#[derive(Debug)]
pub enum ControllerError {
    /// An error of the Kubernetes API.
    KubeError(KubeError),
    /// The URI of a repository is written wrongly.
    WrongSourceUri,
    /// It isn't clear how to log in to a repository.
    WrongAuthConfig,
    /// It isn't clear how to check a server's certificate.
    WrongTlsConfig,
}

/// Event that tells of a resource that is configured wrongly.
#[derive(Debug)]
pub struct WarningEvent {
    /// Why there is an event.
    pub reason: String,
    /// What is wrong.
    pub note: String,
    /// What was being done.
    pub action: String,
}

} // verus!
