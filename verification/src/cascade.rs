//! The four-stage selection cascade as a state machine.
//!
//! The flow is strictly linear: choose a credential profile, then walk
//! cluster, service, task and container, fetching the candidates of each
//! stage with the bindings of the earlier ones, and finally read the
//! free-text command. Everything the flow needs from the outside world —
//! the credentials file, the four lookups, the interactive chooser — is an
//! [`Action`] the driver performs; the driver hands the outcome back as an
//! [`Event`], and [`step`] computes the sole legal successor state or the
//! error that aborts the run. The driver holds no logic of its own: it
//! performs actions, reduces fetched names to short identifiers (see
//! [`crate::lookup`]), and loops until [`State::Finished`] or an error.

use crate::command::SelectionContext;
use crate::errors::{RunError, Stage};
use vstd::prelude::*;

verus! {

/// Where the run stands. Every binding made so far is carried along, so a
/// later stage is unreachable without the earlier choices it interpolates.
#[derive(Debug, PartialEq, Eq)]
pub enum State {
    /// Nothing has happened yet: the profile candidates are wanted.
    Start,
    /// Profile candidates are on the table, awaiting a choice.
    ChoosingProfile { profiles: Vec<String> },
    /// A profile is bound; the cluster list is wanted.
    FetchingClusters { profile: String },
    /// Cluster candidates are on the table, awaiting a choice.
    ChoosingCluster { profile: String, clusters: Vec<String> },
    /// A cluster is bound; its service list is wanted.
    FetchingServices { profile: String, cluster: String },
    /// Service candidates are on the table, awaiting a choice.
    ChoosingService { profile: String, cluster: String, services: Vec<String> },
    /// A service is bound; the task list for cluster and service is wanted.
    FetchingTasks { profile: String, cluster: String, service: String },
    /// Task candidates are on the table, awaiting a choice.
    ChoosingTask { profile: String, cluster: String, service: String, tasks: Vec<String> },
    /// A task is bound; the container list for cluster and task is wanted.
    FetchingContainers { profile: String, cluster: String, service: String, task: String },
    /// Container candidates are on the table, awaiting a choice.
    ChoosingContainer {
        profile: String,
        cluster: String,
        service: String,
        task: String,
        containers: Vec<String>,
    },
    /// All four selections are bound; the free-text command is wanted.
    AwaitingCommand {
        profile: String,
        cluster: String,
        service: String,
        task: String,
        container: String,
    },
    /// The run is complete; the context is ready for synthesis.
    Finished { context: SelectionContext },
}

/// What the driver must do next. Each fetch carries the bindings it
/// interpolates, so the driver never reads them from anywhere else.
#[derive(Debug, PartialEq, Eq)]
pub enum Action {
    /// Read the credentials file and hand back the profile names.
    LoadProfiles,
    /// Put the current state's candidate list in front of the chooser.
    PromptChoice { stage: Stage },
    /// List the clusters visible to the bound profile.
    FetchClusters { profile: String },
    /// List the services of the bound cluster.
    FetchServices { cluster: String },
    /// List the tasks of the bound service in the bound cluster.
    FetchTasks { cluster: String, service: String },
    /// List the containers of the bound task in the bound cluster.
    FetchContainers { cluster: String, task: String },
    /// Read the free-text command line.
    PromptCommand,
}

/// What came back from performing an action.
#[derive(Debug, PartialEq, Eq)]
pub enum Event {
    /// The credentials file was read; these are its profile names.
    ProfilesLoaded { profiles: Vec<String> },
    /// The credentials file could not be read.
    CredentialsMissing,
    /// A lookup returned, and its names reduced to these short identifiers
    /// (container names arrive plain and are passed through).
    Fetched { candidates: Vec<String> },
    /// A lookup failed; carries the reported cause.
    LookupError { cause: String },
    /// The chooser returned the zero-based index of the picked candidate.
    Chose { index: usize },
    /// The free-text prompt returned this line, verbatim; any string,
    /// including the empty one, is accepted.
    CommandEntered { command: String },
    /// The user interrupted the prompt.
    Interrupted,
}

/// The transition relation of the cascade: from a state and an event to the
/// sole legal successor, or to the error that aborts the run. An empty
/// candidate list at a lookup stage is fatal here, not at the lookup; an
/// out-of-range chooser index, or an event the state never awaits, is
/// defended as [`RunError::Internal`].
pub open spec fn spec_step(s: State, e: Event) -> Result<State, RunError> {
    match (s, e) {
        (State::Start, Event::ProfilesLoaded { profiles }) => Ok(
            State::ChoosingProfile { profiles },
        ),
        (State::Start, Event::CredentialsMissing) => Err(RunError::CredentialsFileMissing),
        (State::ChoosingProfile { profiles }, Event::Chose { index }) => {
            if (index as int) < profiles@.len() {
                Ok(State::FetchingClusters { profile: profiles@[index as int] })
            } else {
                Err(RunError::Internal)
            }
        },
        (State::ChoosingProfile { .. }, Event::Interrupted) => Err(RunError::PromptAborted),
        (State::FetchingClusters { profile }, Event::Fetched { candidates }) => {
            if candidates@.len() == 0 {
                Err(RunError::NoCandidates { stage: Stage::Cluster })
            } else {
                Ok(State::ChoosingCluster { profile, clusters: candidates })
            }
        },
        (State::FetchingClusters { .. }, Event::LookupError { cause }) => Err(
            RunError::LookupFailed { cause },
        ),
        (State::ChoosingCluster { profile, clusters }, Event::Chose { index }) => {
            if (index as int) < clusters@.len() {
                Ok(State::FetchingServices { profile, cluster: clusters@[index as int] })
            } else {
                Err(RunError::Internal)
            }
        },
        (State::ChoosingCluster { .. }, Event::Interrupted) => Err(RunError::PromptAborted),
        (State::FetchingServices { profile, cluster }, Event::Fetched { candidates }) => {
            if candidates@.len() == 0 {
                Err(RunError::NoCandidates { stage: Stage::Service })
            } else {
                Ok(State::ChoosingService { profile, cluster, services: candidates })
            }
        },
        (State::FetchingServices { .. }, Event::LookupError { cause }) => Err(
            RunError::LookupFailed { cause },
        ),
        (State::ChoosingService { profile, cluster, services }, Event::Chose { index }) => {
            if (index as int) < services@.len() {
                Ok(
                    State::FetchingTasks {
                        profile,
                        cluster,
                        service: services@[index as int],
                    },
                )
            } else {
                Err(RunError::Internal)
            }
        },
        (State::ChoosingService { .. }, Event::Interrupted) => Err(RunError::PromptAborted),
        (State::FetchingTasks { profile, cluster, service }, Event::Fetched { candidates }) => {
            if candidates@.len() == 0 {
                Err(RunError::NoCandidates { stage: Stage::Task })
            } else {
                Ok(State::ChoosingTask { profile, cluster, service, tasks: candidates })
            }
        },
        (State::FetchingTasks { .. }, Event::LookupError { cause }) => Err(
            RunError::LookupFailed { cause },
        ),
        (State::ChoosingTask { profile, cluster, service, tasks }, Event::Chose { index }) => {
            if (index as int) < tasks@.len() {
                Ok(
                    State::FetchingContainers {
                        profile,
                        cluster,
                        service,
                        task: tasks@[index as int],
                    },
                )
            } else {
                Err(RunError::Internal)
            }
        },
        (State::ChoosingTask { .. }, Event::Interrupted) => Err(RunError::PromptAborted),
        (
            State::FetchingContainers { profile, cluster, service, task },
            Event::Fetched { candidates },
        ) => {
            if candidates@.len() == 0 {
                Err(RunError::NoCandidates { stage: Stage::Container })
            } else {
                Ok(
                    State::ChoosingContainer {
                        profile,
                        cluster,
                        service,
                        task,
                        containers: candidates,
                    },
                )
            }
        },
        (State::FetchingContainers { .. }, Event::LookupError { cause }) => Err(
            RunError::LookupFailed { cause },
        ),
        (
            State::ChoosingContainer { profile, cluster, service, task, containers },
            Event::Chose { index },
        ) => {
            if (index as int) < containers@.len() {
                Ok(
                    State::AwaitingCommand {
                        profile,
                        cluster,
                        service,
                        task,
                        container: containers@[index as int],
                    },
                )
            } else {
                Err(RunError::Internal)
            }
        },
        (State::ChoosingContainer { .. }, Event::Interrupted) => Err(RunError::PromptAborted),
        (
            State::AwaitingCommand { profile, cluster, service, task, container },
            Event::CommandEntered { command },
        ) => Ok(
            State::Finished {
                context: SelectionContext { profile, cluster, service, task, container, command },
            },
        ),
        (State::AwaitingCommand { .. }, Event::Interrupted) => Err(RunError::PromptAborted),
        _ => Err(RunError::Internal),
    }
}

/// The action a state asks of the driver, or nothing once the run finished.
pub open spec fn spec_next_action(s: State) -> Option<Action> {
    match s {
        State::Start => Some(Action::LoadProfiles),
        State::ChoosingProfile { .. } => Some(Action::PromptChoice { stage: Stage::Profile }),
        State::FetchingClusters { profile } => Some(Action::FetchClusters { profile }),
        State::ChoosingCluster { .. } => Some(Action::PromptChoice { stage: Stage::Cluster }),
        State::FetchingServices { cluster, .. } => Some(Action::FetchServices { cluster }),
        State::ChoosingService { .. } => Some(Action::PromptChoice { stage: Stage::Service }),
        State::FetchingTasks { cluster, service, .. } => Some(
            Action::FetchTasks { cluster, service },
        ),
        State::ChoosingTask { .. } => Some(Action::PromptChoice { stage: Stage::Task }),
        State::FetchingContainers { cluster, task, .. } => Some(
            Action::FetchContainers { cluster, task },
        ),
        State::ChoosingContainer { .. } => Some(Action::PromptChoice { stage: Stage::Container }),
        State::AwaitingCommand { .. } => Some(Action::PromptCommand),
        State::Finished { .. } => None,
    }
}

/// Applies one event to the current state.
pub fn step(s: State, e: Event) -> (res: Result<State, RunError>)
    ensures
        res == spec_step(s, e),
{
    match (s, e) {
        (State::Start, Event::ProfilesLoaded { profiles }) => Ok(
            State::ChoosingProfile { profiles },
        ),
        (State::Start, Event::CredentialsMissing) => Err(RunError::CredentialsFileMissing),
        (State::ChoosingProfile { profiles }, Event::Chose { index }) => {
            if index < profiles.len() {
                let profile = profiles[index].clone();
                Ok(State::FetchingClusters { profile })
            } else {
                Err(RunError::Internal)
            }
        },
        (State::ChoosingProfile { .. }, Event::Interrupted) => Err(RunError::PromptAborted),
        (State::FetchingClusters { profile }, Event::Fetched { candidates }) => {
            if candidates.len() == 0 {
                Err(RunError::NoCandidates { stage: Stage::Cluster })
            } else {
                Ok(State::ChoosingCluster { profile, clusters: candidates })
            }
        },
        (State::FetchingClusters { .. }, Event::LookupError { cause }) => Err(
            RunError::LookupFailed { cause },
        ),
        (State::ChoosingCluster { profile, clusters }, Event::Chose { index }) => {
            if index < clusters.len() {
                let cluster = clusters[index].clone();
                Ok(State::FetchingServices { profile, cluster })
            } else {
                Err(RunError::Internal)
            }
        },
        (State::ChoosingCluster { .. }, Event::Interrupted) => Err(RunError::PromptAborted),
        (State::FetchingServices { profile, cluster }, Event::Fetched { candidates }) => {
            if candidates.len() == 0 {
                Err(RunError::NoCandidates { stage: Stage::Service })
            } else {
                Ok(State::ChoosingService { profile, cluster, services: candidates })
            }
        },
        (State::FetchingServices { .. }, Event::LookupError { cause }) => Err(
            RunError::LookupFailed { cause },
        ),
        (State::ChoosingService { profile, cluster, services }, Event::Chose { index }) => {
            if index < services.len() {
                let service = services[index].clone();
                Ok(State::FetchingTasks { profile, cluster, service })
            } else {
                Err(RunError::Internal)
            }
        },
        (State::ChoosingService { .. }, Event::Interrupted) => Err(RunError::PromptAborted),
        (State::FetchingTasks { profile, cluster, service }, Event::Fetched { candidates }) => {
            if candidates.len() == 0 {
                Err(RunError::NoCandidates { stage: Stage::Task })
            } else {
                Ok(State::ChoosingTask { profile, cluster, service, tasks: candidates })
            }
        },
        (State::FetchingTasks { .. }, Event::LookupError { cause }) => Err(
            RunError::LookupFailed { cause },
        ),
        (State::ChoosingTask { profile, cluster, service, tasks }, Event::Chose { index }) => {
            if index < tasks.len() {
                let task = tasks[index].clone();
                Ok(State::FetchingContainers { profile, cluster, service, task })
            } else {
                Err(RunError::Internal)
            }
        },
        (State::ChoosingTask { .. }, Event::Interrupted) => Err(RunError::PromptAborted),
        (
            State::FetchingContainers { profile, cluster, service, task },
            Event::Fetched { candidates },
        ) => {
            if candidates.len() == 0 {
                Err(RunError::NoCandidates { stage: Stage::Container })
            } else {
                Ok(
                    State::ChoosingContainer {
                        profile,
                        cluster,
                        service,
                        task,
                        containers: candidates,
                    },
                )
            }
        },
        (State::FetchingContainers { .. }, Event::LookupError { cause }) => Err(
            RunError::LookupFailed { cause },
        ),
        (
            State::ChoosingContainer { profile, cluster, service, task, containers },
            Event::Chose { index },
        ) => {
            if index < containers.len() {
                let container = containers[index].clone();
                Ok(State::AwaitingCommand { profile, cluster, service, task, container })
            } else {
                Err(RunError::Internal)
            }
        },
        (State::ChoosingContainer { .. }, Event::Interrupted) => Err(RunError::PromptAborted),
        (
            State::AwaitingCommand { profile, cluster, service, task, container },
            Event::CommandEntered { command },
        ) => Ok(
            State::Finished {
                context: SelectionContext { profile, cluster, service, task, container, command },
            },
        ),
        (State::AwaitingCommand { .. }, Event::Interrupted) => Err(RunError::PromptAborted),
        (_, _) => Err(RunError::Internal),
    }
}

/// What the driver must do in the current state, or nothing once finished.
pub fn next_action(s: &State) -> (res: Option<Action>)
    ensures
        res == spec_next_action(*s),
{
    match s {
        State::Start => Some(Action::LoadProfiles),
        State::ChoosingProfile { .. } => Some(Action::PromptChoice { stage: Stage::Profile }),
        State::FetchingClusters { profile } => Some(
            Action::FetchClusters { profile: profile.clone() },
        ),
        State::ChoosingCluster { .. } => Some(Action::PromptChoice { stage: Stage::Cluster }),
        State::FetchingServices { cluster, .. } => Some(
            Action::FetchServices { cluster: cluster.clone() },
        ),
        State::ChoosingService { .. } => Some(Action::PromptChoice { stage: Stage::Service }),
        State::FetchingTasks { cluster, service, .. } => Some(
            Action::FetchTasks { cluster: cluster.clone(), service: service.clone() },
        ),
        State::ChoosingTask { .. } => Some(Action::PromptChoice { stage: Stage::Task }),
        State::FetchingContainers { cluster, task, .. } => Some(
            Action::FetchContainers { cluster: cluster.clone(), task: task.clone() },
        ),
        State::ChoosingContainer { .. } => Some(Action::PromptChoice { stage: Stage::Container }),
        State::AwaitingCommand { .. } => Some(Action::PromptCommand),
        State::Finished { .. } => None,
    }
}

/// The profile bound in a state, if one has been chosen yet.
pub open spec fn bound_profile(s: State) -> Option<String> {
    match s {
        State::Start => None,
        State::ChoosingProfile { .. } => None,
        State::FetchingClusters { profile } => Some(profile),
        State::ChoosingCluster { profile, .. } => Some(profile),
        State::FetchingServices { profile, .. } => Some(profile),
        State::ChoosingService { profile, .. } => Some(profile),
        State::FetchingTasks { profile, .. } => Some(profile),
        State::ChoosingTask { profile, .. } => Some(profile),
        State::FetchingContainers { profile, .. } => Some(profile),
        State::ChoosingContainer { profile, .. } => Some(profile),
        State::AwaitingCommand { profile, .. } => Some(profile),
        State::Finished { context } => Some(context.profile),
    }
}

/// The cluster bound in a state, if one has been chosen yet.
pub open spec fn bound_cluster(s: State) -> Option<String> {
    match s {
        State::FetchingServices { cluster, .. } => Some(cluster),
        State::ChoosingService { cluster, .. } => Some(cluster),
        State::FetchingTasks { cluster, .. } => Some(cluster),
        State::ChoosingTask { cluster, .. } => Some(cluster),
        State::FetchingContainers { cluster, .. } => Some(cluster),
        State::ChoosingContainer { cluster, .. } => Some(cluster),
        State::AwaitingCommand { cluster, .. } => Some(cluster),
        State::Finished { context } => Some(context.cluster),
        _ => None,
    }
}

/// The service bound in a state, if one has been chosen yet.
pub open spec fn bound_service(s: State) -> Option<String> {
    match s {
        State::FetchingTasks { service, .. } => Some(service),
        State::ChoosingTask { service, .. } => Some(service),
        State::FetchingContainers { service, .. } => Some(service),
        State::ChoosingContainer { service, .. } => Some(service),
        State::AwaitingCommand { service, .. } => Some(service),
        State::Finished { context } => Some(context.service),
        _ => None,
    }
}

/// The task bound in a state, if one has been chosen yet.
pub open spec fn bound_task(s: State) -> Option<String> {
    match s {
        State::FetchingContainers { task, .. } => Some(task),
        State::ChoosingContainer { task, .. } => Some(task),
        State::AwaitingCommand { task, .. } => Some(task),
        State::Finished { context } => Some(context.task),
        _ => None,
    }
}

/// The container bound in a state, if one has been chosen yet.
pub open spec fn bound_container(s: State) -> Option<String> {
    match s {
        State::AwaitingCommand { container, .. } => Some(container),
        State::Finished { context } => Some(context.container),
        _ => None,
    }
}

/// A selection is immutable once bound: whatever step the run takes, every
/// binding already made is carried unchanged into the successor state, so
/// the context handed to synthesis holds exactly the values chosen along
/// the way.
pub proof fn lemma_bindings_immutable(s: State, e: Event)
    ensures
        spec_step(s, e) matches Ok(s2) ==> (bound_profile(s) matches Some(p) ==> bound_profile(s2)
            == Some(p)),
        spec_step(s, e) matches Ok(s2) ==> (bound_cluster(s) matches Some(c) ==> bound_cluster(s2)
            == Some(c)),
        spec_step(s, e) matches Ok(s2) ==> (bound_service(s) matches Some(v) ==> bound_service(s2)
            == Some(v)),
        spec_step(s, e) matches Ok(s2) ==> (bound_task(s) matches Some(t) ==> bound_task(s2)
            == Some(t)),
        spec_step(s, e) matches Ok(s2) ==> (bound_container(s) matches Some(c) ==> bound_container(
            s2,
        ) == Some(c)),
{
}

/// Every lookup action filters by the values already bound in the state that
/// requests it, never by anything else.
pub proof fn lemma_actions_use_bound_values(s: State)
    ensures
        spec_next_action(s) matches Some(Action::FetchClusters { profile }) ==> bound_profile(s)
            == Some(profile),
        spec_next_action(s) matches Some(Action::FetchServices { cluster }) ==> bound_cluster(s)
            == Some(cluster),
        spec_next_action(s) matches Some(Action::FetchTasks { cluster, service }) ==> bound_cluster(
            s,
        ) == Some(cluster) && bound_service(s) == Some(service),
        spec_next_action(s) matches Some(Action::FetchContainers { cluster, task })
            ==> bound_cluster(s) == Some(cluster) && bound_task(s) == Some(task),
{
}

/// The cluster lookup is never requested before a profile has been chosen:
/// the only transition into a state that asks for the cluster list is a
/// choice from a non-empty profile candidate list, and the profile the action
/// carries is exactly the chosen candidate.
pub proof fn lemma_clusters_need_bound_profile(s: State, e: Event)
    ensures
        spec_step(s, e) matches Ok(s2) ==> (spec_next_action(s2) matches Some(
            Action::FetchClusters { profile },
        ) ==> (s matches State::ChoosingProfile { profiles } && e matches Event::Chose { index }
            && profiles@.len() > 0 && (index as int) < profiles@.len()
            && profile == profiles@[index as int])),
{
}

/// The service lookup is never requested before the cluster lookup has
/// returned a non-empty candidate list and a cluster has been chosen from it:
/// the only transition into a state that asks for the service list is such a
/// choice, and the filter the action carries is exactly the chosen cluster.
pub proof fn lemma_services_need_bound_cluster(s: State, e: Event)
    ensures
        spec_step(s, e) matches Ok(s2) ==> (spec_next_action(s2) matches Some(
            Action::FetchServices { cluster },
        ) ==> (s matches State::ChoosingCluster { clusters, .. } && e matches Event::Chose { index }
            && clusters@.len() > 0 && (index as int) < clusters@.len()
            && cluster == clusters@[index as int])),
{
}

/// The task lookup is never requested before a service has been chosen from
/// a non-empty candidate list; the cluster it filters by is the one already
/// bound when the service candidates were fetched.
pub proof fn lemma_tasks_need_bound_service(s: State, e: Event)
    ensures
        spec_step(s, e) matches Ok(s2) ==> (spec_next_action(s2) matches Some(
            Action::FetchTasks { cluster, service },
        ) ==> (s matches State::ChoosingService { cluster: c0, services, .. } && e matches
            Event::Chose { index } && services@.len() > 0 && (index as int) < services@.len()
            && service == services@[index as int] && cluster == c0)),
{
}

/// The container lookup is never requested before a task has been chosen
/// from a non-empty candidate list; the cluster it filters by is the one
/// already bound when the task candidates were fetched.
pub proof fn lemma_containers_need_bound_task(s: State, e: Event)
    ensures
        spec_step(s, e) matches Ok(s2) ==> (spec_next_action(s2) matches Some(
            Action::FetchContainers { cluster, task },
        ) ==> (s matches State::ChoosingTask { cluster: c0, tasks, .. } && e matches Event::Chose {
            index,
        } && tasks@.len() > 0 && (index as int) < tasks@.len() && task == tasks@[index as int]
            && cluster == c0)),
{
}

/// An empty candidate list at any lookup stage aborts the run with that
/// stage's name. The step yields an error, and an error has no successor
/// state to act from, so no further lookup is ever requested.
pub proof fn lemma_empty_candidates_abort(s: State, e: Event)
    requires
        e matches Event::Fetched { candidates } && candidates@.len() == 0,
    ensures
        s matches State::FetchingClusters { .. } ==> spec_step(s, e) == Err::<State, RunError>(
            RunError::NoCandidates { stage: Stage::Cluster },
        ),
        s matches State::FetchingServices { .. } ==> spec_step(s, e) == Err::<State, RunError>(
            RunError::NoCandidates { stage: Stage::Service },
        ),
        s matches State::FetchingTasks { .. } ==> spec_step(s, e) == Err::<State, RunError>(
            RunError::NoCandidates { stage: Stage::Task },
        ),
        s matches State::FetchingContainers { .. } ==> spec_step(s, e) == Err::<State, RunError>(
            RunError::NoCandidates { stage: Stage::Container },
        ),
{
}

} // verus!
