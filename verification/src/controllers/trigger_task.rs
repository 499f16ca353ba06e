//! Runs of triggers: checking sources and running actions for those that have changed.
use super::trigger::{Trigger, TriggerSources, TriggerWatchOn};
use crate::resources::trigger::{
    copy_sources, CheckedSourceState, TaskSchedule, TriggerAction, TriggerActionKind,
    TriggerGitRepoReference, TriggerSourceKind, TriggerState, TriggerStatus,
};
use crate::resources::trigger_task::{first_occurrences, hex_digits, hex_encode, in_random_folder, known_state, unique_names};
use crate::resources::{is_alphanumeric, random_string};
use crate::string_map::{restricted, StringMap};
use crate::text::{copy_opt, opt_view, views};
use crate::time::{rfc3339, to_rfc3339, Timestamp};
use vstd::prelude::*;

verus! {

/// Folder to clone repositories to.
pub const DEFAULT_TEMP_DIR: &'static str = "/tmp/git-event-runner";

/// Task that a scheduler runs for a trigger.
#[derive(Debug)]
pub struct TriggerTask {
    /// When to run.
    pub schedule: TaskSchedule,
    /// Namespace of the trigger.
    pub namespace: String,
    /// Name of the trigger.
    pub name: String,
}

impl Trigger {
    /// Makes a task that runs the trigger on a schedule.
    pub fn create_task(&self, schedule: TaskSchedule) -> (r: TriggerTask)
        requires
            self.metadata.namespace is Some,
        ensures
            r.schedule == schedule,
            Some(r.namespace) == self.metadata.namespace,
            r.name@ == self.metadata.any_name(),
    {
        let namespace = match &self.metadata.namespace {
            Some(namespace) => namespace.clone(),
            None => String::new(),
        };
        TriggerTask { schedule, namespace, name: self.metadata.name_any() }
    }
}

/// What a run waits for.
#[derive(Clone, Copy, Debug, PartialEq, Eq, Structural)]
pub enum TaskPhase {
    /// The status that says that the trigger is running.
    MarkingRunning,
    /// The folder of a source.
    PreparingFolder,
    /// The content of a source.
    Fetching,
    /// The latest commit of a source.
    FindingCommit,
    /// The hash of a source's file.
    HashingFile,
    /// The action.
    RunningAction,
    /// The status that says that a source was checked.
    Recording,
    /// The removal of a source's folder.
    RemovingFolder,
    /// The status that says that the trigger is idle.
    MarkingIdle,
    /// Nothing: the run is over.
    Finished,
}

/// Run of a trigger.
#[derive(Debug)]
pub struct TaskRun {
    /// Namespace of the trigger.
    pub namespace: String,
    /// Folder of the run.
    pub base_folder: String,
    /// Sources of the trigger.
    pub sources: TriggerSources,
    /// Action of the trigger.
    pub action: TriggerAction,
    /// What is known of the trigger's sources, with what this run has found.
    pub checked_sources: StringMap<CheckedSourceState>,
    /// Sources that are still to be checked.
    pub pending: Vec<String>,
    /// Source that is being checked.
    pub source: String,
    /// What was found in the source that is being checked.
    pub found: CheckedSourceState,
    /// What the run waits for.
    pub phase: TaskPhase,
}

/// What a run asks for.
#[derive(Debug)]
#[allow(inconsistent_fields)]
pub enum TaskRequest {
    /// Update the trigger's status.
    UpdateStatus {
        /// New state.
        state: TriggerState,
        /// New sources, if they change.
        checked_sources: Option<StringMap<CheckedSourceState>>,
        /// Whether the present is the time of the last run.
        set_last_run: bool,
    },
    /// Make an empty folder.
    PrepareFolder {
        /// The folder.
        path: String,
    },
    /// Fetch a reference of a repository of the trigger's namespace to a folder.
    FetchSource {
        /// Name of the repository.
        name: String,
        /// Namespace of the repository.
        namespace: String,
        /// Name of the reference.
        reference: String,
        /// The folder.
        path: String,
    },
    /// Find the latest commit of a reference in a folder.
    FindCommit {
        /// The folder.
        path: String,
        /// The reference.
        reference: TriggerGitRepoReference,
    },
    /// Calculate the hash of a file.
    HashFile {
        /// The file.
        path: String,
    },
    /// Run an action of the trigger's namespace.
    RunAction {
        /// Name of the action.
        name: String,
        /// Namespace of the action.
        namespace: String,
        /// Kind of the source.
        source_kind: TriggerSourceKind,
        /// Name of the source.
        source: String,
        /// Commit of the source.
        commit: String,
        /// Reference of the source.
        reference: TriggerGitRepoReference,
    },
    /// Remove a folder.
    RemoveFolder {
        /// The folder.
        path: String,
    },
    /// Nothing.
    Finish,
}

/// What came of a request.
#[derive(Debug)]
pub enum TaskEvent {
    /// The status was updated, or it couldn't be.
    StatusUpdated,
    /// The folder was made, or it couldn't be.
    FolderPrepared(bool),
    /// The source was found and fetched, or it couldn't be.
    SourceFetched(bool),
    /// The latest commit, if there is one.
    CommitFound(Option<String>),
    /// The hash of the file, if it is there and could be read.
    FileHashed(Option<Vec<u8>>),
    /// The action was found and its job created, or it couldn't be.
    ActionRun {
        /// Whether the job was created.
        accepted: bool,
        /// The present.
        now: Timestamp,
    },
    /// The folder was removed, or it couldn't be.
    FolderRemoved,
}

impl TaskEvent {
    /// The event is one that a run waits for in the phase.
    pub open spec fn fits(self, phase: TaskPhase) -> bool {
        match self {
            TaskEvent::StatusUpdated => phase == TaskPhase::MarkingRunning || phase == TaskPhase::Recording
                || phase == TaskPhase::MarkingIdle,
            TaskEvent::FolderPrepared(_) => phase == TaskPhase::PreparingFolder,
            TaskEvent::SourceFetched(_) => phase == TaskPhase::Fetching,
            TaskEvent::CommitFound(_) => phase == TaskPhase::FindingCommit,
            TaskEvent::FileHashed(_) => phase == TaskPhase::HashingFile,
            TaskEvent::ActionRun { now, .. } => phase == TaskPhase::RunningAction && now.wf()
                && now.in_calendar(),
            TaskEvent::FolderRemoved => phase == TaskPhase::RemovingFolder,
        }
    }
}

/// The action is owed: the content has changed since it was last checked, or the action runs on every
/// check.
pub open spec fn action_owed(
    watch_on: TriggerWatchOn,
    found: CheckedSourceState,
    known: Option<CheckedSourceState>,
) -> bool {
    !found.same_content(known, watch_on.file_ is Some) || !watch_on.on_change_only
}

/// The action is owed for a commit and the hash of a watched file.
pub open spec fn content_owed(
    watch_on: TriggerWatchOn,
    commit: Option<Seq<char>>,
    file_hash: Option<Seq<char>>,
    known: Option<CheckedSourceState>,
) -> bool {
    !watch_on.on_change_only || match known {
        Some(k) => if watch_on.file_ is Some {
            file_hash != opt_view(k.file_hash)
        } else {
            commit != opt_view(k.commit_hash)
        },
        None => commit is Some || file_hash is Some,
    }
}

/// The request updates the status to a state, with all that is known of the sources, and sets the time
/// of the last run.
pub open spec fn records(request: TaskRequest, state: TriggerState, checked: Map<Seq<char>, CheckedSourceState>) -> bool {
    request matches TaskRequest::UpdateStatus { state: s, checked_sources, set_last_run } && s == state
        && (checked_sources matches Some(map) && map@ == checked) && set_last_run
}

impl TaskRun {
    /// A source whose commit is needed has one.
    pub open spec fn wf(self) -> bool {
        (self.phase == TaskPhase::HashingFile || self.phase == TaskPhase::RunningAction)
            ==> self.found.commit_hash is Some
    }

    /// Folder of the source that is being checked.
    pub open spec fn source_folder(self) -> Seq<char> {
        self.base_folder@ + "/"@ + self.source@
    }

    /// What doesn't change during a run.
    pub open spec fn same_run(self, other: TaskRun) -> bool {
        &&& self.namespace == other.namespace
        &&& self.base_folder == other.base_folder
        &&& self.sources == other.sources
        &&& self.action == other.action
    }

    /// The run goes on with the next source, or ends where there is none left.
    pub open spec fn goes_to_next_source(self, post: TaskRun, request: TaskRequest) -> bool {
        &&& post.checked_sources == self.checked_sources
        &&& if self.pending@.len() == 0 {
            &&& post.phase == TaskPhase::MarkingIdle
            &&& post.pending@ == self.pending@
            &&& records(request, TriggerState::Idle, self.checked_sources@)
        } else {
            &&& post.phase == TaskPhase::PreparingFolder
            &&& post.source == self.pending@[0]
            &&& post.pending@ == self.pending@.skip(1)
            &&& post.found.commit_hash is None
            &&& post.found.file_hash is None
            &&& post.found.changed is None
            &&& request matches TaskRequest::PrepareFolder { path } && path@ == post.source_folder()
        }
    }

    /// The run asks for its action with what was found.
    pub open spec fn asks_for_action(self, request: TaskRequest) -> bool {
        request matches TaskRequest::RunAction { name, namespace, source_kind, source, commit, reference }
            && name == self.action.name && namespace == self.namespace && source_kind == self.sources.kind
            && source == self.source && Some(commit) == self.found.commit_hash && reference
            == self.sources.watch_on.reference
    }

    /// The run removes the folder of the source.
    pub open spec fn removes_folder(self, post: TaskRun, request: TaskRequest) -> bool {
        &&& post.phase == TaskPhase::RemovingFolder
        &&& post.pending == self.pending
        &&& post.source == self.source
        &&& request matches TaskRequest::RemoveFolder { path } && path@ == self.source_folder()
    }

    /// The run decides whether the action is owed, with what was found in the source. If not, it keeps
    /// what was found, with the time of the last change that was known.
    pub open spec fn decides(self, found: CheckedSourceState, post: TaskRun, request: TaskRequest) -> bool {
        let known = known_state(self.checked_sources@, self.source@);
        &&& post.found.commit_hash == found.commit_hash
        &&& post.found.file_hash == found.file_hash
        &&& if action_owed(self.sources.watch_on, found, known) {
            &&& post.phase == TaskPhase::RunningAction
            &&& post.pending == self.pending
            &&& post.source == self.source
            &&& post.found == found
            &&& post.checked_sources == self.checked_sources
            &&& post.asks_for_action(request)
        } else {
            &&& self.removes_folder(post, request)
            &&& post.found.changed == match known {
                Some(k) => k.changed,
                None => found.changed,
            }
            &&& post.checked_sources@ == self.checked_sources@.insert(self.source@, post.found)
        }
    }

    /// The event lets the run know the content of its source, and the action is owed for it.
    pub open spec fn owes_action(self, event: TaskEvent) -> bool {
        let known = known_state(self.checked_sources@, self.source@);
        match event {
            TaskEvent::CommitFound(Some(hash)) => self.sources.watch_on.file_ is None && content_owed(
                self.sources.watch_on,
                Some(hash@),
                opt_view(self.found.file_hash),
                known,
            ),
            TaskEvent::FileHashed(hash) => content_owed(
                self.sources.watch_on,
                opt_view(self.found.commit_hash),
                match hash {
                    Some(bytes) => Some(hex_digits(bytes@)),
                    None => opt_view(self.found.file_hash),
                },
                known,
            ),
            _ => false,
        }
    }

    /// What comes next can be done: only repositories and actions of a namespace can be used, so no
    /// other kind of source may be fetched, and no other kind of action may be owed.
    pub open spec fn supports(self, event: TaskEvent) -> bool {
        &&& event == TaskEvent::FolderPrepared(true) ==> self.sources.kind == TriggerSourceKind::GitRepo
        &&& self.owes_action(event) ==> self.action.kind == TriggerActionKind::Action
    }

    /// The run takes a step to `post` on an event, and asks for `request`.
    pub open spec fn steps(self, event: TaskEvent, post: TaskRun, request: TaskRequest) -> bool {
        &&& self.same_run(post)
        &&& match event {
            TaskEvent::StatusUpdated => match self.phase {
                TaskPhase::MarkingRunning => self.goes_to_next_source(post, request),
                TaskPhase::Recording => {
                    &&& self.removes_folder(post, request)
                    &&& post.found == self.found
                    &&& post.checked_sources == self.checked_sources
                },
                _ => {
                    &&& post.phase == TaskPhase::Finished
                    &&& post.pending == self.pending
                    &&& post.checked_sources == self.checked_sources
                    &&& request == TaskRequest::Finish
                },
            },
            TaskEvent::FolderPrepared(ready) => if ready {
                &&& post.phase == TaskPhase::Fetching
                &&& post.pending == self.pending
                &&& post.source == self.source
                &&& post.found == self.found
                &&& post.checked_sources == self.checked_sources
                &&& request matches TaskRequest::FetchSource { name, namespace, reference, path } && name
                    == self.source && namespace == self.namespace && reference@
                    == self.sources.watch_on.reference.ref_name() && path@ == self.source_folder()
            } else {
                self.goes_to_next_source(post, request)
            },
            TaskEvent::SourceFetched(fetched) => if fetched {
                &&& post.phase == TaskPhase::FindingCommit
                &&& post.pending == self.pending
                &&& post.source == self.source
                &&& post.found == self.found
                &&& post.checked_sources == self.checked_sources
                &&& request matches TaskRequest::FindCommit { path, reference } && path@
                    == self.source_folder() && reference == self.sources.watch_on.reference
            } else {
                self.goes_to_next_source(post, request)
            },
            TaskEvent::CommitFound(commit) => match commit {
                Some(hash) => {
                    let found = CheckedSourceState { commit_hash: Some(hash), ..self.found };
                    match self.sources.watch_on.file_ {
                        Some(file) => {
                            &&& post.phase == TaskPhase::HashingFile
                            &&& post.pending == self.pending
                            &&& post.source == self.source
                            &&& post.found == found
                            &&& post.checked_sources == self.checked_sources
                            &&& request matches TaskRequest::HashFile { path } && path@
                                == self.source_folder() + "/"@ + file@
                        },
                        None => self.decides(found, post, request),
                    }
                },
                None => self.goes_to_next_source(post, request),
            },
            TaskEvent::FileHashed(hash) => {
                &&& opt_view(post.found.file_hash) == match hash {
                    Some(bytes) => Some(hex_digits(bytes@)),
                    None => opt_view(self.found.file_hash),
                }
                &&& self.decides(
                    CheckedSourceState { file_hash: post.found.file_hash, ..self.found },
                    post,
                    request,
                )
            },
            TaskEvent::ActionRun { accepted, now } => if accepted {
                &&& post.phase == TaskPhase::Recording
                &&& post.pending == self.pending
                &&& post.source == self.source
                &&& post.found.commit_hash == self.found.commit_hash
                &&& post.found.file_hash == self.found.file_hash
                &&& opt_view(post.found.changed) == Some(rfc3339(now.secs as int))
                &&& post.checked_sources@ == self.checked_sources@.insert(self.source@, post.found)
                &&& records(request, TriggerState::Running, post.checked_sources@)
            } else {
                &&& self.removes_folder(post, request)
                &&& post.found == self.found
                &&& post.checked_sources == self.checked_sources
            },
            TaskEvent::FolderRemoved => self.goes_to_next_source(post, request),
        }
    }

    /// Starts a run of a task. `trigger` is the trigger as the cluster has it now, if it has it, and
    /// `status` what is known of its past runs. `suffix` tells the folders of different runs apart. A
    /// run without its trigger is over at once.
    pub fn begin(task: &TriggerTask, trigger: Option<&Trigger>, status: &TriggerStatus, suffix: &str) -> (r: (
        Option<TaskRun>,
        TaskRequest,
    ))
        ensures
            match trigger {
                Some(t) => r.0 matches Some(run) && is_begun(
                    run,
                    *task,
                    *t,
                    *status,
                    "/tmp/git-event-runner"@ + "/"@ + task.namespace@ + "/"@ + task.name@ + "/"@ + suffix@,
                ) && (r.1 matches TaskRequest::UpdateStatus { state, checked_sources, set_last_run } && state
                    == TriggerState::Running && checked_sources is None && !set_last_run),
                None => r.0 is None && r.1 == TaskRequest::Finish,
            },
    {
        match trigger {
            Some(t) => {
                let base_folder = DEFAULT_TEMP_DIR.to_owned().concat("/").concat(task.namespace.as_str()).concat(
                    "/",
                ).concat(task.name.as_str()).concat("/").concat(suffix);
                let run = TaskRun {
                    namespace: task.namespace.clone(),
                    base_folder,
                    sources: t.spec.sources.copy(),
                    action: TriggerAction { kind: t.spec.action.kind, name: t.spec.action.name.clone() },
                    checked_sources: copy_sources(&status.checked_sources).restricted_to(
                        &t.spec.sources.names,
                    ),
                    pending: unique_names(&t.spec.sources.names),
                    source: String::new(),
                    found: CheckedSourceState::unknown(),
                    phase: TaskPhase::MarkingRunning,
                };
                (
                    Some(run),
                    TaskRequest::UpdateStatus {
                        state: TriggerState::Running,
                        checked_sources: None,
                        set_last_run: false,
                    },
                )
            },
            None => (None, TaskRequest::Finish),
        }
    }

    fn folder(&self) -> (r: String)
        ensures
            r@ == self.source_folder(),
    {
        self.base_folder.clone().concat("/").concat(self.source.as_str())
    }

    fn next_source(&mut self) -> (r: TaskRequest)
        ensures
            old(self).same_run(*final(self)),
            old(self).goes_to_next_source(*final(self), r),
            final(self).wf(),
    {
        if self.pending.len() == 0 {
            self.phase = TaskPhase::MarkingIdle;
            TaskRequest::UpdateStatus {
                state: TriggerState::Idle,
                checked_sources: Some(copy_sources(&self.checked_sources)),
                set_last_run: true,
            }
        } else {
            let source = self.pending.remove(0);
            assert(self.pending@ =~= old(self).pending@.skip(1));
            self.source = source;
            self.found = CheckedSourceState::unknown();
            self.phase = TaskPhase::PreparingFolder;
            TaskRequest::PrepareFolder { path: self.folder() }
        }
    }

    fn decide(&mut self) -> (r: TaskRequest)
        requires
            old(self).found.commit_hash is Some,
        ensures
            old(self).same_run(*final(self)),
            old(self).decides(old(self).found, *final(self), r),
            final(self).wf(),
    {
        let with_file: bool = self.sources.watch_on.file_.is_some();
        let known = self.checked_sources.get(self.source.as_str());
        let same: bool = self.found.is_equal(known, with_file);
        if !same || !self.sources.watch_on.on_change_only {
            self.phase = TaskPhase::RunningAction;
            let commit: String = match &self.found.commit_hash {
                Some(hash) => hash.clone(),
                None => String::new(),
            };
            TaskRequest::RunAction {
                name: self.action.name.clone(),
                namespace: self.namespace.clone(),
                source_kind: self.sources.kind,
                source: self.source.clone(),
                commit,
                reference: self.sources.watch_on.reference.clone(),
            }
        } else {
            let changed: Option<String> = match known {
                Some(k) => copy_opt(&k.changed),
                None => copy_opt(&self.found.changed),
            };
            self.found.changed = changed;
            self.checked_sources.insert(self.source.clone(), self.found.clone());
            self.phase = TaskPhase::RemovingFolder;
            TaskRequest::RemoveFolder { path: self.folder() }
        }
    }

    /// Takes a step of the run.
    pub fn step(&mut self, event: TaskEvent) -> (r: TaskRequest)
        requires
            old(self).wf(),
            event.fits(old(self).phase),
            old(self).supports(event),
        ensures
            final(self).wf(),
            old(self).steps(event, *final(self), r),
    {
        match event {
            TaskEvent::StatusUpdated => match self.phase {
                TaskPhase::MarkingRunning => self.next_source(),
                TaskPhase::Recording => {
                    self.phase = TaskPhase::RemovingFolder;
                    TaskRequest::RemoveFolder { path: self.folder() }
                },
                _ => {
                    self.phase = TaskPhase::Finished;
                    TaskRequest::Finish
                },
            },
            TaskEvent::FolderPrepared(ready) => if ready {
                self.phase = TaskPhase::Fetching;
                TaskRequest::FetchSource {
                    name: self.source.clone(),
                    namespace: self.namespace.clone(),
                    reference: self.sources.watch_on.reference_name(),
                    path: self.folder(),
                }
            } else {
                self.next_source()
            },
            TaskEvent::SourceFetched(fetched) => if fetched {
                self.phase = TaskPhase::FindingCommit;
                TaskRequest::FindCommit {
                    path: self.folder(),
                    reference: self.sources.watch_on.reference.clone(),
                }
            } else {
                self.next_source()
            },
            TaskEvent::CommitFound(commit) => match commit {
                Some(hash) => {
                    self.found.commit_hash = Some(hash);
                    match &self.sources.watch_on.file_ {
                        Some(file) => {
                            let path = self.folder().concat("/").concat(file.as_str());
                            self.phase = TaskPhase::HashingFile;
                            TaskRequest::HashFile { path }
                        },
                        None => self.decide(),
                    }
                },
                None => self.next_source(),
            },
            TaskEvent::FileHashed(hash) => {
                if let Some(bytes) = hash {
                    self.found.file_hash = Some(hex_encode(&bytes));
                }
                self.decide()
            },
            TaskEvent::ActionRun { accepted, now } => if accepted {
                self.found.changed = Some(to_rfc3339(now));
                self.checked_sources.insert(self.source.clone(), self.found.clone());
                self.phase = TaskPhase::Recording;
                TaskRequest::UpdateStatus {
                    state: TriggerState::Running,
                    checked_sources: Some(copy_sources(&self.checked_sources)),
                    set_last_run: true,
                }
            } else {
                self.phase = TaskPhase::RemovingFolder;
                TaskRequest::RemoveFolder { path: self.folder() }
            },
            TaskEvent::FolderRemoved => self.next_source(),
        }
    }

    /// Starts a run of a task in a folder with a random name of eight letters and digits.
    pub fn start(task: &TriggerTask, trigger: Option<&Trigger>, status: &TriggerStatus) -> (r: (
        Option<TaskRun>,
        TaskRequest,
    ))
        ensures
            match trigger {
                Some(t) => r.0 matches Some(run) && is_begun(run, *task, *t, *status, run.base_folder@)
                    && in_random_folder(
                    run.base_folder@,
                    "/tmp/git-event-runner"@ + "/"@ + task.namespace@ + "/"@ + task.name@ + "/"@,
                ) && (r.1 matches TaskRequest::UpdateStatus { state, checked_sources, set_last_run } && state
                    == TriggerState::Running && checked_sources is None && !set_last_run),
                None => r.0 is None && r.1 == TaskRequest::Finish,
            },
    {
        let suffix = random_string(8);
        let r = TaskRun::begin(task, trigger, status, suffix.as_str());
        proof {
            if trigger is Some {
                let start = "/tmp/git-event-runner"@ + "/"@ + task.namespace@ + "/"@ + task.name@ + "/"@;
                let folder = r.0->0.base_folder@;
                assert(folder == start + suffix@);
                assert(folder.take(start.len() as int) == start);
                assert forall|i: int| start.len() <= i < folder.len() implies is_alphanumeric(
                    #[trigger] folder[i],
                ) by {
                    assert(folder[i] == suffix@[i - start.len()]);
                }
            }
        }
        r
    }
}

/// The run is at its start, in the folder.
pub open spec fn is_begun(run: TaskRun, task: TriggerTask, trigger: Trigger, status: TriggerStatus, folder: Seq<char>) -> bool {
    &&& run.wf()
    &&& run.phase == TaskPhase::MarkingRunning
    &&& run.namespace == task.namespace
    &&& run.base_folder@ == folder
    &&& run.sources.kind == trigger.spec.sources.kind
    &&& run.sources.names@ == trigger.spec.sources.names@
    &&& run.sources.watch_on == trigger.spec.sources.watch_on
    &&& run.action == trigger.spec.action
    &&& run.checked_sources@ == restricted(status.checked_sources@, trigger.spec.sources.names@)
    &&& views(run.pending@) == first_occurrences(views(trigger.spec.sources.names@))
}

/// Steps that a run still has to take, at most.
pub open spec fn steps_left(run: TaskRun) -> nat {
    10 * run.pending@.len() + match run.phase {
        TaskPhase::MarkingRunning => 2nat,
        TaskPhase::PreparingFolder => 10,
        TaskPhase::Fetching => 9,
        TaskPhase::FindingCommit => 8,
        TaskPhase::HashingFile => 7,
        TaskPhase::RunningAction => 6,
        TaskPhase::Recording => 5,
        TaskPhase::RemovingFolder => 4,
        TaskPhase::MarkingIdle => 1,
        TaskPhase::Finished => 0,
    }
}

/// A run asks for an action exactly where one is owed, and then it is one of the trigger's namespace.
pub proof fn law_owed_action_is_supported(run: TaskRun, event: TaskEvent, post: TaskRun, request: TaskRequest)
    requires
        run.wf(),
        event.fits(run.phase),
        run.supports(event),
        run.steps(event, post, request),
    ensures
        request is RunAction == run.owes_action(event),
        request is RunAction ==> run.action.kind == TriggerActionKind::Action,
        request is FetchSource ==> run.sources.kind == TriggerSourceKind::GitRepo,
{
}

/// Every run ends: each step brings it closer to its end, whatever comes of its requests.
pub proof fn law_run_ends(run: TaskRun, event: TaskEvent, post: TaskRun, request: TaskRequest)
    requires
        run.wf(),
        event.fits(run.phase),
        run.steps(event, post, request),
    ensures
        steps_left(post) < steps_left(run),
{
}

/// An action runs only for a source whose latest commit was found and whose content has changed,
/// unless the trigger runs it on every check.
pub proof fn law_action_runs_when_owed(run: TaskRun, event: TaskEvent, post: TaskRun, request: TaskRequest)
    requires
        run.wf(),
        event.fits(run.phase),
        run.steps(event, post, request),
        request is RunAction,
    ensures
        post.asks_for_action(request),
        post.found.commit_hash is Some,
        action_owed(
            run.sources.watch_on,
            post.found,
            known_state(run.checked_sources@, post.source@),
        ),
{
}

/// What is known of sources changes only for the source that is being checked, and only where its
/// action was accepted or nothing has changed in it.
pub proof fn law_knowledge_grows_by_checks(run: TaskRun, event: TaskEvent, post: TaskRun, request: TaskRequest)
    requires
        run.wf(),
        event.fits(run.phase),
        run.steps(event, post, request),
    ensures
        post.checked_sources@ == run.checked_sources@ || (post.checked_sources@
            == run.checked_sources@.insert(run.source@, post.found) && ((event matches TaskEvent::ActionRun {
            accepted,
            ..
        } && accepted) || !action_owed(
            run.sources.watch_on,
            post.found,
            known_state(run.checked_sources@, run.source@),
        ))),
{
}

/// A run ends by marking the trigger idle, with all that is known of its sources and the time of the
/// run.
pub proof fn law_run_ends_idle(run: TaskRun, event: TaskEvent, post: TaskRun, request: TaskRequest)
    requires
        run.wf(),
        event.fits(run.phase),
        run.steps(event, post, request),
    ensures
        post.phase == TaskPhase::Finished ==> run.phase == TaskPhase::MarkingIdle,
        post.phase == TaskPhase::MarkingIdle ==> records(
            request,
            TriggerState::Idle,
            post.checked_sources@,
        ) && post.pending@.len() == 0,
{
}

/// A watched file that was added, was removed or has another hash counts as a change of the source.
pub proof fn law_file_change_is_owed(
    watch_on: TriggerWatchOn,
    found: CheckedSourceState,
    recorded: CheckedSourceState,
)
    requires
        watch_on.file_ is Some,
        opt_view(found.file_hash) != opt_view(recorded.file_hash),
    ensures
        action_owed(watch_on, found, Some(recorded)),
{
}

} // verus!
