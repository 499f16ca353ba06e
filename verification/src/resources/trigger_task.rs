//! Runs of triggers: checking sources and running actions for those that have changed.
use super::action::Occasion;
use super::{is_alphanumeric, random_string};
use super::trigger::{
    copy_sources, is_status_patch, updated_sources, CheckedSourceState, StatusPatch, TaskSchedule,
    Trigger, TriggerAction, TriggerActionKind, TriggerGitRepoReference, TriggerSourceKind,
    TriggerSources, TriggerState, TriggerStatus, TriggerTaskSources, TriggerWatchOn,
};
use crate::error::Error;
use crate::string_map::{restricted, StringMap};
use crate::text::{contains_string, copy_opt, copy_strings, has_string, opt_view, views};
use crate::time::{rfc3339, to_rfc3339, Timestamp};
use vstd::prelude::*;

verus! {

/// Digits of a digest in lower case, two for each byte.
pub open spec fn hex_digits(bytes: Seq<u8>) -> Seq<char>
    decreases bytes.len(),
{
    if bytes.len() == 0 {
        Seq::empty()
    } else {
        hex_digits(bytes.drop_last()).push(hex_digit((bytes.last() / 16) as int)).push(
            hex_digit((bytes.last() % 16) as int),
        )
    }
}

/// Digit with the given value below sixteen.
pub open spec fn hex_digit(value: int) -> char {
    if value < 10 {
        (('0' as u32 + value) as u32) as char
    } else {
        (('a' as u32 + value - 10) as u32) as char
    }
}

/// Writes bytes with `hex`'s `encode`: two lower case digits for each byte, the upper half first.
#[verifier::external_body]
pub(crate) fn hex_encode(bytes: &Vec<u8>) -> (r: String)
    ensures
        r@ == hex_digits(bytes@),
{
    hex::encode(bytes)
}

/// Task that a scheduler runs for a trigger.
#[derive(Debug)]
pub struct TriggerTask {
    /// When to run.
    pub schedule: TaskSchedule,
    /// Namespace of the trigger.
    pub namespace: String,
    /// Name of the trigger.
    pub name: String,
    /// Kind of the trigger.
    pub kind: String,
    /// Sources to check.
    pub task_sources: TriggerTaskSources,
    /// Folder to clone repositories to.
    pub source_clone_folder: String,
}

/// Makes a task that runs a trigger on a schedule.
pub fn create_trigger_task<T: Trigger>(
    trigger: &T,
    schedule: TaskSchedule,
    task_sources: TriggerTaskSources,
    source_clone_folder: String,
) -> (r: TriggerTask)
    requires
        trigger.the_meta().namespace is Some,
    ensures
        r.schedule == schedule,
        Some(r.namespace) == trigger.the_meta().namespace,
        r.name@ == trigger.the_meta().any_name(),
        r.kind@ == T::kind_name(),
        r.task_sources == task_sources,
        r.source_clone_folder == source_clone_folder,
{
    let meta = trigger.meta();
    let namespace = match &meta.namespace {
        Some(namespace) => namespace.clone(),
        None => String::new(),
    };
    TriggerTask {
        schedule,
        namespace,
        name: meta.name_any(),
        kind: T::crd_kind().to_owned(),
        task_sources,
        source_clone_folder,
    }
}

/// What a run waits for.
#[derive(Clone, Copy, Debug, PartialEq, Eq, Structural)]
pub enum RunPhase {
    /// The status that says that the trigger is running.
    MarkingRunning,
    /// The folder of a source.
    PreparingFolder,
    /// The content of a source.
    Fetching,
    /// The latest commit of a source.
    FindingCommit,
    /// The hash of a source's files.
    HashingFiles,
    /// The action.
    RunningAction,
    /// The status of a source.
    Recording,
    /// The removal of a source's folder.
    RemovingFolder,
    /// The status that says that the trigger is idle.
    MarkingIdle,
    /// The metrics.
    Measuring,
    /// Nothing: the run is over.
    Finished,
}

/// Run of a trigger.
#[derive(Debug)]
pub struct TriggerRun {
    /// Kind of the trigger.
    pub kind: String,
    /// Namespace of the trigger.
    pub namespace: String,
    /// Name of the trigger.
    pub name: String,
    /// Folder of the run.
    pub base_folder: String,
    /// Sources of the trigger.
    pub sources: TriggerSources,
    /// Action of the trigger.
    pub action: TriggerAction,
    /// What is known of the trigger's sources.
    pub checked_sources: StringMap<CheckedSourceState>,
    /// Sources that are still to be checked.
    pub pending: Vec<String>,
    /// Source that is being checked.
    pub source: String,
    /// What was found in the source that is being checked.
    pub found: CheckedSourceState,
    /// What the run waits for.
    pub phase: RunPhase,
}

/// What a run asks for.
#[derive(Debug)]
#[allow(inconsistent_fields)]
pub enum RunRequest {
    /// Update the trigger's status.
    UpdateStatus {
        /// New state, if it changes.
        state: Option<TriggerState>,
        /// Source to record and what was found in it.
        source: Option<(String, CheckedSourceState)>,
        /// Whether the present is the time of the last run.
        set_last_run: bool,
    },
    /// Make an empty folder.
    PrepareFolder {
        /// The folder.
        path: String,
    },
    /// Fetch a reference of a source to a folder.
    FetchSource {
        /// Kind of the source.
        kind: TriggerSourceKind,
        /// Name of the source.
        name: String,
        /// Namespace of the source, if its kind has one.
        namespace: Option<String>,
        /// Name of the reference.
        reference: String,
        /// The folder.
        path: String,
        /// Namespace of the secrets that the source refers to.
        secrets_namespace: String,
    },
    /// Find the latest commit of a reference in a folder.
    FindCommit {
        /// The folder.
        path: String,
        /// The reference.
        reference: TriggerGitRepoReference,
    },
    /// Calculate the hash of files of a folder.
    HashFiles {
        /// The folder.
        path: String,
        /// Patterns of the files.
        patterns: Vec<String>,
    },
    /// Run an action.
    RunAction {
        /// Kind of the action.
        kind: TriggerActionKind,
        /// Name of the action.
        name: String,
        /// Namespace of the action, if its kind has one.
        namespace: Option<String>,
        /// Kind of the source.
        source_kind: TriggerSourceKind,
        /// Name of the source.
        source: String,
        /// Commit of the source.
        commit: String,
        /// Reference of the source.
        reference: TriggerGitRepoReference,
    },
    /// Remove a folder.
    RemoveFolder {
        /// The folder.
        path: String,
    },
    /// Count the run and measure its time.
    Measure,
    /// Nothing.
    Finish,
}

/// What came of a request.
#[derive(Debug)]
pub enum RunEvent {
    /// The status was updated, or it couldn't be.
    StatusUpdated,
    /// The folder was made, or it couldn't be.
    FolderPrepared(bool),
    /// The source was found and fetched, or it couldn't be.
    SourceFetched(bool),
    /// The latest commit, if there is one.
    CommitFound(Option<String>),
    /// The hash of the files, if it could be calculated.
    FilesHashed(Option<Vec<u8>>),
    /// The action was found and accepted, or it couldn't be.
    ActionRun {
        /// Whether it was accepted.
        accepted: bool,
        /// The present.
        now: Timestamp,
    },
    /// The folder was removed, or it couldn't be.
    FolderRemoved,
    /// The run was counted.
    Measured,
}

impl RunEvent {
    /// The event is one that a run waits for in the phase.
    pub open spec fn fits(self, phase: RunPhase) -> bool {
        match self {
            RunEvent::StatusUpdated => phase == RunPhase::MarkingRunning || phase == RunPhase::Recording
                || phase == RunPhase::MarkingIdle,
            RunEvent::FolderPrepared(_) => phase == RunPhase::PreparingFolder,
            RunEvent::SourceFetched(_) => phase == RunPhase::Fetching,
            RunEvent::CommitFound(_) => phase == RunPhase::FindingCommit,
            RunEvent::FilesHashed(_) => phase == RunPhase::HashingFiles,
            RunEvent::ActionRun { now, .. } => phase == RunPhase::RunningAction && now.wf()
                && now.in_calendar(),
            RunEvent::FolderRemoved => phase == RunPhase::RemovingFolder,
            RunEvent::Measured => phase == RunPhase::Measuring,
        }
    }
}

/// Names without repetitions, in the order in which they come first.
pub open spec fn first_occurrences(names: Seq<Seq<char>>) -> Seq<Seq<char>>
    decreases names.len(),
{
    if names.len() == 0 {
        Seq::empty()
    } else {
        let before = first_occurrences(names.drop_last());
        if before.contains(names.last()) {
            before
        } else {
            before.push(names.last())
        }
    }
}

/// Nothing is lost and nothing occurs twice among first occurrences.
pub proof fn lemma_first_occurrences(names: Seq<Seq<char>>)
    ensures
        first_occurrences(names).no_duplicates(),
        forall|name: Seq<char>| #![auto] first_occurrences(names).contains(name) == names.contains(name),
    decreases names.len(),
{
    if names.len() > 0 {
        let before = first_occurrences(names.drop_last());
        lemma_first_occurrences(names.drop_last());
        assert(names == names.drop_last().push(names.last()));
        assert forall|name: Seq<char>| #![auto] first_occurrences(names).contains(name) == names.contains(name) by {
            if names.drop_last().contains(name) {
                let i = names.drop_last().index_of(name);
                assert(names[i] == name);
            }
            if names.contains(name) && name != names.last() {
                let i = names.index_of(name);
                assert(names.drop_last()[i] == name);
            }
            if before.contains(name) && !before.contains(names.last()) {
                let i = before.index_of(name);
                assert(before.push(names.last())[i] == name);
            }
            if name == names.last() {
                assert(names[names.len() - 1] == name);
                if !before.contains(name) {
                    assert(before.push(name)[before.len() as int] == name);
                }
            }
        }
    }
}

/// Names without repetitions.
pub fn unique_names(names: &Vec<String>) -> (r: Vec<String>)
    ensures
        views(r@) == first_occurrences(views(names@)),
{
    let mut r: Vec<String> = Vec::new();
    assert(views(names@).take(0) == Seq::<Seq<char>>::empty());
    for i in 0..names.len()
        invariant
            views(r@) == first_occurrences(views(names@).take(i as int)),
    {
        let ghost prefix = views(names@).take(i + 1);
        assert(prefix.drop_last() == views(names@).take(i as int));
        assert(prefix.last() == names@[i as int]@);
        let ghost before = r@;
        assert(has_string(before, names@[i as int]@) == views(before).contains(names@[i as int]@)) by {
            if has_string(before, names@[i as int]@) {
                let j = choose|j: int| 0 <= j < before.len() && (#[trigger] before[j])@ == names@[i as int]@;
                assert(views(before)[j] == names@[i as int]@);
            }
            if views(before).contains(names@[i as int]@) {
                let j = views(before).index_of(names@[i as int]@);
                assert(before[j]@ == names@[i as int]@);
            }
        }
        if !contains_string(&r, &names[i]) {
            r.push(names[i].clone());
            assert(views(r@) == views(before).push(names@[i as int]@));
        }
    }
    assert(views(names@).take(names.len() as int) == views(names@));
    r
}

/// What is known of a source.
pub open spec fn known_state(checked: Map<Seq<char>, CheckedSourceState>, source: Seq<char>) -> Option<
    CheckedSourceState,
> {
    if checked.contains_key(source) {
        Some(checked[source])
    } else {
        None
    }
}

/// The action is owed: the content has changed since it was last checked, or the action runs on
/// every check.
pub open spec fn action_owed(
    watch_on: TriggerWatchOn,
    found: CheckedSourceState,
    known: Option<CheckedSourceState>,
) -> bool {
    !found.same_content(known, watch_on.files is Some) || !watch_on.on_change_only
}

/// The folder's name continues `start` with eight letters and digits.
pub open spec fn in_random_folder(folder: Seq<char>, start: Seq<char>) -> bool {
    &&& folder.len() == start.len() + 8
    &&& folder.take(start.len() as int) == start
    &&& forall|i: int| start.len() <= i < folder.len() ==> is_alphanumeric(#[trigger] folder[i])
}

impl TriggerRun {
    /// A source whose commit is needed has one.
    pub open spec fn wf(self) -> bool {
        (self.phase == RunPhase::HashingFiles || self.phase == RunPhase::RunningAction)
            ==> self.found.commit_hash is Some
    }

    /// Folder of the source that is being checked.
    pub open spec fn source_folder(self) -> Seq<char> {
        self.base_folder@ + "/"@ + self.source@
    }

    /// What doesn't change during a run.
    pub open spec fn same_run(self, other: TriggerRun) -> bool {
        &&& self.kind == other.kind
        &&& self.namespace == other.namespace
        &&& self.name == other.name
        &&& self.base_folder == other.base_folder
        &&& self.sources == other.sources
        &&& self.action == other.action
        &&& self.checked_sources == other.checked_sources
    }

    /// The run goes on with the next source, or ends where there is none left.
    pub open spec fn goes_to_next_source(self, post: TriggerRun, request: RunRequest) -> bool {
        if self.pending@.len() == 0 {
            &&& post.phase == RunPhase::MarkingIdle
            &&& post.pending@ == self.pending@
            &&& request == RunRequest::UpdateStatus {
                state: Some(TriggerState::Idle),
                source: None,
                set_last_run: true,
            }
        } else {
            &&& post.phase == RunPhase::PreparingFolder
            &&& post.source == self.pending@[0]
            &&& post.pending@ == self.pending@.skip(1)
            &&& post.found.commit_hash is None
            &&& post.found.file_hash is None
            &&& post.found.changed is None
            &&& request matches RunRequest::PrepareFolder { path } && path@ == post.source_folder()
        }
    }

    /// The run asks for its action with what was found.
    pub open spec fn asks_for_action(self, request: RunRequest) -> bool {
        request matches RunRequest::RunAction {
            kind,
            name,
            namespace,
            source_kind,
            source,
            commit,
            reference,
        } && kind == self.action.kind && name == self.action.name && namespace == (match kind {
            TriggerActionKind::Action => Some(self.namespace),
            TriggerActionKind::ClusterAction => None::<String>,
        }) && source_kind == self.sources.kind && source == self.source && Some(commit)
            == self.found.commit_hash && reference == self.sources.watch_on.reference
    }

    /// The run decides whether the action is owed, with what was found in the source. If not, it
    /// records what was found, with the time of the last change that was known.
    pub open spec fn decides(self, found: CheckedSourceState, post: TriggerRun, request: RunRequest) -> bool {
        let known = known_state(self.checked_sources@, self.source@);
        &&& post.pending == self.pending
        &&& post.source == self.source
        &&& post.found.commit_hash == found.commit_hash
        &&& post.found.file_hash == found.file_hash
        &&& if action_owed(self.sources.watch_on, found, known) {
            &&& post.phase == RunPhase::RunningAction
            &&& post.found == found
            &&& post.asks_for_action(request)
        } else {
            &&& post.phase == RunPhase::Recording
            &&& post.found.changed == match known {
                Some(k) => k.changed,
                None => found.changed,
            }
            &&& request == RunRequest::UpdateStatus {
                state: None,
                source: Some((self.source, post.found)),
                set_last_run: false,
            }
        }
    }

    /// The run removes the folder of the source.
    pub open spec fn removes_folder(self, post: TriggerRun, request: RunRequest) -> bool {
        &&& post.phase == RunPhase::RemovingFolder
        &&& post.pending == self.pending
        &&& post.source == self.source
        &&& post.found == self.found
        &&& request matches RunRequest::RemoveFolder { path } && path@ == self.source_folder()
    }

    /// The run takes a step to `post` on an event, and asks for `request`.
    pub open spec fn steps(self, event: RunEvent, post: TriggerRun, request: RunRequest) -> bool {
        &&& self.same_run(post)
        &&& match event {
            RunEvent::StatusUpdated => match self.phase {
                RunPhase::MarkingRunning => self.goes_to_next_source(post, request),
                RunPhase::Recording => self.removes_folder(post, request),
                _ => post.phase == RunPhase::Measuring && post.pending == self.pending && request
                    == RunRequest::Measure,
            },
            RunEvent::FolderPrepared(ready) => if ready {
                &&& post.phase == RunPhase::Fetching
                &&& post.pending == self.pending
                &&& post.source == self.source
                &&& post.found == self.found
                &&& request matches RunRequest::FetchSource {
                    kind,
                    name,
                    namespace,
                    reference,
                    path,
                    secrets_namespace,
                } && kind == self.sources.kind && name == self.source && namespace == (match kind {
                    TriggerSourceKind::GitRepo => Some(self.namespace),
                    TriggerSourceKind::ClusterGitRepo => None::<String>,
                }) && reference@ == self.sources.watch_on.reference.ref_name() && path@
                    == self.source_folder() && secrets_namespace == self.namespace
            } else {
                self.goes_to_next_source(post, request)
            },
            RunEvent::SourceFetched(fetched) => if fetched {
                &&& post.phase == RunPhase::FindingCommit
                &&& post.pending == self.pending
                &&& post.source == self.source
                &&& post.found == self.found
                &&& request matches RunRequest::FindCommit { path, reference } && path@
                    == self.source_folder() && reference == self.sources.watch_on.reference
            } else {
                self.goes_to_next_source(post, request)
            },
            RunEvent::CommitFound(commit) => match commit {
                Some(hash) => {
                    let found = CheckedSourceState { commit_hash: Some(hash), ..self.found };
                    match self.sources.watch_on.files {
                        Some(files) => {
                            &&& post.phase == RunPhase::HashingFiles
                            &&& post.pending == self.pending
                            &&& post.source == self.source
                            &&& post.found == found
                            &&& request matches RunRequest::HashFiles { path, patterns } && path@
                                == self.source_folder() && patterns@ == files@
                        },
                        None => self.decides(found, post, request),
                    }
                },
                None => self.goes_to_next_source(post, request),
            },
            RunEvent::FilesHashed(hash) => {
                &&& opt_view(post.found.file_hash) == match hash {
                    Some(bytes) => Some(hex_digits(bytes@)),
                    None => opt_view(self.found.file_hash),
                }
                &&& self.decides(
                    CheckedSourceState { file_hash: post.found.file_hash, ..self.found },
                    post,
                    request,
                )
            },
            RunEvent::ActionRun { accepted, now } => if accepted {
                &&& post.phase == RunPhase::Recording
                &&& post.pending == self.pending
                &&& post.source == self.source
                &&& post.found.commit_hash == self.found.commit_hash
                &&& post.found.file_hash == self.found.file_hash
                &&& opt_view(post.found.changed) == Some(rfc3339(now.secs as int))
                &&& request == RunRequest::UpdateStatus {
                    state: Some(TriggerState::Running),
                    source: Some((self.source, post.found)),
                    set_last_run: true,
                }
            } else {
                self.removes_folder(post, request)
            },
            RunEvent::FolderRemoved => self.goes_to_next_source(post, request),
            RunEvent::Measured => post.phase == RunPhase::Finished && post.pending == self.pending && request
                == RunRequest::Finish,
        }
    }

    /// Starts a run of a task. `trigger` is the trigger as the cluster has it now, if it has it.
    /// `suffix` tells the folders of different runs apart.
    pub fn begin<T: Trigger>(task: &TriggerTask, trigger: Option<&T>, suffix: &str) -> (r: (
        TriggerRun,
        RunRequest,
    ))
        ensures
            r.0.wf(),
            r.0.kind == task.kind,
            r.0.namespace == task.namespace,
            r.0.name == task.name,
            match trigger {
                Some(t) => {
                    &&& r.0.phase == RunPhase::MarkingRunning
                    &&& r.1 == RunRequest::UpdateStatus {
                        state: Some(TriggerState::Running),
                        source: None,
                        set_last_run: false,
                    }
                    &&& r.0.base_folder@ == task.source_clone_folder@ + "/"@ + task.namespace@ + "/"@
                        + task.name@ + "/"@ + suffix@
                    &&& r.0.sources.same(t.the_sources())
                    &&& r.0.action == t.the_action()
                    &&& r.0.checked_sources@ == restricted(
                        match t.the_status() {
                            Some(status) => status.checked_sources@,
                            None => Map::empty(),
                        },
                        t.the_sources().names@,
                    )
                    &&& views(r.0.pending@) == match task.task_sources {
                        TriggerTaskSources::All => first_occurrences(views(t.the_sources().names@)),
                        TriggerTaskSources::Single(source) => seq![source@],
                    }
                },
                None => r.0.phase == RunPhase::Measuring && r.0.pending@.len() == 0 && r.1
                    == RunRequest::Measure,
            },
    {
        match trigger {
            Some(t) => {
                let base_folder = task.source_clone_folder.clone().concat("/").concat(
                    task.namespace.as_str(),
                ).concat("/").concat(task.name.as_str()).concat("/").concat(suffix);
                let known: StringMap<CheckedSourceState> = match t.trigger_status() {
                    Some(status) => copy_sources(&status.checked_sources),
                    None => StringMap::new(),
                };
                let pending: Vec<String> = match &task.task_sources {
                    TriggerTaskSources::All => unique_names(&t.sources().names),
                    TriggerTaskSources::Single(source) => {
                        let mut single: Vec<String> = Vec::new();
                        single.push(source.clone());
                        assert(views(single@) == seq![source@]);
                        single
                    },
                };
                let run = TriggerRun {
                    kind: task.kind.clone(),
                    namespace: task.namespace.clone(),
                    name: task.name.clone(),
                    base_folder,
                    sources: t.sources().copy(),
                    action: TriggerAction { kind: t.action().kind, name: t.action().name.clone() },
                    checked_sources: known.restricted_to(&t.sources().names),
                    pending,
                    source: String::new(),
                    found: CheckedSourceState::unknown(),
                    phase: RunPhase::MarkingRunning,
                };
                (
                    run,
                    RunRequest::UpdateStatus {
                        state: Some(TriggerState::Running),
                        source: None,
                        set_last_run: false,
                    },
                )
            },
            None => {
                let run = TriggerRun {
                    kind: task.kind.clone(),
                    namespace: task.namespace.clone(),
                    name: task.name.clone(),
                    base_folder: String::new(),
                    sources: TriggerSources::default(),
                    action: TriggerAction { kind: TriggerActionKind::Action, name: String::new() },
                    checked_sources: StringMap::new(),
                    pending: Vec::new(),
                    source: String::new(),
                    found: CheckedSourceState::unknown(),
                    phase: RunPhase::Measuring,
                };
                (run, RunRequest::Measure)
            },
        }
    }

    /// Starts a run of a task in a folder with a random name of eight letters and digits.
    pub fn start<T: Trigger>(task: &TriggerTask, trigger: Option<&T>) -> (r: (TriggerRun, RunRequest))
        ensures
            r.0.wf(),
            r.0.kind == task.kind,
            r.0.namespace == task.namespace,
            r.0.name == task.name,
            match trigger {
                Some(t) => {
                    &&& r.0.phase == RunPhase::MarkingRunning
                    &&& r.1 == RunRequest::UpdateStatus {
                        state: Some(TriggerState::Running),
                        source: None,
                        set_last_run: false,
                    }
                    &&& in_random_folder(
                        r.0.base_folder@,
                        task.source_clone_folder@ + "/"@ + task.namespace@ + "/"@ + task.name@ + "/"@,
                    )
                    &&& r.0.sources.same(t.the_sources())
                    &&& r.0.action == t.the_action()
                    &&& r.0.checked_sources@ == restricted(
                        match t.the_status() {
                            Some(status) => status.checked_sources@,
                            None => Map::empty(),
                        },
                        t.the_sources().names@,
                    )
                    &&& views(r.0.pending@) == match task.task_sources {
                        TriggerTaskSources::All => first_occurrences(views(t.the_sources().names@)),
                        TriggerTaskSources::Single(source) => seq![source@],
                    }
                },
                None => r.0.phase == RunPhase::Measuring && r.0.pending@.len() == 0 && r.1
                    == RunRequest::Measure,
            },
    {
        let suffix = random_string(8);
        let r = TriggerRun::begin(task, trigger, suffix.as_str());
        proof {
            let start = task.source_clone_folder@ + "/"@ + task.namespace@ + "/"@ + task.name@ + "/"@;
            if trigger is Some {
                assert(r.0.base_folder@ == start + suffix@);
                assert(r.0.base_folder@.skip(start.len() as int) == suffix@);
                assert(r.0.base_folder@.take(start.len() as int) == start);
                assert forall|i: int| start.len() <= i < r.0.base_folder@.len() implies is_alphanumeric(
                    #[trigger] r.0.base_folder@[i],
                ) by {
                    assert(r.0.base_folder@[i] == suffix@[i - start.len()]);
                }
            }
        }
        r
    }

    /// Occasion on which the run's action runs: the source that is being checked, with the commit that
    /// was found in it, for the trigger in its own namespace.
    pub fn occasion(&self) -> (r: Occasion)
        requires
            self.found.commit_hash is Some,
        ensures
            r.source_kind == self.sources.kind,
            r.source_name == self.source,
            Some(r.source_commit) == self.found.commit_hash,
            r.trigger_ref == self.sources.watch_on.reference,
            r.namespace == self.namespace,
            r.trigger_kind == self.kind,
            r.trigger_name == self.name,
    {
        let source_commit: String = match &self.found.commit_hash {
            Some(hash) => hash.clone(),
            None => String::new(),
        };
        Occasion {
            source_kind: self.sources.kind,
            source_name: self.source.clone(),
            source_commit,
            trigger_ref: self.sources.watch_on.reference.clone(),
            namespace: self.namespace.clone(),
            trigger_kind: self.kind.clone(),
            trigger_name: self.name.clone(),
        }
    }

    fn folder(&self) -> (r: String)
        ensures
            r@ == self.source_folder(),
    {
        self.base_folder.clone().concat("/").concat(self.source.as_str())
    }

    fn next_source(&mut self) -> (r: RunRequest)
        ensures
            old(self).same_run(*final(self)),
            old(self).goes_to_next_source(*final(self), r),
            final(self).wf(),
    {
        if self.pending.len() == 0 {
            self.phase = RunPhase::MarkingIdle;
            RunRequest::UpdateStatus {
                state: Some(TriggerState::Idle),
                source: None,
                set_last_run: true,
            }
        } else {
            let source = self.pending.remove(0);
            assert(self.pending@ =~= old(self).pending@.skip(1));
            self.source = source;
            self.found = CheckedSourceState::unknown();
            self.phase = RunPhase::PreparingFolder;
            RunRequest::PrepareFolder { path: self.folder() }
        }
    }

    fn decide(&mut self) -> (r: RunRequest)
        requires
            old(self).found.commit_hash is Some,
        ensures
            old(self).same_run(*final(self)),
            old(self).decides(old(self).found, *final(self), r),
            final(self).wf(),
    {
        let with_file: bool = self.sources.watch_on.files.is_some();
        let known = self.checked_sources.get(self.source.as_str());
        let same: bool = self.found.is_equal(known, with_file);
        if !same || !self.sources.watch_on.on_change_only {
            self.phase = RunPhase::RunningAction;
            let commit: String = match &self.found.commit_hash {
                Some(hash) => hash.clone(),
                None => String::new(),
            };
            let namespace: Option<String> = match self.action.kind {
                TriggerActionKind::Action => Some(self.namespace.clone()),
                TriggerActionKind::ClusterAction => None,
            };
            RunRequest::RunAction {
                kind: self.action.kind,
                name: self.action.name.clone(),
                namespace,
                source_kind: self.sources.kind,
                source: self.source.clone(),
                commit,
                reference: self.sources.watch_on.reference.clone(),
            }
        } else {
            let changed: Option<String> = match known {
                Some(k) => copy_opt(&k.changed),
                None => copy_opt(&self.found.changed),
            };
            self.found.changed = changed;
            self.phase = RunPhase::Recording;
            RunRequest::UpdateStatus {
                state: None,
                source: Some((self.source.clone(), self.found.clone())),
                set_last_run: false,
            }
        }
    }

    /// Takes a step of the run.
    pub fn step(&mut self, event: RunEvent) -> (r: RunRequest)
        requires
            old(self).wf(),
            event.fits(old(self).phase),
        ensures
            final(self).wf(),
            old(self).steps(event, *final(self), r),
    {
        match event {
            RunEvent::StatusUpdated => match self.phase {
                RunPhase::MarkingRunning => self.next_source(),
                RunPhase::Recording => {
                    self.phase = RunPhase::RemovingFolder;
                    RunRequest::RemoveFolder { path: self.folder() }
                },
                _ => {
                    self.phase = RunPhase::Measuring;
                    RunRequest::Measure
                },
            },
            RunEvent::FolderPrepared(ready) => if ready {
                self.phase = RunPhase::Fetching;
                let namespace: Option<String> = match self.sources.kind {
                    TriggerSourceKind::GitRepo => Some(self.namespace.clone()),
                    TriggerSourceKind::ClusterGitRepo => None,
                };
                RunRequest::FetchSource {
                    kind: self.sources.kind,
                    name: self.source.clone(),
                    namespace,
                    reference: self.sources.watch_on.reference_name(),
                    path: self.folder(),
                    secrets_namespace: self.namespace.clone(),
                }
            } else {
                self.next_source()
            },
            RunEvent::SourceFetched(fetched) => if fetched {
                self.phase = RunPhase::FindingCommit;
                RunRequest::FindCommit {
                    path: self.folder(),
                    reference: self.sources.watch_on.reference.clone(),
                }
            } else {
                self.next_source()
            },
            RunEvent::CommitFound(commit) => match commit {
                Some(hash) => {
                    self.found.commit_hash = Some(hash);
                    match &self.sources.watch_on.files {
                        Some(files) => {
                            let patterns = copy_strings(files);
                            self.phase = RunPhase::HashingFiles;
                            RunRequest::HashFiles { path: self.folder(), patterns }
                        },
                        None => self.decide(),
                    }
                },
                None => self.next_source(),
            },
            RunEvent::FilesHashed(hash) => {
                if let Some(bytes) = hash {
                    self.found.file_hash = Some(hex_encode(&bytes));
                }
                self.decide()
            },
            RunEvent::ActionRun { accepted, now } => if accepted {
                self.found.changed = Some(to_rfc3339(now));
                self.phase = RunPhase::Recording;
                RunRequest::UpdateStatus {
                    state: Some(TriggerState::Running),
                    source: Some((self.source.clone(), self.found.clone())),
                    set_last_run: true,
                }
            } else {
                self.phase = RunPhase::RemovingFolder;
                RunRequest::RemoveFolder { path: self.folder() }
            },
            RunEvent::FolderRemoved => self.next_source(),
            RunEvent::Measured => {
                self.phase = RunPhase::Finished;
                RunRequest::Finish
            },
        }
    }
}

/// Patch of the status that a run asks for: the state, the source that was checked, and the present as
/// the time of the last run, as far as the run asks to set them. `current` is the trigger as the
/// cluster has it now, or the reason why it can't be had.
pub fn requested_status<T: Trigger>(
    trigger: &T,
    current: Result<&T, Error>,
    state: Option<TriggerState>,
    source: Option<(String, CheckedSourceState)>,
    set_last_run: bool,
    now: Timestamp,
) -> (r: Result<StatusPatch, Error>)
    requires
        set_last_run ==> now.wf() && now.in_calendar(),
    ensures
        match current {
            Ok(t) => r matches Ok(patch) && is_status_patch(
                patch,
                *trigger,
                *t,
                state,
                match source {
                    Some(checked) => map![checked.0@ => checked.1],
                    None => Map::empty(),
                },
                if set_last_run {
                    Some(now)
                } else {
                    None
                },
            ),
            Err(e) => r == Err::<StatusPatch, Error>(e),
        },
{
    let checked: Option<StringMap<CheckedSourceState>> = match source {
        Some((name, found)) => {
            let mut map: StringMap<CheckedSourceState> = StringMap::new();
            map.insert(name, found);
            assert(map@ =~= map![name@ => found]);
            Some(map)
        },
        None => None,
    };
    let last_run: Option<Timestamp> = if set_last_run {
        Some(now)
    } else {
        None
    };
    trigger.update_trigger_status(current, state, checked, last_run)
}

/// Steps that a run still has to take, at most.
pub open spec fn steps_left(run: TriggerRun) -> nat {
    10 * run.pending@.len() + match run.phase {
        RunPhase::MarkingRunning => 3nat,
        RunPhase::PreparingFolder => 10,
        RunPhase::Fetching => 9,
        RunPhase::FindingCommit => 8,
        RunPhase::HashingFiles => 7,
        RunPhase::RunningAction => 6,
        RunPhase::Recording => 5,
        RunPhase::RemovingFolder => 4,
        RunPhase::MarkingIdle => 2,
        RunPhase::Measuring => 1,
        RunPhase::Finished => 0,
    }
}

/// Every run ends: each step brings it closer to its end, whatever comes of its requests.
pub proof fn law_run_ends(run: TriggerRun, event: RunEvent, post: TriggerRun, request: RunRequest)
    requires
        run.wf(),
        event.fits(run.phase),
        run.steps(event, post, request),
    ensures
        steps_left(post) < steps_left(run),
{
}

/// An action runs only for a source whose latest commit was found and whose content has changed,
/// unless the trigger runs it on every check. It is then the trigger's action, on that source and
/// that commit.
pub proof fn law_action_runs_when_owed(
    run: TriggerRun,
    event: RunEvent,
    post: TriggerRun,
    request: RunRequest,
)
    requires
        run.wf(),
        event.fits(run.phase),
        run.steps(event, post, request),
        request is RunAction,
    ensures
        post.asks_for_action(request),
        post.found.commit_hash is Some,
        action_owed(
            run.sources.watch_on,
            post.found,
            known_state(run.checked_sources@, post.source@),
        ),
{
}

/// A source that wasn't checked before has its action run as soon as its content is known.
pub proof fn law_new_source_runs(run: TriggerRun, event: RunEvent, post: TriggerRun, request: RunRequest)
    requires
        run.wf(),
        event.fits(run.phase),
        run.steps(event, post, request),
        !run.checked_sources@.contains_key(run.source@),
        event is FilesHashed || (event matches RunEvent::CommitFound(commit) && commit is Some
            && run.sources.watch_on.files is None),
    ensures
        request is RunAction,
{
}

/// What was found in a source is recorded only after its action was accepted, with the time of
/// that, or where nothing has changed, with the time of the last change that was known.
pub proof fn law_recorded_when_run_or_unchanged(
    run: TriggerRun,
    event: RunEvent,
    post: TriggerRun,
    request: RunRequest,
    source: String,
    found: CheckedSourceState,
)
    requires
        run.wf(),
        event.fits(run.phase),
        run.steps(event, post, request),
        request matches RunRequest::UpdateStatus { source: Some(recorded), .. } && recorded == (
            source,
            found,
        ),
    ensures
        source == run.source,
        found == post.found,
        found.commit_hash is Some,
        match event {
            RunEvent::ActionRun { accepted, now } => accepted && opt_view(found.changed) == Some(
                rfc3339(now.secs as int),
            ),
            _ => {
                let known = known_state(run.checked_sources@, run.source@);
                &&& run.sources.watch_on.on_change_only
                &&& known matches Some(k) && found.same_content(
                    known,
                    run.sources.watch_on.files is Some,
                ) && found.changed == k.changed
            },
        },
{
}

/// A run that has the trigger ends by marking it idle and setting the time of the last run: there
/// is no other way to the end.
pub proof fn law_run_ends_idle(run: TriggerRun, event: RunEvent, post: TriggerRun, request: RunRequest)
    requires
        run.wf(),
        event.fits(run.phase),
        run.steps(event, post, request),
    ensures
        post.phase == RunPhase::Measuring ==> run.phase == RunPhase::MarkingIdle,
        post.phase == RunPhase::MarkingIdle ==> request == (RunRequest::UpdateStatus {
            state: Some(TriggerState::Idle),
            source: None,
            set_last_run: true,
        }) && post.pending@.len() == 0,
{
}

/// Step of a run: the run before it, what happened, the run after it and what it asked for.
pub ghost struct RunStep {
    /// The run before the step.
    pub pre: TriggerRun,
    /// What happened.
    pub event: RunEvent,
    /// The run after the step.
    pub post: TriggerRun,
    /// What the run asked for.
    pub request: RunRequest,
}

/// The run takes the step.
#[verifier::opaque]
pub open spec fn is_step(step: RunStep) -> bool {
    &&& step.pre.wf()
    &&& step.event.fits(step.pre.phase)
    &&& step.pre.steps(step.event, step.post, step.request)
}

/// The run takes the step at a position, from where the step before it ended.
pub open spec fn step_follows(start: TriggerRun, steps: Seq<RunStep>, i: int) -> bool {
    is_step(steps[i]) && steps[i].pre == if i == 0 {
        start
    } else {
        steps[i - 1].post
    }
}

/// The steps follow each other, from `start`.
pub open spec fn is_history(start: TriggerRun, steps: Seq<RunStep>) -> bool {
    forall|i: int| 0 <= i < steps.len() ==> #[trigger] step_follows(start, steps, i)
}

proof fn lemma_history_before_last(start: TriggerRun, steps: Seq<RunStep>)
    requires
        is_history(start, steps),
        steps.len() > 0,
    ensures
        is_history(start, steps.drop_last()),
        is_step(steps.last()),
        steps.last().pre == history_end(start, steps.drop_last()),
{
    assert forall|i: int| 0 <= i < steps.len() - 1 implies #[trigger] step_follows(
        start,
        steps.drop_last(),
        i,
    ) by {
        assert(step_follows(start, steps, i));
    }
    assert(step_follows(start, steps, steps.len() - 1));
}

proof fn lemma_step_sources(step: RunStep)
    requires
        is_step(step),
    ensures
        step.request is PrepareFolder ==> step.pre.pending@ == seq![step.post.source]
            + step.post.pending@,
        !(step.request is PrepareFolder) ==> step.post.pending@ == step.pre.pending@,
        steps_left(step.post) < steps_left(step.pre),
{
    reveal(is_step);
    if step.request is PrepareFolder {
        assert(step.pre.pending@ =~= seq![step.post.source] + step.post.pending@);
    }
}

/// The run after all steps.
pub open spec fn history_end(start: TriggerRun, steps: Seq<RunStep>) -> TriggerRun {
    if steps.len() == 0 {
        start
    } else {
        steps.last().post
    }
}

/// Sources that the steps started to check, in their order.
pub open spec fn started_sources(steps: Seq<RunStep>) -> Seq<String>
    decreases steps.len(),
{
    if steps.len() == 0 {
        Seq::empty()
    } else {
        let before = started_sources(steps.drop_last());
        if steps.last().request is PrepareFolder {
            before.push(steps.last().post.source)
        } else {
            before
        }
    }
}

/// Each source of a run is checked once, in order: those that were started and those that are
/// pending are always the ones that the run began with.
pub proof fn law_each_source_once(start: TriggerRun, steps: Seq<RunStep>)
    requires
        is_history(start, steps),
    ensures
        started_sources(steps) + history_end(start, steps).pending@ == start.pending@,
    decreases steps.len(),
{
    if steps.len() == 0 {
        assert(started_sources(steps) + start.pending@ =~= start.pending@);
    } else {
        lemma_history_before_last(start, steps);
        law_each_source_once(start, steps.drop_last());
        lemma_step_sources(steps.last());
        assert(started_sources(steps) + steps.last().post.pending@ =~= start.pending@);
    }
}

/// A run takes a bounded number of steps.
pub proof fn law_history_is_bounded(start: TriggerRun, steps: Seq<RunStep>)
    requires
        is_history(start, steps),
    ensures
        steps.len() + steps_left(history_end(start, steps)) <= steps_left(start),
    decreases steps.len(),
{
    if steps.len() > 0 {
        lemma_history_before_last(start, steps);
        law_history_is_bounded(start, steps.drop_last());
        lemma_step_sources(steps.last());
    }
}

/// A change runs the action once: after what was found in a source was recorded in the trigger's
/// status, the next run finds it there, and doesn't run the action for the same content again unless
/// the trigger runs it on every check.
pub proof fn law_change_runs_action_once(
    old_status: Option<TriggerStatus>,
    names: Seq<String>,
    source: Seq<char>,
    recorded: CheckedSourceState,
    watch_on: TriggerWatchOn,
    found: CheckedSourceState,
)
    requires
        has_string(names, source),
        watch_on.on_change_only,
        found.same_content(Some(recorded), watch_on.files is Some),
    ensures
        known_state(
            restricted(updated_sources(old_status, map![source => recorded], names), names),
            source,
        ) == Some(recorded),
        !action_owed(
            watch_on,
            found,
            known_state(
                restricted(updated_sources(old_status, map![source => recorded], names), names),
                source,
            ),
        ),
{
}

/// A source whose content differs from what was recorded has its action run, whatever else the trigger
/// says.
pub proof fn law_changed_content_is_owed(
    watch_on: TriggerWatchOn,
    found: CheckedSourceState,
    recorded: CheckedSourceState,
)
    requires
        if watch_on.files is Some {
            opt_view(found.file_hash) != opt_view(recorded.file_hash)
        } else {
            opt_view(found.commit_hash) != opt_view(recorded.commit_hash)
        },
    ensures
        action_owed(watch_on, found, Some(recorded)),
{
}

} // verus!
