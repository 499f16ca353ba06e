//! Tasks of triggers that either follow a schedule or wait for requests: a change of a source runs the
//! action once, and what was found is recorded.
use crate::controllers::trigger::{Trigger, TriggerWatchOn};
use crate::controllers::trigger_task::{TaskEvent, TaskPhase, TaskRequest, TaskRun, TriggerTask};
use crate::resources::trigger::{
    CheckedSourceState, TaskSchedule, TriggerGitRepoReference, TriggerState, TriggerStatus,
};
use crate::resources::trigger_task::hex_digits;
use crate::string_map::StringMap;
use crate::text::has_string;
use crate::time::{rfc3339, Timestamp};
use vstd::prelude::*;

use super::basics::best_name;
use super::runs::{is_hex_of, is_letter_or_digit, law_digests_are_written_in_digits, lemma_first_occurrences_of};

verus! {

/// The run goes on with the next source: it makes a folder for it. Where there is none left, it marks
/// the trigger idle, with all that is known of the sources, and sets the time of the last run.
pub open spec fn task_goes_on(run: TaskRun, after: TaskRun, request: TaskRequest) -> bool {
    &&& after.checked_sources == run.checked_sources
    &&& if run.pending@.len() == 0 {
        &&& after.phase == TaskPhase::MarkingIdle
        &&& after.pending@.len() == 0
        &&& request matches TaskRequest::UpdateStatus { state, checked_sources: Some(map), set_last_run } && state
            == TriggerState::Idle && map@ == run.checked_sources@ && set_last_run
    } else {
        &&& after.phase == TaskPhase::PreparingFolder
        &&& after.source == run.pending@[0]
        &&& after.pending@.len() == run.pending@.len() - 1
        &&& forall|i: int|
            0 <= i < after.pending@.len() ==> #[trigger] after.pending@[i] == run.pending@[i + 1]
        &&& after.found.commit_hash is None
        &&& after.found.file_hash is None
        &&& after.found.changed is None
        &&& request matches TaskRequest::PrepareFolder { path } && path@ == run.base_folder@ + "/"@
            + run.pending@[0]@
    }
}

/// The run asks for the trigger's action, on the source that it checks and a commit, and keeps what was
/// known of the sources.
pub open spec fn task_asks_to_run(run: TaskRun, after: TaskRun, commit: Seq<char>, request: TaskRequest) -> bool {
    &&& after.phase == TaskPhase::RunningAction
    &&& after.checked_sources == run.checked_sources
    &&& request matches TaskRequest::RunAction { name, namespace, source_kind, source, commit: c, reference }
        && name@ == run.action.name@ && namespace@ == run.namespace@ && source_kind == run.sources.kind && source@
        == run.source@ && c@ == commit && reference == run.sources.watch_on.reference
}

/// The run keeps what was found in the source, with the time of the last change that was known, and
/// removes the folder.
pub open spec fn task_keeps_what_was_found(run: TaskRun, after: TaskRun, request: TaskRequest) -> bool {
    &&& after.phase == TaskPhase::RemovingFolder
    &&& after.found.changed == run.checked_sources@[run.source@].changed
    &&& knows_besides(after, run, run.source@, after.found)
    &&& request matches TaskRequest::RemoveFolder { path } && path@ == run.base_folder@ + "/"@ + run.source@
}

/// The run knows what it knew, and besides that the state of a source.
pub open spec fn knows_besides(after: TaskRun, run: TaskRun, source: Seq<char>, state: CheckedSourceState) -> bool {
    forall|key: Seq<char>|
        {
            &&& #[trigger] after.checked_sources@.contains_key(key) == (key == source
                || run.checked_sources@.contains_key(key))
            &&& key == source ==> after.checked_sources@[key] == state
            &&& key != source && run.checked_sources@.contains_key(key) ==> after.checked_sources@[key]
                == run.checked_sources@[key]
        }
}

/// What the trigger was when the run began stays the same through the run.
pub proof fn law_task_keeps_its_trigger(run: &mut TaskRun, event: TaskEvent, request: TaskRequest)
    requires
        call_ensures(TaskRun::step, (run, event), request),
    ensures
        final(run).namespace == old(run).namespace,
        final(run).base_folder == old(run).base_folder,
        final(run).sources == old(run).sources,
        final(run).action == old(run).action,
{
}

/// A source whose folder can't be made, that can't be fetched, or in which no commit is found, is passed
/// over: what is known of it stays, and the run goes on with the next one.
pub proof fn law_task_passes_over_a_failed_source(run: &mut TaskRun, event: TaskEvent, request: TaskRequest)
    requires
        call_ensures(TaskRun::step, (run, event), request),
        event == TaskEvent::FolderPrepared(false) || event == TaskEvent::SourceFetched(false) || event
            == TaskEvent::CommitFound(None) || event == TaskEvent::FolderRemoved || (event
            == TaskEvent::StatusUpdated && old(run).phase == TaskPhase::MarkingRunning),
    ensures
        task_goes_on(*old(run), *final(run), request),
{
}

/// A source is fetched to its folder under the reference that the trigger watches, and then its latest
/// commit is looked for there.
pub proof fn law_task_fetches_a_source_to_its_folder(run: &mut TaskRun, event: TaskEvent, request: TaskRequest)
    requires
        call_ensures(TaskRun::step, (run, event), request),
        event == TaskEvent::FolderPrepared(true) || event == TaskEvent::SourceFetched(true),
    ensures
        final(run).source == old(run).source,
        final(run).pending == old(run).pending,
        final(run).found == old(run).found,
        final(run).checked_sources == old(run).checked_sources,
        event == TaskEvent::FolderPrepared(true) ==> final(run).phase == TaskPhase::Fetching && (
        request matches TaskRequest::FetchSource { name, namespace, reference, path } && name@ == old(run).source@
            && namespace@ == old(run).namespace@ && path@ == old(run).base_folder@ + "/"@ + old(run).source@ && (
        match old(run).sources.watch_on.reference {
            TriggerGitRepoReference::Branch(text) => reference@ == text@,
            TriggerGitRepoReference::Tag(text) => reference@ == text@,
            TriggerGitRepoReference::Commit(text) => reference@ == text@,
        })),
        event == TaskEvent::SourceFetched(true) ==> final(run).phase == TaskPhase::FindingCommit && (
        request matches TaskRequest::FindCommit { path, reference } && path@ == old(run).base_folder@ + "/"@
            + old(run).source@ && reference == old(run).sources.watch_on.reference),
{
}

/// Where a file is watched, its hash is calculated once the commit is found, in the source's folder.
pub proof fn law_task_hashes_the_watched_file(run: &mut TaskRun, hash: String, file: String, request: TaskRequest)
    requires
        call_ensures(TaskRun::step, (run, TaskEvent::CommitFound(Some(hash))), request),
        old(run).sources.watch_on.file_ == Some(file),
    ensures
        final(run).phase == TaskPhase::HashingFile,
        final(run).source == old(run).source,
        final(run).pending == old(run).pending,
        final(run).checked_sources == old(run).checked_sources,
        final(run).found.commit_hash == Some(hash),
        final(run).found.file_hash == old(run).found.file_hash,
        final(run).found.changed == old(run).found.changed,
        request matches TaskRequest::HashFile { path } && path@ == old(run).base_folder@ + "/"@
            + old(run).source@ + "/"@ + file@,
{
}

/// Without a watched file, the commit decides: the action runs if the source is new, if it has another
/// commit than the one that is known, or if the trigger runs it on every check. Otherwise what was found
/// is kept, and the action doesn't run.
pub proof fn law_commit_decides_for_a_task(run: &mut TaskRun, hash: String, request: TaskRequest)
    requires
        call_ensures(TaskRun::step, (run, TaskEvent::CommitFound(Some(hash))), request),
        old(run).sources.watch_on.file_ is None,
    ensures
        final(run).source == old(run).source,
        final(run).pending == old(run).pending,
        final(run).found.commit_hash == Some(hash),
        final(run).found.file_hash == old(run).found.file_hash,
        ({
            let known = old(run).checked_sources@;
            let source = old(run).source@;
            if known.contains_key(source) && (known[source].commit_hash matches Some(c) && c@ == hash@)
                && old(run).sources.watch_on.on_change_only {
                task_keeps_what_was_found(*old(run), *final(run), request)
            } else {
                task_asks_to_run(*old(run), *final(run), hash@, request)
            }
        }),
{
}

/// Where a file is watched, its hash decides, whatever the commit is.
pub proof fn law_file_decides_for_a_task(
    run: &mut TaskRun,
    hash: Option<Vec<u8>>,
    commit: String,
    request: TaskRequest,
)
    requires
        call_ensures(TaskRun::step, (run, TaskEvent::FileHashed(hash)), request),
        old(run).sources.watch_on.file_ is Some,
        old(run).found.commit_hash == Some(commit),
        old(run).found.file_hash is None,
    ensures
        final(run).source == old(run).source,
        final(run).pending == old(run).pending,
        final(run).found.commit_hash == Some(commit),
        match hash {
            Some(bytes) => final(run).found.file_hash matches Some(text) && is_hex_of(text@, bytes@),
            None => final(run).found.file_hash is None,
        },
        ({
            let known = old(run).checked_sources@;
            let source = old(run).source@;
            let same = match (final(run).found.file_hash, known[source].file_hash) {
                (Some(a), Some(b)) => a@ == b@,
                (None, None) => true,
                _ => false,
            };
            if known.contains_key(source) && same && old(run).sources.watch_on.on_change_only {
                task_keeps_what_was_found(*old(run), *final(run), request)
            } else {
                task_asks_to_run(*old(run), *final(run), commit@, request)
            }
        }),
{
    if let Some(bytes) = hash {
        law_digests_are_written_in_digits(bytes@);
    }
}

/// After the action was accepted, what was found is recorded, with the present as the time of the last
/// change and of the last run. After it was refused, what is known stays, and the source's folder is
/// removed.
pub proof fn law_task_records_an_accepted_action(
    run: &mut TaskRun,
    accepted: bool,
    now: Timestamp,
    request: TaskRequest,
)
    requires
        call_ensures(TaskRun::step, (run, TaskEvent::ActionRun { accepted, now }), request),
    ensures
        final(run).source == old(run).source,
        final(run).pending == old(run).pending,
        accepted ==> {
            &&& final(run).phase == TaskPhase::Recording
            &&& final(run).found.commit_hash == old(run).found.commit_hash
            &&& final(run).found.file_hash == old(run).found.file_hash
            &&& final(run).found.changed matches Some(text) && text@ == rfc3339(now.secs as int)
            &&& knows_besides(*final(run), *old(run), old(run).source@, final(run).found)
            &&& request matches TaskRequest::UpdateStatus { state, checked_sources: Some(map), set_last_run } && state
                == TriggerState::Running && map@ == final(run).checked_sources@ && set_last_run
        },
        !accepted ==> {
            &&& final(run).phase == TaskPhase::RemovingFolder
            &&& final(run).checked_sources == old(run).checked_sources
            &&& request matches TaskRequest::RemoveFolder { path } && path@ == old(run).base_folder@ + "/"@
                + old(run).source@
        },
{
}

/// When the action of a source with a watched file is accepted, the commit and the hash of the file are
/// recorded as they were found.
pub proof fn law_task_records_what_was_found(
    run1: &mut TaskRun,
    hash: String,
    request1: TaskRequest,
    run2: &mut TaskRun,
    bytes: Vec<u8>,
    request2: TaskRequest,
    run3: &mut TaskRun,
    now: Timestamp,
    request3: TaskRequest,
)
    requires
        old(run1).sources.watch_on.file_ is Some,
        call_ensures(TaskRun::step, (run1, TaskEvent::CommitFound(Some(hash))), request1),
        *old(run2) == *final(run1),
        call_ensures(TaskRun::step, (run2, TaskEvent::FileHashed(Some(bytes))), request2),
        request2 is RunAction,
        *old(run3) == *final(run2),
        call_ensures(TaskRun::step, (run3, TaskEvent::ActionRun { accepted: true, now }), request3),
    ensures
        request3 matches TaskRequest::UpdateStatus { checked_sources: Some(map), .. } && map@.contains_key(
            old(run1).source@,
        ) && map@[old(run1).source@].commit_hash == Some(hash) && (map@[old(run1).source@].file_hash matches Some(
            text,
        ) && is_hex_of(text@, bytes@)),
{
    law_digests_are_written_in_digits(bytes@);
}

/// Once what was found is recorded the source's folder is removed, and once the trigger is marked idle
/// the run ends.
pub proof fn law_task_cleans_up_and_ends(run: &mut TaskRun, request: TaskRequest)
    requires
        call_ensures(TaskRun::step, (run, TaskEvent::StatusUpdated), request),
    ensures
        old(run).phase == TaskPhase::Recording ==> final(run).phase == TaskPhase::RemovingFolder && final(run).pending
            == old(run).pending && final(run).checked_sources == old(run).checked_sources && final(run).found
            == old(run).found && (
        request matches TaskRequest::RemoveFolder { path } && path@ == old(run).base_folder@ + "/"@
            + old(run).source@),
        old(run).phase == TaskPhase::MarkingIdle ==> final(run).phase == TaskPhase::Finished && request
            == TaskRequest::Finish,
{
}

/// The run is that of the task's trigger: it knows what the status says of the trigger's sources, is to
/// check each of them once, and first marks the trigger as running.
pub open spec fn is_run_of(
    run: TaskRun,
    request: TaskRequest,
    task: TriggerTask,
    trigger: Trigger,
    status: TriggerStatus,
) -> bool {
    &&& run.phase == TaskPhase::MarkingRunning
    &&& request matches TaskRequest::UpdateStatus { state, checked_sources, set_last_run } && state
        == TriggerState::Running && checked_sources is None && !set_last_run
    &&& run.namespace@ == task.namespace@
    &&& run.sources.kind == trigger.spec.sources.kind
    &&& run.sources.names@ == trigger.spec.sources.names@
    &&& run.sources.watch_on == trigger.spec.sources.watch_on
    &&& run.action == trigger.spec.action
    &&& forall|key: Seq<char>|
        {
            &&& #[trigger] run.checked_sources@.contains_key(key) == (has_string(trigger.spec.sources.names@, key)
                && status.checked_sources@.contains_key(key))
            &&& run.checked_sources@.contains_key(key) ==> run.checked_sources@[key]
                == status.checked_sources@[key]
        }
    &&& forall|i: int, j: int|
        0 <= i < j < run.pending@.len() ==> (#[trigger] run.pending@[i])@ != (#[trigger] run.pending@[j])@
    &&& forall|name: Seq<char>|
        has_string(run.pending@, name) == #[trigger] has_string(trigger.spec.sources.names@, name)
}

/// A run begins for its trigger in a folder of its own. Without its trigger it is over at once.
pub proof fn law_task_begins(
    task: &TriggerTask,
    trigger: Option<&Trigger>,
    status: &TriggerStatus,
    suffix: &str,
    r: (Option<TaskRun>, TaskRequest),
)
    requires
        call_ensures(TaskRun::begin, (task, trigger, status, suffix), r),
    ensures
        match trigger {
            Some(t) => r.0 matches Some(run) && is_run_of(run, r.1, *task, *t, *status) && run.base_folder@
                == "/tmp/git-event-runner"@ + "/"@ + task.namespace@ + "/"@ + task.name@ + "/"@ + suffix@,
            None => r.0 is None && r.1 == TaskRequest::Finish,
        },
{
    if let Some(t) = trigger {
        lemma_first_occurrences_of(t.spec.sources.names@, r.0->0.pending@);
    }
}

/// A run that starts on its own makes up eight letters and digits for the last part of its folder, and
/// is otherwise begun in the same way.
pub proof fn law_task_starts(
    task: &TriggerTask,
    trigger: Option<&Trigger>,
    status: &TriggerStatus,
    r: (Option<TaskRun>, TaskRequest),
)
    requires
        call_ensures(TaskRun::start, (task, trigger, status), r),
    ensures
        match trigger {
            Some(t) => {
                let start = "/tmp/git-event-runner"@ + "/"@ + task.namespace@ + "/"@ + task.name@ + "/"@;
                &&& r.0 matches Some(run)
                &&& is_run_of(r.0->0, r.1, *task, *t, *status)
                &&& r.0->0.base_folder@.len() == start.len() + 8
                &&& forall|i: int|
                    0 <= i < start.len() ==> #[trigger] r.0->0.base_folder@[i] == start[i]
                &&& forall|i: int|
                    start.len() <= i < start.len() + 8 ==> is_letter_or_digit(#[trigger] r.0->0.base_folder@[i])
            },
            None => r.0 is None && r.1 == TaskRequest::Finish,
        },
{
    if let Some(t) = trigger {
        let start = "/tmp/git-event-runner"@ + "/"@ + task.namespace@ + "/"@ + task.name@ + "/"@;
        let folder = r.0->0.base_folder@;
        assert forall|i: int| 0 <= i < start.len() implies #[trigger] folder[i] == start[i] by {
            assert(folder.take(start.len() as int)[i] == folder[i]);
        }
        lemma_first_occurrences_of(t.spec.sources.names@, r.0->0.pending@);
    }
}

/// A run that was recorded isn't repeated: what one run has recorded is what the next one knows, so that
/// with the same commit, or the same file where one is watched, the next run asks for no action.
pub proof fn law_same_content_runs_no_second_task(
    run1: &mut TaskRun,
    now: Timestamp,
    request1: TaskRequest,
    recorded: StringMap<CheckedSourceState>,
    status: &TriggerStatus,
    trigger: &Trigger,
    task: &TriggerTask,
    suffix: &str,
    begun: (Option<TaskRun>, TaskRequest),
    run2: &mut TaskRun,
    event: TaskEvent,
    request2: TaskRequest,
)
    requires
        call_ensures(TaskRun::step, (run1, TaskEvent::ActionRun { accepted: true, now }), request1),
        request1 matches TaskRequest::UpdateStatus { checked_sources: Some(map), .. } && map == recorded,
        status.checked_sources@ == recorded@,
        has_string(trigger.spec.sources.names@, old(run1).source@),
        call_ensures(TaskRun::begin, (task, Some(trigger), status, suffix), begun),
        old(run2).checked_sources == begun.0->0.checked_sources,
        old(run2).sources == begun.0->0.sources,
        old(run2).source@ == old(run1).source@,
        trigger.spec.sources.watch_on.on_change_only,
        call_ensures(TaskRun::step, (run2, event), request2),
        match event {
            TaskEvent::CommitFound(Some(hash)) => old(run1).found.commit_hash matches Some(c) && c@ == hash@,
            TaskEvent::FileHashed(Some(bytes)) => trigger.spec.sources.watch_on.file_ is Some && (
            old(run1).found.file_hash matches Some(text) && text@ == hex_digits(bytes@)),
            _ => false,
        },
    ensures
        !(request2 is RunAction),
{
    assert(begun.0->0.checked_sources@.contains_key(old(run1).source@));
}

/// A task runs its trigger on the schedule.
pub proof fn law_task_runs_its_trigger(trigger: &Trigger, schedule: TaskSchedule, r: TriggerTask)
    requires
        call_ensures(Trigger::create_task, (trigger, schedule), r),
    ensures
        r.schedule == schedule,
        r.name@ == best_name(trigger.metadata),
        trigger.metadata.namespace matches Some(ns) && r.namespace@ == ns@,
{
}

/// A trigger watches the main branch for changes unless it says otherwise, and the name of what it
/// watches is that of its reference.
pub proof fn law_watched_reference_of_a_task(default: TriggerWatchOn, watch_on: &TriggerWatchOn, r: String)
    requires
        call_ensures(<TriggerWatchOn as Default>::default, (), default),
        call_ensures(TriggerWatchOn::reference_name, (watch_on,), r),
    ensures
        default.on_change_only,
        default.reference matches TriggerGitRepoReference::Branch(name) && name@ == "main"@,
        default.file_ is None,
        match watch_on.reference {
            TriggerGitRepoReference::Branch(text) => r@ == text@,
            TriggerGitRepoReference::Tag(text) => r@ == text@,
            TriggerGitRepoReference::Commit(text) => r@ == text@,
        },
{
}

} // verus!
