//! Runs of triggers: a change of a source runs the action once, and what was found is recorded.
use crate::error::Error;
use crate::resources::action::Occasion;
use crate::resources::trigger::{
    CheckedSourceState, ScheduleTrigger, StatusPatch, TaskSchedule, Trigger, TriggerActionKind,
    TriggerGitRepoReference, TriggerSourceKind, TriggerState, TriggerTaskSources, WebhookTrigger,
};
use crate::resources::trigger_task::{
    create_trigger_task, hex_digits, lemma_first_occurrences, requested_status, unique_names, RunEvent,
    RunPhase, RunRequest, TriggerRun, TriggerTask,
};
use crate::text::{has_string, views};
use crate::time::{rfc3339, Timestamp};
use vstd::prelude::*;

use super::basics::best_name;

verus! {

/// The character is the digit of a value below sixteen, in lower case.
pub open spec fn is_hex_digit_of(c: char, value: int) -> bool {
    if value < 10 {
        c as int == 48 + value
    } else {
        c as int == 87 + value
    }
}

/// The text is that of the bytes, with two hexadecimal digits for each, the upper half first.
pub open spec fn is_hex_of(text: Seq<char>, bytes: Seq<u8>) -> bool {
    &&& text.len() == 2 * bytes.len()
    &&& forall|i: int|
        #![trigger bytes[i]]
        0 <= i < bytes.len() ==> is_hex_digit_of(text[2 * i], bytes[i] as int / 16) && is_hex_digit_of(
            text[2 * i + 1],
            bytes[i] as int % 16,
        )
}

/// Digests are written with two hexadecimal digits for each byte.
pub proof fn law_digests_are_written_in_digits(bytes: Seq<u8>)
    ensures
        is_hex_of(hex_digits(bytes), bytes),
    decreases bytes.len(),
{
    if bytes.len() > 0 {
        let before = bytes.drop_last();
        law_digests_are_written_in_digits(before);
        let text = hex_digits(bytes);
        assert(text.len() == hex_digits(before).len() + 2);
        assert forall|i: int| #![trigger bytes[i]] 0 <= i < bytes.len() implies is_hex_digit_of(
            text[2 * i],
            bytes[i] as int / 16,
        ) && is_hex_digit_of(text[2 * i + 1], bytes[i] as int % 16) by {
            if i < before.len() {
                assert(bytes[i] == before[i]);
                assert(text[2 * i] == hex_digits(before)[2 * i]);
                assert(text[2 * i + 1] == hex_digits(before)[2 * i + 1]);
            }
        }
    }
}

/// What was found has the commit, the hash of files, and the time of the last change.
pub open spec fn has_found(
    found: CheckedSourceState,
    commit: Seq<char>,
    file_hash: Option<Seq<char>>,
    changed: Option<Seq<char>>,
) -> bool {
    &&& found.commit_hash matches Some(c) && c@ == commit
    &&& match file_hash {
        Some(hash) => found.file_hash matches Some(h) && h@ == hash,
        None => found.file_hash is None,
    }
    &&& match changed {
        Some(time) => found.changed matches Some(t) && t@ == time,
        None => found.changed is None,
    }
}

/// The run asks for the trigger's action, on the source that it checks and a commit.
pub open spec fn asks_to_run(run: TriggerRun, commit: Seq<char>, request: RunRequest) -> bool {
    request matches RunRequest::RunAction {
        kind,
        name,
        namespace,
        source_kind,
        source,
        commit: c,
        reference,
    } && kind == run.action.kind && name@ == run.action.name@ && (kind == TriggerActionKind::Action
        ==> namespace == Some(run.namespace)) && (kind == TriggerActionKind::ClusterAction ==> namespace is None)
        && source_kind == run.sources.kind && source@ == run.source@ && c@ == commit && reference
        == run.sources.watch_on.reference
}

/// The run goes on with the next source: it makes a folder for it. Where there is none left, it marks
/// the trigger idle and sets the time of the last run.
pub open spec fn goes_on(run: TriggerRun, after: TriggerRun, request: RunRequest) -> bool {
    if run.pending@.len() == 0 {
        &&& after.phase == RunPhase::MarkingIdle
        &&& after.pending@.len() == 0
        &&& request == RunRequest::UpdateStatus {
            state: Some(TriggerState::Idle),
            source: None,
            set_last_run: true,
        }
    } else {
        &&& after.phase == RunPhase::PreparingFolder
        &&& after.source == run.pending@[0]
        &&& after.pending@.len() == run.pending@.len() - 1
        &&& forall|i: int|
            0 <= i < after.pending@.len() ==> #[trigger] after.pending@[i] == run.pending@[i + 1]
        &&& after.found.commit_hash is None
        &&& after.found.file_hash is None
        &&& after.found.changed is None
        &&& request matches RunRequest::PrepareFolder { path } && path@ == run.base_folder@ + "/"@
            + run.pending@[0]@
    }
}

/// What the trigger was when the run began stays the same through the run.
pub proof fn law_run_keeps_its_trigger(run: &mut TriggerRun, event: RunEvent, request: RunRequest)
    requires
        call_ensures(TriggerRun::step, (run, event), request),
    ensures
        final(run).kind == old(run).kind,
        final(run).namespace == old(run).namespace,
        final(run).name == old(run).name,
        final(run).base_folder == old(run).base_folder,
        final(run).sources == old(run).sources,
        final(run).action == old(run).action,
        final(run).checked_sources == old(run).checked_sources,
{
}

/// A source whose folder can't be made, that can't be fetched, or in which no commit is found, is
/// passed over: nothing is recorded for it, and the run goes on with the next one.
pub proof fn law_failed_source_is_passed_over(run: &mut TriggerRun, event: RunEvent, request: RunRequest)
    requires
        call_ensures(TriggerRun::step, (run, event), request),
        event == RunEvent::FolderPrepared(false) || event == RunEvent::SourceFetched(false) || event
            == RunEvent::CommitFound(None) || event == RunEvent::FolderRemoved || (event
            == RunEvent::StatusUpdated && old(run).phase == RunPhase::MarkingRunning),
    ensures
        goes_on(*old(run), *final(run), request),
{
}

/// A source is fetched to its folder under the reference that the trigger watches, with secrets of the
/// trigger's namespace, and then its latest commit is looked for there.
pub proof fn law_source_is_fetched_to_its_folder(run: &mut TriggerRun, event: RunEvent, request: RunRequest)
    requires
        call_ensures(TriggerRun::step, (run, event), request),
    ensures
        event == RunEvent::FolderPrepared(true) ==> {
            &&& final(run).phase == RunPhase::Fetching
            &&& final(run).source == old(run).source
            &&& final(run).pending == old(run).pending
            &&& final(run).found == old(run).found
            &&& request matches RunRequest::FetchSource {
                kind,
                name,
                namespace,
                reference,
                path,
                secrets_namespace,
            } && kind == old(run).sources.kind && name == old(run).source && (kind
                == TriggerSourceKind::GitRepo ==> namespace == Some(old(run).namespace)) && (kind
                == TriggerSourceKind::ClusterGitRepo ==> namespace is None)
                    && (match old(run).sources.watch_on.reference {
                TriggerGitRepoReference::Branch(text) => reference@ == text@,
                TriggerGitRepoReference::Tag(text) => reference@ == text@,
                TriggerGitRepoReference::Commit(text) => reference@ == text@,
            }) && path@ == old(run).base_folder@ + "/"@ + old(run).source@ && secrets_namespace
                == old(run).namespace
        },
        event == RunEvent::SourceFetched(true) ==> {
            &&& final(run).phase == RunPhase::FindingCommit
            &&& final(run).source == old(run).source
            &&& final(run).pending == old(run).pending
            &&& final(run).found == old(run).found
            &&& request matches RunRequest::FindCommit { path, reference }
                && path@ == old(run).base_folder@ + "/"@ + old(run).source@
                && reference == old(run).sources.watch_on.reference
        },
{
}

/// Where files are watched, their hash is calculated once the commit is found, over the watched
/// patterns in the source's folder.
pub proof fn law_watched_files_are_hashed(
    run: &mut TriggerRun,
    hash: String,
    files: Vec<String>,
    request: RunRequest,
)
    requires
        call_ensures(TriggerRun::step, (run, RunEvent::CommitFound(Some(hash))), request),
        old(run).sources.watch_on.files == Some(files),
    ensures
        final(run).phase == RunPhase::HashingFiles,
        final(run).source == old(run).source,
        final(run).pending == old(run).pending,
        final(run).found.commit_hash == Some(hash),
        final(run).found.file_hash == old(run).found.file_hash,
        final(run).found.changed == old(run).found.changed,
        request matches RunRequest::HashFiles { path, patterns } && path@ == old(run).base_folder@ + "/"@
            + old(run).source@ && patterns@ == files@,
{
}

/// Without watched files, the commit decides: the action runs if the source is new, if it has another
/// commit than the one that is known, or if the trigger runs it on every check. Otherwise what was
/// found is recorded with the time of the last change that is known, and the action doesn't run.
pub proof fn law_commit_decides(run: &mut TriggerRun, hash: String, request: RunRequest)
    requires
        call_ensures(TriggerRun::step, (run, RunEvent::CommitFound(Some(hash))), request),
        old(run).sources.watch_on.files is None,
    ensures
        final(run).source == old(run).source,
        final(run).pending == old(run).pending,
        final(run).found.commit_hash == Some(hash),
        final(run).found.file_hash == old(run).found.file_hash,
        !old(run).checked_sources@.contains_key(old(run).source@) ==> asks_to_run(
            *old(run),
            hash@,
            request,
        ) && final(run).phase == RunPhase::RunningAction,
        !old(run).sources.watch_on.on_change_only ==> asks_to_run(*old(run), hash@, request)
            && final(run).phase == RunPhase::RunningAction,
        old(run).checked_sources@.contains_key(old(run).source@) ==> {
            let known = old(run).checked_sources@[old(run).source@];
            if (known.commit_hash matches Some(c) && c@ == hash@) && old(run).sources.watch_on.on_change_only {
                &&& final(run).phase == RunPhase::Recording
                &&& final(run).found.changed == known.changed
                &&& request == RunRequest::UpdateStatus {
                    state: None,
                    source: Some((old(run).source, final(run).found)),
                    set_last_run: false,
                }
            } else {
                asks_to_run(*old(run), hash@, request) && final(run).phase == RunPhase::RunningAction
                    && final(run).found.changed == old(run).found.changed
            }
        },
{
}

/// Where files are watched, their hash decides, whatever the commit is.
pub proof fn law_files_decide(run: &mut TriggerRun, hash: Option<Vec<u8>>, commit: String, request: RunRequest)
    requires
        call_ensures(TriggerRun::step, (run, RunEvent::FilesHashed(hash)), request),
        old(run).sources.watch_on.files is Some,
        old(run).found.commit_hash == Some(commit),
        old(run).found.file_hash is None,
    ensures
        final(run).source == old(run).source,
        final(run).pending == old(run).pending,
        final(run).found.commit_hash == Some(commit),
        match hash {
            Some(bytes) => final(run).found.file_hash matches Some(text) && is_hex_of(text@, bytes@),
            None => final(run).found.file_hash is None,
        },
        !old(run).checked_sources@.contains_key(old(run).source@) ==> asks_to_run(
            *old(run),
            commit@,
            request,
        ) && final(run).phase == RunPhase::RunningAction,
        !old(run).sources.watch_on.on_change_only ==> asks_to_run(*old(run), commit@, request)
            && final(run).phase == RunPhase::RunningAction,
        old(run).checked_sources@.contains_key(old(run).source@) ==> {
            let known = old(run).checked_sources@[old(run).source@];
            let same = match (hash, known.file_hash) {
                (Some(bytes), Some(text)) => text@ == hex_digits(bytes@),
                (None, None) => true,
                _ => false,
            };
            if same && old(run).sources.watch_on.on_change_only {
                &&& final(run).phase == RunPhase::Recording
                &&& final(run).found.changed == known.changed
                &&& request == RunRequest::UpdateStatus {
                    state: None,
                    source: Some((old(run).source, final(run).found)),
                    set_last_run: false,
                }
            } else {
                asks_to_run(*old(run), commit@, request) && final(run).phase == RunPhase::RunningAction
            }
        },
{
    if let Some(bytes) = hash {
        law_digests_are_written_in_digits(bytes@);
    }
}

/// After the action was accepted, exactly what was found is recorded, with the present as the time of
/// the last change and of the last run. After it was refused, nothing is recorded and the source's
/// folder is removed.
pub proof fn law_accepted_action_is_recorded(
    run: &mut TriggerRun,
    accepted: bool,
    now: Timestamp,
    request: RunRequest,
)
    requires
        call_ensures(TriggerRun::step, (run, RunEvent::ActionRun { accepted, now }), request),
    ensures
        final(run).source == old(run).source,
        final(run).pending == old(run).pending,
        accepted ==> {
            &&& final(run).phase == RunPhase::Recording
            &&& request matches RunRequest::UpdateStatus { state, source, set_last_run } && state == Some(
                TriggerState::Running,
            ) && set_last_run && (source matches Some(recorded) && recorded.0 == old(run).source
                && recorded.1.commit_hash == old(run).found.commit_hash
                    && recorded.1.file_hash == old(run).found.file_hash
                    && (recorded.1.changed matches Some(text) && text@ == rfc3339(
                now.secs as int,
            )))
        },
        !accepted ==> {
            &&& final(run).phase == RunPhase::RemovingFolder
            &&& request matches RunRequest::RemoveFolder { path } && path@ == old(run).base_folder@ + "/"@
                + old(run).source@
        },
{
}

/// When the action of a source with watched files is accepted, what is recorded is what was found: the
/// commit, and the hash of the files in hexadecimal digits.
pub proof fn law_found_files_are_recorded(
    run1: &mut TriggerRun,
    hash: String,
    request1: RunRequest,
    run2: &mut TriggerRun,
    bytes: Vec<u8>,
    request2: RunRequest,
    run3: &mut TriggerRun,
    now: Timestamp,
    request3: RunRequest,
)
    requires
        old(run1).sources.watch_on.files is Some,
        call_ensures(TriggerRun::step, (run1, RunEvent::CommitFound(Some(hash))), request1),
        *old(run2) == *final(run1),
        call_ensures(TriggerRun::step, (run2, RunEvent::FilesHashed(Some(bytes))), request2),
        request2 is RunAction,
        *old(run3) == *final(run2),
        call_ensures(TriggerRun::step, (run3, RunEvent::ActionRun { accepted: true, now }), request3),
    ensures
        request3 matches RunRequest::UpdateStatus { source: Some(recorded), .. }
            && recorded.0 == old(run1).source && has_found(
            recorded.1,
            hash@,
            Some(hex_digits(bytes@)),
            Some(rfc3339(now.secs as int)),
        ) && (recorded.1.file_hash matches Some(text) && is_hex_of(text@, bytes@)),
{
    law_digests_are_written_in_digits(bytes@);
}

/// When the action of a source is accepted, what is recorded has the commit that was found.
pub proof fn law_found_commit_is_recorded(
    run1: &mut TriggerRun,
    hash: String,
    request1: RunRequest,
    run2: &mut TriggerRun,
    now: Timestamp,
    request2: RunRequest,
)
    requires
        old(run1).sources.watch_on.files is None,
        call_ensures(TriggerRun::step, (run1, RunEvent::CommitFound(Some(hash))), request1),
        request1 is RunAction,
        *old(run2) == *final(run1),
        call_ensures(TriggerRun::step, (run2, RunEvent::ActionRun { accepted: true, now }), request2),
    ensures
        request2 matches RunRequest::UpdateStatus { source: Some(recorded), .. }
            && recorded.0 == old(run1).source && recorded.1.commit_hash == Some(hash)
            && recorded.1.file_hash == old(run1).found.file_hash && (recorded.1.changed matches Some(text)
            && text@ == rfc3339(now.secs as int)),
{
}

/// A run that was recorded isn't repeated: the status that records what a run found in a source is
/// what the next run knows of it, so that with the same commit, and the same files where they are
/// watched, the next run asks for no action.
pub proof fn law_same_content_runs_no_second_action<T: Trigger>(
    trigger: &T,
    current: &T,
    state: Option<TriggerState>,
    recorded: (String, CheckedSourceState),
    set_last_run: bool,
    now: Timestamp,
    patch: StatusPatch,
    task: &TriggerTask,
    next_trigger: &T,
    suffix: &str,
    begun: (TriggerRun, RunRequest),
    run: &mut TriggerRun,
    event: RunEvent,
    request: RunRequest,
)
    requires
        call_ensures(
            requested_status::<T>,
            (trigger, Ok::<&T, Error>(current), state, Some(recorded), set_last_run, now),
            Ok::<StatusPatch, Error>(patch),
        ),
        has_string(current.the_sources().names@, recorded.0@),
        next_trigger.the_status() == Some(patch.status),
        next_trigger.the_sources() == current.the_sources(),
        call_ensures(TriggerRun::begin::<T>, (task, Some(next_trigger), suffix), begun),
        old(run).checked_sources == begun.0.checked_sources,
        old(run).sources == begun.0.sources,
        old(run).source@ == recorded.0@,
        next_trigger.the_sources().watch_on.on_change_only,
        call_ensures(TriggerRun::step, (run, event), request),
        match event {
            RunEvent::CommitFound(Some(hash)) => recorded.1.commit_hash matches Some(c) && c@ == hash@,
            RunEvent::FilesHashed(Some(bytes)) => next_trigger.the_sources().watch_on.files is Some
                && (recorded.1.file_hash matches Some(text) && text@ == hex_digits(bytes@)),
            _ => false,
        },
    ensures
        !(request is RunAction),
{
    assert(begun.0.checked_sources@.contains_key(recorded.0@));
    assert(begun.0.checked_sources@[recorded.0@] == recorded.1);
}

/// Once what was found is recorded the source's folder is removed, and once the trigger is marked idle
/// the run is measured and ends.
pub proof fn law_run_cleans_up_and_ends(run: &mut TriggerRun, event: RunEvent, request: RunRequest)
    requires
        call_ensures(TriggerRun::step, (run, event), request),
    ensures
        event == RunEvent::StatusUpdated && old(run).phase == RunPhase::Recording ==> final(run).phase
            == RunPhase::RemovingFolder && final(run).pending == old(run).pending
                && (request matches RunRequest::RemoveFolder {
            path,
        } && path@ == old(run).base_folder@ + "/"@ + old(run).source@),
        event == RunEvent::StatusUpdated && old(run).phase == RunPhase::MarkingIdle ==> final(run).phase
            == RunPhase::Measuring && request == RunRequest::Measure,
        event == RunEvent::Measured ==> final(run).phase == RunPhase::Finished && request
            == RunRequest::Finish,
{
}

/// The character is a letter or a digit of ASCII.
pub open spec fn is_letter_or_digit(c: char) -> bool {
    (97 <= c as int <= 122) || (65 <= c as int <= 90) || (48 <= c as int <= 57)
}

/// The run knows what the trigger's status says of the sources that the trigger has, and nothing of
/// others.
pub open spec fn knows_own_sources<T: Trigger>(run: TriggerRun, trigger: T) -> bool {
    forall|key: Seq<char>|
        {
            &&& #[trigger] run.checked_sources@.contains_key(key) == (has_string(
                trigger.the_sources().names@,
                key,
            ) && (trigger.the_status() matches Some(status) && status.checked_sources@.contains_key(key)))
            &&& run.checked_sources@.contains_key(key) ==> run.checked_sources@[key]
                == trigger.the_status()->0.checked_sources@[key]
        }
}

/// The run is to check the sources that the task asks for, each once.
pub open spec fn is_to_check<T: Trigger>(run: TriggerRun, task: TriggerTask, trigger: T) -> bool {
    match task.task_sources {
        TriggerTaskSources::All => {
            &&& forall|i: int, j: int|
                0 <= i < j < run.pending@.len() ==> (#[trigger] run.pending@[i])@ != (
                #[trigger] run.pending@[j])@
            &&& forall|name: Seq<char>|
                has_string(run.pending@, name) == #[trigger] has_string(
                    trigger.the_sources().names@,
                    name,
                )
        },
        TriggerTaskSources::Single(source) => run.pending@.len() == 1 && run.pending@[0]@ == source@,
    }
}

proof fn lemma_views_contain(strings: Seq<String>, name: Seq<char>)
    ensures
        has_string(strings, name) == views(strings).contains(name),
{
    if has_string(strings, name) {
        let i = choose|i: int| 0 <= i < strings.len() && (#[trigger] strings[i])@ == name;
        assert(views(strings)[i] == name);
    }
    if views(strings).contains(name) {
        let i = views(strings).index_of(name);
        assert(strings[i]@ == name);
    }
}

/// First occurrences are told apart, and none is missing.
pub proof fn lemma_first_occurrences_of(names: Seq<String>, kept: Seq<String>)
    requires
        views(kept) == crate::resources::trigger_task::first_occurrences(views(names)),
    ensures
        forall|i: int, j: int|
            0 <= i < j < kept.len() ==> (#[trigger] kept[i])@ != (#[trigger] kept[j])@,
        forall|name: Seq<char>| has_string(kept, name) == #[trigger] has_string(names, name),
{
    lemma_first_occurrences(views(names));
    assert forall|i: int, j: int| 0 <= i < j < kept.len() implies (#[trigger] kept[i])@ != (
    #[trigger] kept[j])@ by {
        assert(views(kept)[i] == kept[i]@ && views(kept)[j] == kept[j]@);
    }
    assert forall|name: Seq<char>| has_string(kept, name) == #[trigger] has_string(names, name) by {
        lemma_views_contain(kept, name);
        lemma_views_contain(names, name);
        assert(views(kept).contains(name) == views(names).contains(name));
    }
}

/// No name is lost and none occurs twice.
pub proof fn law_names_occur_once(names: &Vec<String>, r: Vec<String>)
    requires
        call_ensures(unique_names, (names,), r),
    ensures
        forall|i: int, j: int| 0 <= i < j < r@.len() ==> (#[trigger] r@[i])@ != (#[trigger] r@[j])@,
        forall|name: Seq<char>| has_string(r@, name) == #[trigger] has_string(names@, name),
{
    lemma_first_occurrences_of(names@, r@);
}

/// A run of a trigger begins by marking it as running, in a folder of its own, with what is known of
/// its sources, and is to check all of them or the one that was asked for. Without its trigger it only
/// is measured.
pub proof fn law_run_begins<T: Trigger>(
    task: &TriggerTask,
    trigger: Option<&T>,
    suffix: &str,
    r: (TriggerRun, RunRequest),
)
    requires
        call_ensures(TriggerRun::begin::<T>, (task, trigger, suffix), r),
    ensures
        r.0.kind == task.kind,
        r.0.namespace == task.namespace,
        r.0.name == task.name,
        match trigger {
            Some(t) => {
                &&& r.0.phase == RunPhase::MarkingRunning
                &&& r.1 == RunRequest::UpdateStatus {
                    state: Some(TriggerState::Running),
                    source: None,
                    set_last_run: false,
                }
                &&& r.0.base_folder@ == task.source_clone_folder@ + "/"@ + task.namespace@ + "/"@
                    + task.name@ + "/"@ + suffix@
                &&& r.0.sources.kind == t.the_sources().kind
                &&& r.0.sources.names@ == t.the_sources().names@
                &&& r.0.sources.watch_on.on_change_only == t.the_sources().watch_on.on_change_only
                &&& r.0.sources.watch_on.reference == t.the_sources().watch_on.reference
                &&& match t.the_sources().watch_on.files {
                    Some(files) => r.0.sources.watch_on.files matches Some(f) && f@ == files@,
                    None => r.0.sources.watch_on.files is None,
                }
                &&& r.0.action == t.the_action()
                &&& knows_own_sources(r.0, *t)
                &&& is_to_check(r.0, *task, *t)
            },
            None => {
                &&& r.0.phase == RunPhase::Measuring
                &&& r.0.pending@.len() == 0
                &&& r.1 == RunRequest::Measure
            },
        },
{
    if let Some(t) = trigger {
        match task.task_sources {
            TriggerTaskSources::All => {
                lemma_first_occurrences_of(t.the_sources().names@, r.0.pending@);
            },
            TriggerTaskSources::Single(source) => {
                assert(views(r.0.pending@).len() == 1);
                assert(views(r.0.pending@)[0] == r.0.pending@[0]@);
            },
        }
    }
}

/// A run that starts on its own makes up eight letters and digits for the last part of its folder, and
/// is otherwise begun in the same way.
pub proof fn law_run_starts<T: Trigger>(task: &TriggerTask, trigger: Option<&T>, r: (TriggerRun, RunRequest))
    requires
        call_ensures(TriggerRun::start::<T>, (task, trigger), r),
    ensures
        r.0.kind == task.kind,
        r.0.namespace == task.namespace,
        r.0.name == task.name,
        match trigger {
            Some(t) => {
                let start = task.source_clone_folder@ + "/"@ + task.namespace@ + "/"@ + task.name@ + "/"@;
                &&& r.0.phase == RunPhase::MarkingRunning
                &&& r.1 == RunRequest::UpdateStatus {
                    state: Some(TriggerState::Running),
                    source: None,
                    set_last_run: false,
                }
                &&& r.0.base_folder@.len() == start.len() + 8
                &&& forall|i: int|
                    0 <= i < start.len() ==> #[trigger] r.0.base_folder@[i] == start[i]
                &&& forall|i: int|
                    start.len() <= i < start.len() + 8 ==> is_letter_or_digit(#[trigger] r.0.base_folder@[i])
                &&& r.0.sources.kind == t.the_sources().kind
                &&& r.0.sources.names@ == t.the_sources().names@
                &&& r.0.sources.watch_on.on_change_only == t.the_sources().watch_on.on_change_only
                &&& r.0.sources.watch_on.reference == t.the_sources().watch_on.reference
                &&& match t.the_sources().watch_on.files {
                    Some(files) => r.0.sources.watch_on.files matches Some(f) && f@ == files@,
                    None => r.0.sources.watch_on.files is None,
                }
                &&& r.0.action == t.the_action()
                &&& knows_own_sources(r.0, *t)
                &&& is_to_check(r.0, *task, *t)
            },
            None => {
                &&& r.0.phase == RunPhase::Measuring
                &&& r.0.pending@.len() == 0
                &&& r.1 == RunRequest::Measure
            },
        },
{
    if let Some(t) = trigger {
        let start = task.source_clone_folder@ + "/"@ + task.namespace@ + "/"@ + task.name@ + "/"@;
        assert forall|i: int| 0 <= i < start.len() implies #[trigger] r.0.base_folder@[i] == start[i] by {
            assert(r.0.base_folder@.take(start.len() as int)[i] == r.0.base_folder@[i]);
        }
        match task.task_sources {
            TriggerTaskSources::All => {
                lemma_first_occurrences_of(t.the_sources().names@, r.0.pending@);
            },
            TriggerTaskSources::Single(source) => {
                assert(views(r.0.pending@).len() == 1);
                assert(views(r.0.pending@)[0] == r.0.pending@[0]@);
            },
        }
    }
}

/// The action runs for the source that is being checked and the commit that was found in it, on behalf
/// of the trigger.
pub proof fn law_occasion_is_what_was_found(run: &TriggerRun, r: Occasion)
    requires
        call_ensures(TriggerRun::occasion, (run,), r),
    ensures
        r.source_kind == run.sources.kind,
        r.source_name@ == run.source@,
        run.found.commit_hash matches Some(c) && r.source_commit@ == c@,
        r.trigger_ref == run.sources.watch_on.reference,
        r.namespace@ == run.namespace@,
        r.trigger_kind@ == run.kind@,
        r.trigger_name@ == run.name@,
{
}

/// A task of a trigger runs that trigger on the given schedule and sources.
pub proof fn law_task_is_of_its_trigger<T: Trigger>(
    trigger: &T,
    schedule: TaskSchedule,
    task_sources: TriggerTaskSources,
    folder: String,
    r: TriggerTask,
)
    requires
        call_ensures(create_trigger_task::<T>, (trigger, schedule, task_sources, folder), r),
    ensures
        r.schedule == schedule,
        Some(r.namespace) == trigger.the_meta().namespace,
        r.name@ == best_name(trigger.the_meta()),
        r.kind@ == T::kind_name(),
        r.task_sources == task_sources,
        r.source_clone_folder == folder,
{
}

/// Parts of a schedule trigger.
pub proof fn law_parts_of_a_schedule_trigger(trigger: ScheduleTrigger)
    ensures
        trigger.the_meta() == trigger.metadata,
        trigger.the_sources() == trigger.spec.sources,
        trigger.the_action() == trigger.spec.action,
        trigger.the_status() == trigger.status,
{
}

/// Parts of a webhook trigger.
pub proof fn law_parts_of_a_webhook_trigger(trigger: WebhookTrigger)
    ensures
        trigger.the_meta() == trigger.metadata,
        trigger.the_sources() == trigger.spec.sources,
        trigger.the_action() == trigger.spec.action,
        trigger.the_status() == trigger.status,
{
}

} // verus!
