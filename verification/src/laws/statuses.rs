//! Statuses of triggers: what is recorded is read back, and nothing else is lost.
use crate::error::Error;
use crate::resources::trigger::{
    updated_status, CheckedSourceState, StatusPatch, Trigger, TriggerGitRepoReference, TriggerState, TriggerStatus,
    TriggerTaskSources, TriggerWatchOn,
};
use crate::resources::trigger_task::requested_status;
use crate::string_map::StringMap;
use crate::text::has_string;
use crate::time::{rfc3339, Timestamp};
use vstd::prelude::*;

use super::basics::best_name;

verus! {

/// The status after an update has what is given, and otherwise what was there: a state, which is idle at
/// first; a time of the last run, which is "Never" at first; and sources. New sources take the place of
/// those that were there, and sources that the trigger doesn't have are dropped, but from a first status.
pub open spec fn is_updated(
    status: TriggerStatus,
    before: Option<TriggerStatus>,
    names: Seq<String>,
    state: Option<TriggerState>,
    checked: Map<Seq<char>, CheckedSourceState>,
    last_run: Option<Seq<char>>,
) -> bool {
    &&& state is Some ==> status.state == state->0
    &&& state is None && before is Some ==> status.state == before->0.state
    &&& state is None && before is None ==> status.state == TriggerState::Idle
    &&& last_run is Some ==> (status.last_run matches Some(text) && text@ == last_run->0)
    &&& last_run is None && before is Some ==> (match before->0.last_run {
        Some(time) => status.last_run matches Some(text) && text@ == time@,
        None => status.last_run is None,
    })
    &&& last_run is None && before is None ==> (status.last_run matches Some(text) && text@ == "Never"@)
    &&& forall|key: Seq<char>| #[trigger] is_updated_source(status, before, names, checked, key)
}

/// The source is what is given for it, or else what was there.
pub open spec fn is_updated_source(
    status: TriggerStatus,
    before: Option<TriggerStatus>,
    names: Seq<String>,
    checked: Map<Seq<char>, CheckedSourceState>,
    key: Seq<char>,
) -> bool {
    if before is Some && !has_string(names, key) {
        !status.checked_sources@.contains_key(key)
    } else if checked.contains_key(key) {
        status.checked_sources@.contains_key(key) && status.checked_sources@[key] == checked[key]
    } else if before is Some && before->0.checked_sources@.contains_key(key) {
        status.checked_sources@.contains_key(key) && status.checked_sources@[key]
            == before->0.checked_sources@[key]
    } else {
        !status.checked_sources@.contains_key(key)
    }
}

/// What a map of sources holds, or nothing.
pub open spec fn given_sources(checked: Option<StringMap<CheckedSourceState>>) -> Map<Seq<char>, CheckedSourceState> {
    match checked {
        Some(map) => map@,
        None => Map::empty(),
    }
}

/// A status keeps what an update doesn't give.
pub proof fn law_status_keeps_what_is_not_given(
    before: &Option<TriggerStatus>,
    names: &Vec<String>,
    state: Option<TriggerState>,
    checked: Option<StringMap<CheckedSourceState>>,
    last_run: Option<String>,
    r: TriggerStatus,
)
    requires
        call_ensures(updated_status, (before, names, state, checked, last_run), r),
    ensures
        is_updated(
            r,
            *before,
            names@,
            state,
            given_sources(checked),
            match last_run {
                Some(text) => Some(text@),
                None => None,
            },
        ),
{
}

/// A patch of a trigger's status updates what the cluster has, for the trigger by its name and kind. A
/// trigger that can't be had isn't updated.
pub proof fn law_patch_updates_what_the_cluster_has<T: Trigger>(
    trigger: &T,
    current: Result<&T, Error>,
    state: Option<TriggerState>,
    checked: Option<StringMap<CheckedSourceState>>,
    last_run: Option<Timestamp>,
    r: Result<StatusPatch, Error>,
)
    requires
        call_ensures(T::update_trigger_status, (trigger, current, state, checked, last_run), r),
    ensures
        current matches Err(e) ==> r == Err::<StatusPatch, Error>(e),
        current matches Ok(t) ==> (r matches Ok(patch) && patch.name@ == best_name(trigger.the_meta()) && patch.kind@
            == T::kind_name() && patch.api_version@ == "git-events-runner.rs"@ + "/"@ + "v1alpha1"@ && is_updated(
            patch.status,
            t.the_status(),
            t.the_sources().names@,
            state,
            given_sources(checked),
            match last_run {
                Some(time) => Some(rfc3339(time.secs as int)),
                None => None,
            },
        )),
{
}

/// A run's status has the source that was checked and, if the run asks for it, the present as the time
/// of the last run.
pub proof fn law_run_updates_the_status<T: Trigger>(
    trigger: &T,
    current: Result<&T, Error>,
    state: Option<TriggerState>,
    source: Option<(String, CheckedSourceState)>,
    set_last_run: bool,
    now: Timestamp,
    r: Result<StatusPatch, Error>,
)
    requires
        call_ensures(requested_status::<T>, (trigger, current, state, source, set_last_run, now), r),
    ensures
        current matches Err(e) ==> r == Err::<StatusPatch, Error>(e),
        current matches Ok(t) ==> (r matches Ok(patch) && patch.name@ == best_name(trigger.the_meta()) && patch.kind@
            == T::kind_name() && is_updated(
            patch.status,
            t.the_status(),
            t.the_sources().names@,
            state,
            match source {
                Some(checked) => Map::<Seq<char>, CheckedSourceState>::empty().insert(checked.0@, checked.1),
                None => Map::empty(),
            },
            if set_last_run {
                Some(rfc3339(now.secs as int))
            } else {
                None
            },
        )),
{
    if let Some(checked) = source {
        assert(map![checked.0@ => checked.1] =~= Map::<Seq<char>, CheckedSourceState>::empty().insert(
            checked.0@,
            checked.1,
        ));
    }
}

/// A source has the content that is known if its files have the same hash, where files are watched, and
/// if it has the same commit, where they aren't. What isn't known is the same as nothing alone.
pub proof fn law_content_is_compared(
    found: &CheckedSourceState,
    known: Option<&CheckedSourceState>,
    with_file: bool,
    r: bool,
)
    requires
        call_ensures(CheckedSourceState::is_equal, (found, known, with_file), r),
    ensures
        known is None ==> r == (found.commit_hash is None && found.file_hash is None),
        known matches Some(k) ==> with_file ==> r == (match (found.file_hash, k.file_hash) {
            (Some(a), Some(b)) => a@ == b@,
            (None, None) => true,
            _ => false,
        }),
        known matches Some(k) ==> !with_file ==> r == (match (found.commit_hash, k.commit_hash) {
            (Some(a), Some(b)) => a@ == b@,
            (None, None) => true,
            _ => false,
        }),
{
}

/// A reference is written by its type and name.
pub proof fn law_reference_is_written(
    reference: &TriggerGitRepoReference,
    prefix: Option<&str>,
    r: (String, &String),
    text: String,
)
    requires
        call_ensures(TriggerGitRepoReference::to_refname, (reference, prefix), r),
        call_ensures(TriggerGitRepoReference::to_string, (reference,), text),
    ensures
        ({
            let beginning = match prefix {
                Some(p) => p@,
                None => Seq::<char>::empty(),
            };
            match *reference {
                TriggerGitRepoReference::Branch(name) => r.0@ == beginning + "branch"@ && r.1@ == name@ && text@
                    == "branch"@ + "/"@ + name@,
                TriggerGitRepoReference::Tag(name) => r.0@ == beginning + "tag"@ && r.1@ == name@ && text@
                    == "tag"@ + "/"@ + name@,
                TriggerGitRepoReference::Commit(name) => r.0@ == beginning + "commit"@ && r.1@ == name@ && text@
                    == "commit"@ + "/"@ + name@,
            }
        }),
{
    assert(Seq::<char>::empty() + "branch"@ =~= "branch"@);
    assert(Seq::<char>::empty() + "tag"@ =~= "tag"@);
    assert(Seq::<char>::empty() + "commit"@ =~= "commit"@);
}

/// The reference that a trigger watches is fetched by its name.
pub proof fn law_watched_reference_has_its_name(watch_on: &TriggerWatchOn, r: String)
    requires
        call_ensures(TriggerWatchOn::reference_name, (watch_on,), r),
    ensures
        match watch_on.reference {
            TriggerGitRepoReference::Branch(name) => r@ == name@,
            TriggerGitRepoReference::Tag(name) => r@ == name@,
            TriggerGitRepoReference::Commit(name) => r@ == name@,
        },
{
}

/// A task for a source is for that source alone.
pub proof fn law_task_for_a_source(source: String, r: TriggerTaskSources)
    requires
        call_ensures(TriggerTaskSources::from, (source,), r),
    ensures
        r == TriggerTaskSources::Single(source),
{
}

} // verus!
