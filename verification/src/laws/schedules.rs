//! Schedule triggers: they are scheduled as they say, and again when that changes.
use crate::controller::{
    finalized, reconcile_labels, CancelOpts, ReconcileStep, TriggersState, ValidationEvent,
};
use crate::error::{Error, KubeError};
use crate::resources::interval::interval_length;
use crate::resources::trigger::{
    cron_accepts, cron_schedule, interval_schedule, ScheduleTrigger, StatusPatch,
    TaskSchedule, Trigger, TriggerSchedule, TriggerState, TriggerTaskSources, WebhookTrigger,
};
use crate::resources::trigger_task::TriggerTask;
use crate::resources::{CustomApiResource, ObjectMeta};
use crate::text::has_string;
use crate::time::{Duration, Timestamp};
use vstd::prelude::*;

use super::basics::best_name;
use super::queue::{length_nanos, point_nanos};

verus! {

/// Key of a trigger: its namespace, a slash and its name.
pub open spec fn key_of(meta: ObjectMeta) -> Seq<char> {
    meta.namespace->0@ + "/"@ + best_name(meta)
}

/// Both schedules are intervals, or both cron expressions, with the same text.
pub open spec fn is_same_schedule(a: TriggerSchedule, b: TriggerSchedule) -> bool {
    match (a, b) {
        (TriggerSchedule::Interval(x), TriggerSchedule::Interval(y)) => x@ == y@,
        (TriggerSchedule::Cron(x), TriggerSchedule::Cron(y)) => x@ == y@,
        (TriggerSchedule::Interval(_), TriggerSchedule::Cron(_)) => false,
        (TriggerSchedule::Cron(_), TriggerSchedule::Interval(_)) => false,
    }
}

/// The schedule can be read: the interval has a length, or the cron expression is accepted.
pub open spec fn can_be_read(schedule: TriggerSchedule) -> bool {
    match schedule {
        TriggerSchedule::Interval(text) => interval_length(text@) is Some,
        TriggerSchedule::Cron(text) => cron_accepts(text@),
    }
}

/// The task runs all sources of the trigger, at once and then as its schedule says.
pub open spec fn runs_the_trigger(task: TriggerTask, trigger: ScheduleTrigger, folder: String) -> bool {
    &&& Some(task.namespace) == trigger.metadata.namespace
    &&& task.name@ == best_name(trigger.metadata)
    &&& task.kind@ == "ScheduleTrigger"@
    &&& task.task_sources == TriggerTaskSources::All
    &&& task.source_clone_folder == folder
    &&& match trigger.spec.schedule {
        TriggerSchedule::Interval(text) => task.schedule matches TaskSchedule::Interval(every) && interval_length(
            text@,
        ) == Some(length_nanos(every)),
        TriggerSchedule::Cron(text) => task.schedule matches TaskSchedule::Cron(expression, opts) && expression@
            == text@ && opts.at_start && !opts.concurrent,
    }
}

/// The event warns of a schedule that can't be read.
pub open spec fn warns_of_schedule(event: ValidationEvent) -> bool {
    &&& event.reason@ == "ValidateTrigger"@
    &&& event.note@ == "Unable to parse schedule expression, scheduler is disabled"@
    &&& event.action@ == "ValidateTriggerConfig"@
}

/// The step schedules the trigger if its schedule can be read, and warns otherwise.
pub open spec fn schedules_or_warns(step: ReconcileStep, trigger: ScheduleTrigger, folder: String) -> bool {
    if can_be_read(trigger.spec.schedule) {
        step matches ReconcileStep::AddTask(task) && runs_the_trigger(task, trigger, folder)
    } else {
        step matches ReconcileStep::Publish(event) && warns_of_schedule(event)
    }
}

/// A trigger that is known with its schedule is left alone. A new trigger is scheduled. One whose
/// schedule has changed, in its text or in its kind, has its task canceled, which may end what it does,
/// and is then scheduled anew.
pub proof fn law_changed_schedule_is_taken_up(
    trigger: &ScheduleTrigger,
    state: &mut TriggersState,
    now: Timestamp,
    folder: String,
    r: ReconcileStep,
)
    requires
        call_ensures(ScheduleTrigger::reconcile, (trigger, state, now, folder), r),
    ensures
        final(state).schedules == old(state).schedules,
        ({
            let key = key_of(trigger.metadata);
            let known = old(state).schedules@.contains_key(key) && is_same_schedule(
                old(state).schedules@[key],
                trigger.spec.schedule,
            );
            &&& known ==> r == ReconcileStep::Done(Ok(())) && final(state).tasks == old(state).tasks
            &&& !known ==> !(r is Done) && !(r is UpdateStatus) && !final(state).tasks@.contains_key(key)
            &&& !known && old(state).tasks@.contains_key(key) ==> r == ReconcileStep::CancelTask(
                old(state).tasks@[key],
                CancelOpts::Ignore,
            )
            &&& !known && !old(state).tasks@.contains_key(key) ==> schedules_or_warns(r, *trigger, folder)
            &&& forall|other: Seq<char>|
                other != key ==> {
                    &&& #[trigger] final(state).tasks@.contains_key(other) == old(state).tasks@.contains_key(other)
                    &&& old(state).tasks@.contains_key(other) ==> final(state).tasks@[other]
                        == old(state).tasks@[other]
                }
        }),
{
    let key = key_of(trigger.metadata);
    assert(key == crate::resources::trigger::hash_key(trigger.metadata));
}

/// After the task that a trigger had was canceled, it is scheduled if its schedule can be read.
pub proof fn law_trigger_is_scheduled_anew(
    trigger: &ScheduleTrigger,
    now: Timestamp,
    folder: String,
    r: ReconcileStep,
)
    requires
        call_ensures(ScheduleTrigger::schedule_task, (trigger, now, folder), r),
    ensures
        schedules_or_warns(r, *trigger, folder),
{
}

/// The task that was scheduled is the trigger's, and then the status is updated. If it couldn't be
/// scheduled, that is the end.
pub proof fn law_scheduled_task_is_kept(
    trigger: &ScheduleTrigger,
    state: &mut TriggersState,
    added: Result<String, String>,
    r: ReconcileStep,
)
    requires
        call_ensures(ScheduleTrigger::task_added, (trigger, state, added), r),
    ensures
        final(state).schedules == old(state).schedules,
        added matches Ok(id) ==> r == ReconcileStep::UpdateStatus && final(state).tasks@ == old(state).tasks@.insert(
            key_of(trigger.metadata),
            id,
        ),
        added matches Err(reason) ==> r == ReconcileStep::Done(Err(Error::SchedulerError(reason)))
            && final(state).tasks == old(state).tasks,
{
}

/// A warning that was published is followed by the status; one that couldn't be ends with the error.
pub proof fn law_warning_is_followed_by_the_status(
    trigger: &ScheduleTrigger,
    published: Result<(), KubeError>,
    r: ReconcileStep,
)
    requires
        call_ensures(ScheduleTrigger::event_published, (trigger, published), r),
    ensures
        published is Ok ==> r == ReconcileStep::UpdateStatus,
        published matches Err(e) ==> r == ReconcileStep::Done(Err(Error::KubeError(e))),
{
}

/// Once its status was updated, and only then, the trigger is known with its schedule.
pub proof fn law_schedule_is_known_once_the_status_is_updated(
    trigger: &ScheduleTrigger,
    state: &mut TriggersState,
    updated: Result<(), Error>,
    r: ReconcileStep,
)
    requires
        call_ensures(ScheduleTrigger::status_updated, (trigger, state, updated), r),
    ensures
        final(state).tasks == old(state).tasks,
        updated is Ok ==> r == ReconcileStep::Done(Ok(())) && final(state).schedules@
            == old(state).schedules@.insert(key_of(trigger.metadata), trigger.spec.schedule),
        updated matches Err(e) ==> r == ReconcileStep::Done(Err(e)) && final(state).schedules
            == old(state).schedules,
{
}

/// A trigger that is cleaned up is forgotten, with its task, which is stopped. Others stay.
pub proof fn law_cleaned_up_trigger_is_stopped(trigger: &ScheduleTrigger, state: &mut TriggersState, r: ReconcileStep)
    requires
        call_ensures(ScheduleTrigger::cleanup, (trigger, state), r),
    ensures
        final(state).schedules@ == old(state).schedules@.remove(key_of(trigger.metadata)),
        final(state).tasks@ == old(state).tasks@.remove(key_of(trigger.metadata)),
        old(state).tasks@.contains_key(key_of(trigger.metadata)) ==> r == ReconcileStep::CancelTask(
            old(state).tasks@[key_of(trigger.metadata)],
            CancelOpts::Kill,
        ),
        !old(state).tasks@.contains_key(key_of(trigger.metadata)) ==> r == ReconcileStep::Done(Ok(())),
{
}

/// After a trigger was reconciled with a schedule, a changed one is taken up: reconciling it again
/// cancels the task that it was given.
pub proof fn law_edited_trigger_is_rescheduled(
    trigger: &ScheduleTrigger,
    state1: &mut TriggersState,
    id: String,
    r1: ReconcileStep,
    state2: &mut TriggersState,
    r2: ReconcileStep,
    edited: &ScheduleTrigger,
    state3: &mut TriggersState,
    now: Timestamp,
    folder: String,
    r3: ReconcileStep,
)
    requires
        call_ensures(ScheduleTrigger::task_added, (trigger, state1, Ok::<String, String>(id)), r1),
        *old(state2) == *final(state1),
        call_ensures(ScheduleTrigger::status_updated, (trigger, state2, Ok::<(), Error>(())), r2),
        *old(state3) == *final(state2),
        edited.metadata == trigger.metadata,
        call_ensures(ScheduleTrigger::reconcile, (edited, state3, now, folder), r3),
    ensures
        is_same_schedule(trigger.spec.schedule, edited.spec.schedule) ==> r3 == ReconcileStep::Done(Ok(())),
        !is_same_schedule(trigger.spec.schedule, edited.spec.schedule) ==> r3 == ReconcileStep::CancelTask(
            id,
            CancelOpts::Ignore,
        ),
{
}

/// A status after a reconciliation has nothing new: a trigger without one becomes idle and has never
/// run, and one that has a status keeps it, for the sources that it still has.
pub proof fn law_reconciled_status_has_nothing_new(
    trigger: &ScheduleTrigger,
    current: &ScheduleTrigger,
    r: Result<StatusPatch, Error>,
)
    requires
        call_ensures(ScheduleTrigger::reconciled_status, (trigger, Ok::<&ScheduleTrigger, Error>(current)), r),
    ensures
        r matches Ok(patch) && patch.name@ == best_name(trigger.metadata) && patch.kind@ == "ScheduleTrigger"@
            && patch.api_version@ == "git-events-runner.rs"@ + "/"@ + "v1alpha1"@ && (match current.status {
            None => patch.status.state == TriggerState::Idle && (patch.status.last_run matches Some(text) && text@
                == "Never"@) && (forall|key: Seq<char>| !#[trigger] patch.status.checked_sources@.contains_key(key)),
            Some(status) => patch.status.state == status.state && (match status.last_run {
                Some(time) => patch.status.last_run matches Some(text) && text@ == time@,
                None => patch.status.last_run is None,
            }) && (forall|key: Seq<char>|
                #![trigger patch.status.checked_sources@.contains_key(key)]
                patch.status.checked_sources@.contains_key(key) == (status.checked_sources@.contains_key(key)
                    && has_string(current.spec.sources.names@, key)) && (
                patch.status.checked_sources@.contains_key(key) ==> patch.status.checked_sources@[key]
                    == status.checked_sources@[key])),
        }),
{
}

/// Two schedules are told apart by their kinds and texts.
pub proof fn law_schedules_are_told_apart(a: &TriggerSchedule, b: &TriggerSchedule, r: bool)
    requires
        call_ensures(TriggerSchedule::is_same, (a, b), r),
    ensures
        r == is_same_schedule(*a, *b),
{
}

/// A schedule is valid if it can be read.
pub proof fn law_schedule_that_can_be_read_is_valid(schedule: &TriggerSchedule, r: bool)
    requires
        call_ensures(TriggerSchedule::is_valid, (schedule,), r),
    ensures
        r == can_be_read(*schedule),
{
}

/// The task runs every so often. Where it has run before, it waits for what is left of the interval since
/// then, and not at all where nothing is left; where it hasn't, it runs at once.
pub open spec fn runs_every(task: TaskSchedule, length: int, last_run: Option<Timestamp>, now: Timestamp) -> bool {
    match last_run {
        None => task matches TaskSchedule::Interval(every) && length_nanos(every) == length,
        Some(t) => task matches TaskSchedule::IntervalDelayed(every, delay) && length_nanos(every) == length
            && delay.nanos < 1_000_000_000
                && (point_nanos(now) - point_nanos(t) >= length ==> length_nanos(delay) == 0)
            && (point_nanos(now) - point_nanos(t) < length ==> point_nanos(t) + length == point_nanos(now)
            + length_nanos(delay)),
    }
}

/// An interval is kept from the last run on.
pub proof fn law_interval_is_kept_from_the_last_run(
    interval: Duration,
    last_run: Option<Timestamp>,
    now: Timestamp,
    r: TaskSchedule,
)
    requires
        call_ensures(interval_schedule, (interval, last_run, now), r),
    ensures
        runs_every(r, length_nanos(interval), last_run, now),
{
}

/// A cron expression is followed without overlap, and at once where the task hasn't run before.
pub proof fn law_cron_expression_is_followed(cron: &String, last_run: Option<Timestamp>, r: TaskSchedule)
    requires
        call_ensures(cron_schedule, (cron, last_run), r),
    ensures
        r matches TaskSchedule::Cron(text, opts) && text@ == cron@ && opts.at_start == last_run is None
            && !opts.concurrent,
{
}

/// A schedule that can be read, and only such a one, is kept.
pub proof fn law_schedule_is_kept(
    schedule: &TriggerSchedule,
    last_run: Option<Timestamp>,
    now: Timestamp,
    r: Option<TaskSchedule>,
)
    requires
        call_ensures(TriggerSchedule::task_schedule, (schedule, last_run, now), r),
    ensures
        r is Some == can_be_read(*schedule),
        r matches Some(task) ==> (match *schedule {
            TriggerSchedule::Interval(text) => runs_every(task, interval_length(text@)->0, last_run, now),
            TriggerSchedule::Cron(text) => task matches TaskSchedule::Cron(expression, opts) && expression@ == text@
                && opts.at_start == last_run is None && !opts.concurrent,
        }),
{
}

/// A trigger's task follows the trigger's schedule.
pub proof fn law_trigger_keeps_its_schedule(
    trigger: &ScheduleTrigger,
    last_run: Option<Timestamp>,
    now: Timestamp,
    r: Result<TaskSchedule, ()>,
)
    requires
        call_ensures(ScheduleTrigger::get_task_schedule, (trigger, last_run, now), r),
    ensures
        r is Ok == can_be_read(trigger.spec.schedule),
        r matches Ok(task) ==> (match trigger.spec.schedule {
            TriggerSchedule::Interval(text) => runs_every(task, interval_length(text@)->0, last_run, now),
            TriggerSchedule::Cron(text) => task matches TaskSchedule::Cron(expression, opts) && expression@ == text@
                && opts.at_start == last_run is None && !opts.concurrent,
        }),
{
}

/// Triggers have a finalizer, so that they are cleaned up.
pub proof fn law_triggers_are_cleaned_up(trigger: &ScheduleTrigger, r: Option<&'static str>)
    requires
        call_ensures(ScheduleTrigger::finalizer_name, (trigger,), r),
    ensures
        r matches Some(name) && name@ == "scheduletriggers.git-events-runner.rs"@,
{
}

/// An error of a finalizer keeps its reason.
pub proof fn law_finalizer_keeps_the_reason(result: Result<(), String>, r: Result<(), Error>)
    requires
        call_ensures(finalized, (result,), r),
    ensures
        result is Ok ==> r is Ok,
        result matches Err(reason) ==> r == Err::<(), Error>(Error::FinalizerError(reason)),
{
}

/// Reconciliations are counted by namespace, kind and name.
pub proof fn law_reconciliations_are_counted<K: CustomApiResource>(meta: &ObjectMeta, r: Vec<String>)
    requires
        call_ensures(reconcile_labels::<K>, (meta,), r),
    ensures
        r@.len() == 3,
        meta.namespace matches Some(ns) ==> r@[0]@ == ns@,
        meta.namespace is None ==> r@[0]@.len() == 0,
        r@[1]@ == K::kind_name(),
        meta.name matches Some(name) ==> r@[2]@ == name@,
{
    let views = crate::text::views(r@);
    assert(views.len() == 3 && views[0] == r@[0]@ && views[1] == r@[1]@ && views[2] == r@[2]@);
}

/// Kinds of the triggers.
pub proof fn law_kinds_of_triggers()
    ensures
        ScheduleTrigger::kind_name() == "ScheduleTrigger"@,
        WebhookTrigger::kind_name() == "WebhookTrigger"@,
{
}

} // verus!
