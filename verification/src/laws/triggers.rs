//! Triggers that either follow a schedule or wait for requests: they are scheduled as they say, and again
//! when that changes.
use crate::controller::CancelOpts;
use crate::controllers::trigger::{Trigger, TriggerSources, TriggerSpec, TriggerStep, TriggerType};
use crate::controllers::{ControllerError, ControllerType, TriggersState, WarningEvent};
use crate::error::KubeError;
use crate::resources::interval::interval_length;
use crate::resources::trigger::{
    CheckedSourceState, StatusPatch, TaskSchedule, TriggerSchedule, TriggerState,
    TriggerStatus,
};
use crate::string_map::StringMap;
use crate::time::{rfc3339, rfc3339_time, Timestamp};
use vstd::prelude::*;

use super::basics::best_name;
use super::actions::{reference_texts, same_opt_texts};
use super::queue::point_nanos;
use super::schedules::{can_be_read, is_same_schedule, key_of, runs_every};

verus! {

/// Both look at the same things in the same sources.
pub open spec fn same_sources(a: TriggerSources, b: TriggerSources) -> bool {
    &&& a.kind == b.kind
    &&& a.names@.len() == b.names@.len()
    &&& forall|i: int| 0 <= i < a.names@.len() ==> (#[trigger] a.names@[i])@ == b.names@[i]@
    &&& a.watch_on.on_change_only == b.watch_on.on_change_only
    &&& reference_texts(a.watch_on.reference) == reference_texts(b.watch_on.reference)
    &&& same_opt_texts(a.watch_on.file_, b.watch_on.file_)
}

/// Both run at the same times, or for the same requests.
pub open spec fn same_occasions(a: TriggerType, b: TriggerType) -> bool {
    match (a, b) {
        (TriggerType::Schedule(x), TriggerType::Schedule(y)) => is_same_schedule(x, y),
        (TriggerType::Webhook(x), TriggerType::Webhook(y)) => {
            &&& x.multi_source == y.multi_source
            &&& match (x.auth_config, y.auth_config) {
                (Some(p), Some(q)) => p.secret_ref.name@ == q.secret_ref.name@ && p.key@ == q.key@,
                (None, None) => true,
                _ => false,
            }
        },
        _ => false,
    }
}

/// Both triggers are to do the same.
pub open spec fn same_trigger(a: TriggerSpec, b: TriggerSpec) -> bool {
    &&& same_sources(a.sources, b.sources)
    &&& same_occasions(a.trigger, b.trigger)
    &&& a.action.kind == b.action.kind
    &&& a.action.name@ == b.action.name@
}

proof fn lemma_same_as_the_same(a: TriggerSpec, b: TriggerSpec, c: TriggerSpec)
    requires
        same_trigger(a, b),
        same_trigger(a, c),
    ensures
        same_trigger(b, c),
{
    assert forall|i: int| 0 <= i < b.sources.names@.len() implies (#[trigger] b.sources.names@[i])@
        == c.sources.names@[i]@ by {
        assert(a.sources.names@[i]@ == b.sources.names@[i]@);
    }
}

proof fn lemma_same_trigger(a: TriggerSpec, b: TriggerSpec)
    ensures
        same_trigger(a, b) == a.same(b),
{
    let x = crate::text::views(a.sources.names@);
    let y = crate::text::views(b.sources.names@);
    if same_sources(a.sources, b.sources) {
        assert forall|i: int| 0 <= i < x.len() implies x[i] == y[i] by {
            assert(a.sources.names@[i]@ == b.sources.names@[i]@);
        }
        assert(x =~= y);
    }
    if x == y {
        assert(x.len() == a.sources.names@.len() && y.len() == b.sources.names@.len());
        assert forall|i: int| 0 <= i < a.sources.names@.len() implies (#[trigger] a.sources.names@[i])@
            == b.sources.names@[i]@ by {
            assert(x[i] == y[i]);
        }
    }
    let p = a.sources.watch_on.reference;
    let q = b.sources.watch_on.reference;
    assert(reference_texts(p) == (p.ref_type(), p.ref_name()));
    assert(reference_texts(q) == (q.ref_type(), q.ref_name()));
}

/// The trigger is known as it is.
pub open spec fn is_known_as_is(state: TriggersState<TriggerSpec>, trigger: Trigger) -> bool {
    let key = key_of(trigger.metadata);
    state.specs@.contains_key(key) && same_trigger(state.specs@[key], trigger.spec)
}

/// The trigger is known as it is afterwards, and nothing else has changed in what triggers are known as.
pub open spec fn is_learned(
    before: TriggersState<TriggerSpec>,
    after: TriggersState<TriggerSpec>,
    trigger: Trigger,
) -> bool {
    &&& is_known_as_is(after, trigger)
    &&& forall|other: Seq<char>|
        other != key_of(trigger.metadata) ==> {
            &&& #[trigger] after.specs@.contains_key(other) == before.specs@.contains_key(other)
            &&& before.specs@.contains_key(other) ==> after.specs@[other] == before.specs@[other]
        }
}

/// The event warns of a schedule that can't be read.
pub open spec fn warns_of_trigger(event: WarningEvent) -> bool {
    &&& event.reason@ == "ValidateTrigger"@
    &&& event.note@ == "Unable to parse schedule expression, scheduler is disabled"@
    &&& event.action@ == "ValidateTriggerConfig"@
}

/// The task follows the schedule.
pub open spec fn keeps_schedule(
    task: TaskSchedule,
    schedule: TriggerSchedule,
    last_run: Option<Timestamp>,
    now: Timestamp,
) -> bool {
    match schedule {
        TriggerSchedule::Interval(text) => runs_every(task, interval_length(text@)->0, last_run, now),
        TriggerSchedule::Cron(text) => task matches TaskSchedule::Cron(expression, opts) && expression@ == text@
            && opts.at_start == last_run is None && !opts.concurrent,
    }
}

/// The trigger is scheduled if its schedule can be read, with a warning otherwise. One that waits for
/// requests is known as it is at once.
pub open spec fn is_scheduled(
    before: TriggersState<TriggerSpec>,
    after: TriggersState<TriggerSpec>,
    step: TriggerStep,
    trigger: Trigger,
    last_run: Option<Timestamp>,
    now: Timestamp,
) -> bool {
    match trigger.spec.trigger {
        TriggerType::Schedule(schedule) => {
            &&& after.specs@ == before.specs@
            &&& if can_be_read(schedule) {
                step matches TriggerStep::AddTask(task) && keeps_schedule(task, schedule, last_run, now)
            } else {
                step matches TriggerStep::Publish(event) && warns_of_trigger(event)
            }
        },
        TriggerType::Webhook(_) => step == TriggerStep::Done(Ok(())) && is_learned(before, after, trigger),
    }
}

/// A trigger that is known as it is is left alone. One that has changed has its task canceled, if it had
/// one, and is scheduled otherwise. No other trigger's task changes.
pub open spec fn takes_up_changes(
    before: TriggersState<TriggerSpec>,
    after: TriggersState<TriggerSpec>,
    step: TriggerStep,
    trigger: Trigger,
    last_run: Option<Timestamp>,
    now: Timestamp,
) -> bool {
    let key = key_of(trigger.metadata);
    &&& forall|other: Seq<char>|
        other != key ==> {
            &&& #[trigger] after.tasks@.contains_key(other) == before.tasks@.contains_key(other)
            &&& before.tasks@.contains_key(other) ==> after.tasks@[other] == before.tasks@[other]
        }
    &&& if is_known_as_is(before, trigger) {
        &&& step == TriggerStep::Done(Ok(()))
        &&& after.tasks@ == before.tasks@
        &&& after.specs@ == before.specs@
    } else if before.tasks@.contains_key(key) {
        &&& step == TriggerStep::CancelTask(before.tasks@[key], CancelOpts::Ignore)
        &&& !after.tasks@.contains_key(key)
        &&& after.specs@ == before.specs@
    } else {
        &&& !after.tasks@.contains_key(key)
        &&& is_scheduled(before, after, step, trigger, last_run, now)
    }
}

proof fn lemma_learned(before: TriggersState<TriggerSpec>, after: TriggersState<TriggerSpec>, trigger: Trigger)
    requires
        crate::controllers::trigger::learns_spec(before, after, trigger),
        trigger.metadata.namespace is Some,
    ensures
        is_learned(before, after, trigger),
{
    let key = key_of(trigger.metadata);
    assert(key == crate::resources::trigger::hash_key(trigger.metadata));
    lemma_same_trigger(after.specs@[key], trigger.spec);
    assert forall|other: Seq<char>| other != key implies {
        &&& #[trigger] after.specs@.contains_key(other) == before.specs@.contains_key(other)
        &&& before.specs@.contains_key(other) ==> after.specs@[other] == before.specs@[other]
    } by {
        assert(before.specs@.insert(key, after.specs@[key]).contains_key(other)
            == before.specs@.contains_key(other));
    }
}

proof fn lemma_takes_up_changes(
    before: TriggersState<TriggerSpec>,
    after: TriggersState<TriggerSpec>,
    step: TriggerStep,
    trigger: Trigger,
    last_run: Option<Timestamp>,
    now: Timestamp,
)
    requires
        crate::controllers::trigger::is_spec_step(before, after, step, trigger, last_run, now),
        trigger.metadata.namespace is Some,
    ensures
        takes_up_changes(before, after, step, trigger, last_run, now),
{
    let key = key_of(trigger.metadata);
    assert(key == crate::resources::trigger::hash_key(trigger.metadata));
    lemma_same_trigger(before.specs@[key], trigger.spec);
    if !crate::controllers::trigger::spec_known(before, trigger) && !before.tasks@.contains_key(key)
        && trigger.spec.trigger is Webhook {
        lemma_learned(before, after, trigger);
    }
}

/// Reconciling the spec of a trigger takes up its changes, and keeps its status.
pub proof fn law_changed_trigger_is_taken_up(
    trigger: &Trigger,
    state: &mut TriggersState<TriggerSpec>,
    last_run: Option<Timestamp>,
    now: Timestamp,
    r: TriggerStep,
)
    requires
        call_ensures(Trigger::reconcile_spec, (trigger, state, last_run, now), r),
        trigger.metadata.namespace is Some,
    ensures
        takes_up_changes(*old(state), *final(state), r, *trigger, last_run, now),
        final(state).statuses == old(state).statuses,
{
    lemma_takes_up_changes(*old(state), *final(state), r, *trigger, last_run, now);
}

/// After the task that it had was canceled, a trigger is scheduled.
pub proof fn law_changed_trigger_is_scheduled(
    trigger: &Trigger,
    state: &mut TriggersState<TriggerSpec>,
    last_run: Option<Timestamp>,
    now: Timestamp,
    r: TriggerStep,
)
    requires
        call_ensures(Trigger::schedule, (trigger, state, last_run, now), r),
        trigger.metadata.namespace is Some,
    ensures
        is_scheduled(*old(state), *final(state), r, *trigger, last_run, now),
        final(state).tasks == old(state).tasks,
        final(state).statuses == old(state).statuses,
{
    if trigger.spec.trigger is Webhook {
        lemma_learned(*old(state), *final(state), *trigger);
    }
}

/// The trigger is forgotten: nothing is known of it any more, and the task that it had is killed. Its
/// status is kept only where nothing was known of it.
pub open spec fn is_gone(
    before: TriggersState<TriggerSpec>,
    after: TriggersState<TriggerSpec>,
    step: TriggerStep,
    key: Seq<char>,
) -> bool {
    &&& !after.specs@.contains_key(key)
    &&& !after.tasks@.contains_key(key)
    &&& after.statuses@.contains_key(key) == (before.statuses@.contains_key(key) && !before.specs@.contains_key(key))
    &&& if before.tasks@.contains_key(key) {
        step == TriggerStep::CancelTask(before.tasks@[key], CancelOpts::Kill)
    } else {
        step == TriggerStep::Done(Ok(()))
    }
    &&& forall|other: Seq<char>|
        #![trigger after.specs@.contains_key(other)]
        #![trigger after.tasks@.contains_key(other)]
        #![trigger after.statuses@.contains_key(other)]
        other != key ==> {
            &&& after.specs@.contains_key(other) == before.specs@.contains_key(other)
            &&& before.specs@.contains_key(other) ==> after.specs@[other] == before.specs@[other]
            &&& after.tasks@.contains_key(other) == before.tasks@.contains_key(other)
            &&& before.tasks@.contains_key(other) ==> after.tasks@[other] == before.tasks@[other]
            &&& after.statuses@.contains_key(other) == before.statuses@.contains_key(other)
            &&& before.statuses@.contains_key(other) ==> after.statuses@[other] == before.statuses@[other]
        }
}

/// The controller works for the trigger: the leader for those that follow a schedule, and the one of the
/// webhooks for those that wait for requests.
pub open spec fn works_for(cntrl_type: ControllerType, trigger: TriggerType) -> bool {
    (cntrl_type == ControllerType::Leader) == trigger is Schedule
}

/// Exactly one controller works for a trigger.
pub proof fn law_controllers_share_the_triggers(trigger: &TriggerType, cntrl_type: ControllerType, r: bool)
    requires
        call_ensures(TriggerType::is_processable, (trigger, cntrl_type), r),
    ensures
        r == works_for(cntrl_type, *trigger),
{
}

/// A trigger is reconciled by the controller that works for it. Where its status isn't known yet, the one
/// that the cluster has is taken; where there is none, an idle one is set first. Any other controller
/// forgets the trigger.
pub proof fn law_trigger_is_reconciled(
    trigger: &Trigger,
    state: &mut TriggersState<TriggerSpec>,
    cntrl_type: ControllerType,
    last_run: Option<Timestamp>,
    now: Timestamp,
    r: TriggerStep,
)
    requires
        call_ensures(Trigger::reconcile, (trigger, state, cntrl_type, last_run, now), r),
        trigger.metadata.namespace is Some,
    ensures
        is_reconciled(*old(state), *final(state), r, *trigger, cntrl_type, last_run, now),
{
    lemma_reconciled(*old(state), *final(state), r, *trigger, cntrl_type, last_run, now);
}

/// The step begins to reconcile the trigger.
pub open spec fn is_reconciled(
    before: TriggersState<TriggerSpec>,
    after: TriggersState<TriggerSpec>,
    step: TriggerStep,
    trigger: Trigger,
    cntrl_type: ControllerType,
    last_run: Option<Timestamp>,
    now: Timestamp,
) -> bool {
    let key = key_of(trigger.metadata);
    if !works_for(cntrl_type, trigger.spec.trigger) {
        is_gone(before, after, step, key)
    } else if before.statuses@.contains_key(key) {
        &&& after.statuses@ == before.statuses@
        &&& takes_up_changes(before, after, step, trigger, last_run, now)
    } else if trigger.status is Some {
        let status = trigger.status->0;
        &&& after.statuses@.contains_key(key)
        &&& after.statuses@[key].state == status.state
        &&& after.statuses@[key].last_run == status.last_run
        &&& after.statuses@[key].checked_sources@ == status.checked_sources@
        &&& forall|other: Seq<char>|
            other != key ==> {
                &&& #[trigger] after.statuses@.contains_key(other) == before.statuses@.contains_key(other)
                &&& before.statuses@.contains_key(other) ==> after.statuses@[other] == before.statuses@[other]
            }
        &&& takes_up_changes(before, after, step, trigger, last_run, now)
    } else {
        &&& after == before
        &&& step matches TriggerStep::UpdateStatus(status) && status.state == TriggerState::Idle
            && status.last_run is None && status.checked_sources@ == Map::<Seq<char>, CheckedSourceState>::empty()
    }
}

proof fn lemma_reconciled(
    before: TriggersState<TriggerSpec>,
    after: TriggersState<TriggerSpec>,
    step: TriggerStep,
    trigger: Trigger,
    cntrl_type: ControllerType,
    last_run: Option<Timestamp>,
    now: Timestamp,
)
    requires
        crate::controllers::trigger::is_reconcile_step(before, after, step, trigger, cntrl_type, last_run, now),
        trigger.metadata.namespace is Some,
    ensures
        is_reconciled(before, after, step, trigger, cntrl_type, last_run, now),
{
    let key = key_of(trigger.metadata);
    assert(key == crate::resources::trigger::hash_key(trigger.metadata));
    if works_for(cntrl_type, trigger.spec.trigger) && (before.statuses@.contains_key(key) || trigger.status is Some) {
        lemma_takes_up_changes(before, after, step, trigger, last_run, now);
    }
}

/// A trigger that is reconciled on its own takes the time of its last run from its status. Where that
/// can't be read, or an interval can't be counted from it because it is yet to come, a schedule that has
/// changed isn't touched.
pub proof fn law_trigger_is_reconciled_from_its_last_run(
    trigger: &Trigger,
    state: &mut TriggersState<TriggerSpec>,
    cntrl_type: ControllerType,
    now: Timestamp,
    r: Option<TriggerStep>,
)
    requires
        call_ensures(Trigger::reconcile_now, (trigger, state, cntrl_type, now), r),
        trigger.metadata.namespace is Some,
    ensures
        ({
            let scheduled = trigger.spec.trigger is Schedule && cntrl_type == ControllerType::Leader
                && !is_known_as_is(*old(state), *trigger);
            let schedule = trigger.spec.trigger->Schedule_0;
            let written = trigger.status is Some && trigger.status->0.last_run is Some;
            let time = rfc3339_time(trigger.status->0.last_run->0@);
            let bad = written && (time is None || (time->0 > point_nanos(now) && schedule is Interval
                && can_be_read(schedule)));
            &&& r is None == (scheduled && bad)
            &&& r is None ==> *final(state) == *old(state)
            &&& r matches Some(step) ==> exists|last_run: Option<Timestamp>| #[trigger]
                is_reconciled(*old(state), *final(state), step, *trigger, cntrl_type, last_run, now) && (scheduled
                    ==> last_run is Some == written && (written ==> time == Some(point_nanos(last_run->0))))
        }),
{
    let key = key_of(trigger.metadata);
    assert(key == crate::resources::trigger::hash_key(trigger.metadata));
    lemma_same_trigger(old(state).specs@[key], trigger.spec);
    if let Some(step) = r {
        let last_run = choose|last_run: Option<Timestamp>| #[trigger]
            crate::controllers::trigger::is_reconcile_step(
                *old(state),
                *final(state),
                step,
                *trigger,
                cntrl_type,
                last_run,
                now,
            ) && (crate::controllers::trigger::needs_last_run(*old(state), *trigger, cntrl_type)
                ==> crate::controllers::trigger::is_last_run(*trigger, last_run));
        lemma_reconciled(*old(state), *final(state), step, *trigger, cntrl_type, last_run, now);
        assert(is_reconciled(*old(state), *final(state), step, *trigger, cntrl_type, last_run, now));
    }
}

/// A task that was added is the trigger's, and the trigger is known as it is.
pub proof fn law_added_task_is_kept(
    trigger: &Trigger,
    state: &mut TriggersState<TriggerSpec>,
    task_id: String,
    r: TriggerStep,
)
    requires
        call_ensures(Trigger::task_added, (trigger, state, task_id), r),
        trigger.metadata.namespace is Some,
    ensures
        r == TriggerStep::Done(Ok(())),
        final(state).statuses == old(state).statuses,
        final(state).tasks@.contains_key(key_of(trigger.metadata)),
        final(state).tasks@[key_of(trigger.metadata)] == task_id,
        forall|other: Seq<char>|
            other != key_of(trigger.metadata) ==> {
                &&& #[trigger] final(state).tasks@.contains_key(other) == old(state).tasks@.contains_key(other)
                &&& old(state).tasks@.contains_key(other) ==> final(state).tasks@[other] == old(state).tasks@[other]
            },
        is_learned(*old(state), *final(state), *trigger),
{
    lemma_learned(*old(state), *final(state), *trigger);
}

/// After its warning was published, a trigger is known as it is. If it couldn't be, that is the end.
pub proof fn law_warned_trigger_is_known(
    trigger: &Trigger,
    state: &mut TriggersState<TriggerSpec>,
    published: Result<(), KubeError>,
    r: TriggerStep,
)
    requires
        call_ensures(Trigger::event_published, (trigger, state, published), r),
        trigger.metadata.namespace is Some,
    ensures
        final(state).statuses == old(state).statuses,
        final(state).tasks == old(state).tasks,
        published is Ok ==> r == TriggerStep::Done(Ok(())) && is_learned(*old(state), *final(state), *trigger),
        published matches Err(e) ==> r == TriggerStep::Done(Err(ControllerError::KubeError(e))) && final(state).specs
            == old(state).specs,
{
    if published is Ok {
        lemma_learned(*old(state), *final(state), *trigger);
    }
}

/// An edited trigger is scheduled again: its task is canceled, and then the trigger is scheduled as it is
/// now, however it was edited.
pub proof fn law_edited_trigger_is_scheduled_again(
    trigger: &Trigger,
    state1: &mut TriggersState<TriggerSpec>,
    task_id: String,
    r1: TriggerStep,
    edited: &Trigger,
    state2: &mut TriggersState<TriggerSpec>,
    last_run: Option<Timestamp>,
    now: Timestamp,
    r2: TriggerStep,
    state3: &mut TriggersState<TriggerSpec>,
    r3: TriggerStep,
)
    requires
        trigger.metadata.namespace is Some,
        edited.metadata == trigger.metadata,
        call_ensures(Trigger::task_added, (trigger, state1, task_id), r1),
        !same_trigger(trigger.spec, edited.spec),
        *old(state2) == *final(state1),
        call_ensures(Trigger::reconcile_spec, (edited, state2, last_run, now), r2),
        *old(state3) == *final(state2),
        call_ensures(Trigger::schedule, (edited, state3, last_run, now), r3),
    ensures
        r2 == TriggerStep::CancelTask(task_id, CancelOpts::Ignore),
        is_scheduled(*old(state3), *final(state3), r3, *edited, last_run, now),
{
    law_added_task_is_kept(trigger, state1, task_id, r1);
    law_changed_trigger_is_taken_up(edited, state2, last_run, now, r2);
    let known = old(state2).specs@[key_of(edited.metadata)];
    if same_trigger(known, edited.spec) {
        lemma_same_as_the_same(known, trigger.spec, edited.spec);
    }
    law_changed_trigger_is_scheduled(edited, state3, last_run, now, r3);
}

/// A trigger that goes is forgotten by the controller that works for it, and no other does anything.
pub proof fn law_trigger_is_cleaned_up(
    trigger: &Trigger,
    state: &mut TriggersState<TriggerSpec>,
    cntrl_type: ControllerType,
    r: TriggerStep,
)
    requires
        call_ensures(Trigger::cleanup, (trigger, state, cntrl_type), r),
        trigger.metadata.namespace is Some,
    ensures
        works_for(cntrl_type, trigger.spec.trigger) ==> is_gone(
            *old(state),
            *final(state),
            r,
            key_of(trigger.metadata),
        ),
        !works_for(cntrl_type, trigger.spec.trigger) ==> *final(state) == *old(state)
            && r == TriggerStep::Done(Ok(())),
{
}

/// The key of a trigger is its namespace and its name.
pub proof fn law_trigger_has_its_key(trigger: &Trigger, r: String)
    requires
        call_ensures(Trigger::trigger_hash_key, (trigger,), r),
        trigger.metadata.namespace is Some,
    ensures
        r@ == key_of(trigger.metadata),
{
}

/// The last run is what the status says, and it is an error if that can't be read.
pub proof fn law_last_run_is_in_the_status(trigger: &Trigger, r: Result<Option<Timestamp>, String>)
    requires
        call_ensures(Trigger::last_run_time, (trigger,), r),
    ensures
        ({
            let written = trigger.status is Some && trigger.status->0.last_run is Some;
            let text = trigger.status->0.last_run->0;
            &&& !written ==> r == Ok::<Option<Timestamp>, String>(None)
            &&& written && rfc3339_time(text@) is Some ==> (r matches Ok(Some(time)) && rfc3339_time(text@) == Some(
                point_nanos(time),
            ))
            &&& written && rfc3339_time(text@) is None ==> r == Err::<Option<Timestamp>, String>(text)
        }),
{
}

/// A trigger's task follows its schedule if that can be read. One that waits for requests runs once.
pub proof fn law_task_follows_the_schedule(
    trigger: &Trigger,
    last_run: Option<Timestamp>,
    now: Timestamp,
    r: Option<TaskSchedule>,
)
    requires
        call_ensures(Trigger::get_task_schedule, (trigger, last_run, now), r),
    ensures
        match trigger.spec.trigger {
            TriggerType::Schedule(schedule) => r is Some == can_be_read(schedule) && (r is Some ==> keeps_schedule(
                r->0,
                schedule,
                last_run,
                now,
            )),
            TriggerType::Webhook(_) => r == Some(TaskSchedule::Once),
        },
{
}

/// A trigger's status keeps what an update doesn't give. At first it is idle and has never run.
pub proof fn law_status_of_a_trigger_is_updated(
    trigger: &Trigger,
    known: &TriggersState<TriggerSpec>,
    state: Option<TriggerState>,
    checked: Option<StringMap<CheckedSourceState>>,
    last_run: Option<Timestamp>,
    r: TriggerStatus,
)
    requires
        call_ensures(Trigger::update_trigger_status, (trigger, known, state, checked, last_run), r),
        trigger.metadata.namespace is Some,
    ensures
        ({
            let key = key_of(trigger.metadata);
            let there = known.statuses@.contains_key(key);
            let before = known.statuses@[key];
            &&& state is Some ==> r.state == state->0
            &&& state is None && there ==> r.state == before.state
            &&& state is None && !there ==> r.state == TriggerState::Idle
            &&& last_run is Some ==> (r.last_run matches Some(text) && text@ == rfc3339(last_run->0.secs as int) && (
            last_run->0.in_four_digit_year() ==> rfc3339_time(text@) == Some(last_run->0.secs * 1_000_000_000)))
            &&& last_run is None && there ==> same_opt_texts(r.last_run, before.last_run)
            &&& last_run is None && !there ==> r.last_run is None
            &&& checked is Some ==> r.checked_sources@ == checked->0@
            &&& checked is None && there ==> r.checked_sources@ == before.checked_sources@
            &&& checked is None && !there ==> r.checked_sources@ == Map::<Seq<char>, CheckedSourceState>::empty()
        }),
{
    let key = key_of(trigger.metadata);
    assert(key == crate::resources::trigger::hash_key(trigger.metadata));
}

/// A patch sets the status of the trigger by its name and kind.
pub proof fn law_patch_is_for_the_trigger(trigger: &Trigger, status: TriggerStatus, r: StatusPatch)
    requires
        call_ensures(Trigger::status_patch, (trigger, status), r),
    ensures
        r.name@ == best_name(trigger.metadata),
        r.api_version@ == "git-events-runner.rs"@ + "/"@ + "v1alpha1"@,
        r.kind@ == "Trigger"@,
        r.status == status,
{
}

/// A status that was set is known, and one that couldn't be isn't.
pub proof fn law_set_status_is_known(
    trigger: &Trigger,
    known: &mut TriggersState<TriggerSpec>,
    status: TriggerStatus,
    patched: Result<(), KubeError>,
    r: Result<(), ControllerError>,
)
    requires
        call_ensures(Trigger::status_patched, (trigger, known, status, patched), r),
        trigger.metadata.namespace is Some,
    ensures
        final(known).tasks == old(known).tasks,
        final(known).specs == old(known).specs,
        patched is Ok ==> {
            let key = key_of(trigger.metadata);
            &&& r is Ok
            &&& final(known).statuses@.contains_key(key) && final(known).statuses@[key] == status
            &&& forall|other: Seq<char>|
                other != key ==> {
                    &&& #[trigger] final(known).statuses@.contains_key(other) == old(known).statuses@.contains_key(other)
                    &&& old(known).statuses@.contains_key(other)
                        ==> final(known).statuses@[other] == old(known).statuses@[other]
                }
        },
        patched matches Err(e) ==> r == Err::<(), ControllerError>(ControllerError::KubeError(e))
            && final(known).statuses
            == old(known).statuses,
{
}

/// At first nothing is known of triggers, and a copy of sources is the same.
pub proof fn law_nothing_is_known_at_first(
    state: TriggersState<TriggerSpec>,
    sources: &TriggerSources,
    copy: TriggerSources,
    key: Seq<char>,
)
    requires
        call_ensures(<TriggersState<TriggerSpec> as Default>::default, (), state),
        call_ensures(TriggerSources::copy, (sources,), copy),
    ensures
        !state.tasks@.contains_key(key) && !state.specs@.contains_key(key) && !state.statuses@.contains_key(key),
        same_sources(copy, *sources),
{
}

} // verus!
