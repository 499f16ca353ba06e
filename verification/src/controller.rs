//! Reconciliation of schedule triggers: keeping the scheduled tasks in step with the triggers.
use crate::error::{Error, KubeError};
use crate::resources::interval::interval_length;
use crate::resources::trigger::{
    follows_interval, hash_key, is_status_patch, CheckedSourceState, CronOpts, ScheduleTrigger,
    StatusPatch, TaskSchedule, Trigger, TriggerSchedule, TriggerState, TriggerTaskSources,
};
use crate::resources::trigger_task::{create_trigger_task, TriggerTask};
use crate::resources::{CustomApiResource, ObjectMeta};
use crate::string_map::{restricted, StringMap};
use crate::text::{opt_view, views};
use crate::time::Timestamp;
use vstd::prelude::*;

verus! {

/// Tasks and schedules of the triggers that were reconciled.
#[derive(Debug)]
pub struct TriggersState {
    /// Identifiers of the scheduled tasks, by the keys of their triggers.
    pub tasks: StringMap<String>,
    /// Schedules of the triggers, by their keys.
    pub schedules: StringMap<TriggerSchedule>,
}

impl Default for TriggersState {
    fn default() -> (r: Self)
        ensures
            r.tasks@ == Map::<Seq<char>, String>::empty(),
            r.schedules@ == Map::<Seq<char>, TriggerSchedule>::empty(),
    {
        TriggersState { tasks: StringMap::new(), schedules: StringMap::new() }
    }
}

/// What happens to a task that is running when it is canceled.
#[derive(Clone, Copy, Debug, PartialEq, Eq, Structural)]
pub enum CancelOpts {
    /// It may end.
    Ignore,
    /// It is stopped.
    Kill,
}

/// Event that tells of a trigger whose configuration is wrong.
#[derive(Debug)]
pub struct ValidationEvent {
    /// Why there is an event.
    pub reason: String,
    /// What is wrong.
    pub note: String,
    /// What was being done.
    pub action: String,
}

/// What to do next for a trigger.
#[derive(Debug)]
pub enum ReconcileStep {
    /// Cancel a task.
    CancelTask(String, CancelOpts),
    /// Schedule a task.
    AddTask(TriggerTask),
    /// Publish a warning.
    Publish(ValidationEvent),
    /// Update the trigger's status, with nothing new to record.
    UpdateStatus,
    /// Nothing, until the trigger changes.
    Done(Result<(), Error>),
}

/// The schedule is the one that the trigger is known with.
pub open spec fn schedule_known(state: TriggersState, trigger: ScheduleTrigger) -> bool {
    let key = hash_key(trigger.metadata);
    state.schedules@.contains_key(key) && state.schedules@[key].same(trigger.spec.schedule)
}

/// The task runs all sources of the trigger on its schedule, as if it hadn't run before.
pub open spec fn is_trigger_task(task: TriggerTask, trigger: ScheduleTrigger, now: Timestamp, folder: String) -> bool {
    &&& match trigger.spec.schedule {
        TriggerSchedule::Interval(text) => interval_length(text@) matches Some(length)
            && follows_interval(task.schedule, length, None, now),
        TriggerSchedule::Cron(text) => task.schedule == TaskSchedule::Cron(
            text,
            CronOpts { at_start: true, concurrent: false },
        ),
    }
    &&& Some(task.namespace) == trigger.metadata.namespace
    &&& task.name@ == trigger.metadata.any_name()
    &&& task.kind@ == "ScheduleTrigger"@
    &&& task.task_sources is All
    &&& task.source_clone_folder == folder
}

/// The event says that the schedule can't be kept.
pub open spec fn is_schedule_warning(event: ValidationEvent) -> bool {
    &&& event.reason@ == "ValidateTrigger"@
    &&& event.note@ == "Unable to parse schedule expression, scheduler is disabled"@
    &&& event.action@ == "ValidateTriggerConfig"@
}

/// The step schedules the trigger, or tells that its schedule can't be kept.
pub open spec fn is_schedule_step(step: ReconcileStep, trigger: ScheduleTrigger, now: Timestamp, folder: String) -> bool {
    if trigger.spec.schedule.valid() {
        step matches ReconcileStep::AddTask(task) && is_trigger_task(task, trigger, now, folder)
    } else {
        step matches ReconcileStep::Publish(event) && is_schedule_warning(event)
    }
}

/// The step starts to reconcile the trigger: nothing where its schedule is known, otherwise canceling
/// the task that it had, or scheduling it.
pub open spec fn starts_reconcile(
    before: TriggersState,
    after: TriggersState,
    step: ReconcileStep,
    trigger: ScheduleTrigger,
    now: Timestamp,
    folder: String,
) -> bool {
    let key = hash_key(trigger.metadata);
    &&& after.schedules == before.schedules
    &&& if schedule_known(before, trigger) {
        &&& step == ReconcileStep::Done(Ok(()))
        &&& after.tasks == before.tasks
    } else {
        &&& after.tasks@ == before.tasks@.remove(key)
        &&& if before.tasks@.contains_key(key) {
            step == ReconcileStep::CancelTask(before.tasks@[key], CancelOpts::Ignore)
        } else {
            is_schedule_step(step, trigger, now, folder)
        }
    }
}

/// The trigger has the task that was scheduled under an identifier, and its status is updated next. It
/// gets none where the task couldn't be scheduled.
pub open spec fn takes_task(
    before: TriggersState,
    after: TriggersState,
    step: ReconcileStep,
    trigger: ScheduleTrigger,
    added: Result<String, String>,
) -> bool {
    &&& after.schedules == before.schedules
    &&& match added {
        Ok(task_id) => step is UpdateStatus && after.tasks@ == before.tasks@.insert(
            hash_key(trigger.metadata),
            task_id,
        ),
        Err(reason) => step == ReconcileStep::Done(Err(Error::SchedulerError(reason))) && after.tasks
            == before.tasks,
    }
}

/// The trigger is known with its schedule, if its status could be updated.
pub open spec fn learns_schedule(
    before: TriggersState,
    after: TriggersState,
    step: ReconcileStep,
    trigger: ScheduleTrigger,
    updated: Result<(), Error>,
) -> bool {
    &&& after.tasks == before.tasks
    &&& match updated {
        Ok(_) => step == ReconcileStep::Done(Ok(())) && after.schedules@ == before.schedules@.insert(
            hash_key(trigger.metadata),
            trigger.spec.schedule,
        ),
        Err(e) => step == ReconcileStep::Done(Err(e)) && after.schedules == before.schedules,
    }
}

/// The trigger is forgotten, and a task that it had is canceled.
pub open spec fn cleans_up(
    before: TriggersState,
    after: TriggersState,
    step: ReconcileStep,
    trigger: ScheduleTrigger,
) -> bool {
    let key = hash_key(trigger.metadata);
    &&& after.schedules@ == before.schedules@.remove(key)
    &&& after.tasks@ == before.tasks@.remove(key)
    &&& step == if before.tasks@.contains_key(key) {
        ReconcileStep::CancelTask(before.tasks@[key], CancelOpts::Kill)
    } else {
        ReconcileStep::Done(Ok(()))
    }
}

/// The patch updates the status of a trigger after it was reconciled, with nothing new to record.
pub open spec fn is_reconciled_status(patch: StatusPatch, trigger: ScheduleTrigger, current: ScheduleTrigger) -> bool {
    is_status_patch(patch, trigger, current, None, Map::empty(), None)
}

impl ScheduleTrigger {
    /// Starts to reconcile the trigger. Only a trigger whose schedule is new or has changed is
    /// scheduled, and a task that it had is canceled first.
    pub fn reconcile(&self, state: &mut TriggersState, now: Timestamp, folder: String) -> (r: ReconcileStep)
        requires
            self.metadata.namespace is Some,
            now.wf(),
            !schedule_known(*old(state), *self) ==> self.spec.schedule.in_range(),
        ensures
            starts_reconcile(*old(state), *final(state), r, *self, now, folder),
    {
        let key = self.trigger_hash_key();
        if let Some(schedule) = state.schedules.get(key.as_str()) {
            if schedule.is_same(&self.spec.schedule) {
                return ReconcileStep::Done(Ok(()));
            }
        }
        match state.tasks.remove(key.as_str()) {
            Some(task_id) => ReconcileStep::CancelTask(task_id, CancelOpts::Ignore),
            None => self.schedule_task(now, folder),
        }
    }

    /// Goes on after the task that the trigger had was canceled, or couldn't be: schedules a new one,
    /// or tells that the schedule can't be kept.
    pub fn schedule_task(&self, now: Timestamp, folder: String) -> (r: ReconcileStep)
        requires
            self.metadata.namespace is Some,
            self.spec.schedule.in_range(),
            now.wf(),
        ensures
            is_schedule_step(r, *self, now, folder),
    {
        match self.get_task_schedule(None, now) {
            Ok(schedule) => ReconcileStep::AddTask(
                create_trigger_task(self, schedule, TriggerTaskSources::All, folder),
            ),
            Err(_) => ReconcileStep::Publish(
                ValidationEvent {
                    reason: "ValidateTrigger".to_owned(),
                    note: "Unable to parse schedule expression, scheduler is disabled".to_owned(),
                    action: "ValidateTriggerConfig".to_owned(),
                },
            ),
        }
    }

    /// Goes on after the task was scheduled under an identifier, or couldn't be.
    pub fn task_added(&self, state: &mut TriggersState, added: Result<String, String>) -> (r: ReconcileStep)
        requires
            self.metadata.namespace is Some,
        ensures
            takes_task(*old(state), *final(state), r, *self, added),
    {
        match added {
            Ok(task_id) => {
                state.tasks.insert(self.trigger_hash_key(), task_id);
                ReconcileStep::UpdateStatus
            },
            Err(reason) => ReconcileStep::Done(Err(Error::SchedulerError(reason))),
        }
    }

    /// Goes on after the warning was published, or couldn't be.
    pub fn event_published(&self, published: Result<(), KubeError>) -> (r: ReconcileStep)
        ensures
            r == match published {
                Ok(_) => ReconcileStep::UpdateStatus,
                Err(e) => ReconcileStep::Done(Err(Error::KubeError(e))),
            },
    {
        match published {
            Ok(_) => ReconcileStep::UpdateStatus,
            Err(e) => ReconcileStep::Done(Err(Error::KubeError(e))),
        }
    }

    /// Patch that updates the trigger's status after it was reconciled: there is nothing new to record,
    /// so a trigger without a status becomes idle, and one that has a status keeps it. `current` is the
    /// trigger as the cluster has it now, or the reason why it can't be had.
    pub fn reconciled_status(&self, current: Result<&ScheduleTrigger, Error>) -> (r: Result<StatusPatch, Error>)
        ensures
            match current {
                Ok(t) => r matches Ok(patch) && is_reconciled_status(patch, *self, *t),
                Err(e) => r == Err::<StatusPatch, Error>(e),
            },
    {
        self.update_trigger_status(current, None, None, None)
    }

    /// Goes on after the trigger's status was updated, or couldn't be. From now on the trigger is
    /// known with its schedule.
    pub fn status_updated(&self, state: &mut TriggersState, updated: Result<(), Error>) -> (r: ReconcileStep)
        requires
            self.metadata.namespace is Some,
        ensures
            learns_schedule(*old(state), *final(state), r, *self, updated),
    {
        match updated {
            Ok(_) => {
                state.schedules.insert(self.trigger_hash_key(), self.spec.schedule.clone());
                ReconcileStep::Done(Ok(()))
            },
            Err(e) => ReconcileStep::Done(Err(e)),
        }
    }

    /// Cleans up after the trigger: it is forgotten, and a task that it had is canceled.
    pub fn cleanup(&self, state: &mut TriggersState) -> (r: ReconcileStep)
        requires
            self.metadata.namespace is Some,
        ensures
            cleans_up(*old(state), *final(state), r, *self),
    {
        let key = self.trigger_hash_key();
        let _ = state.schedules.remove(key.as_str());
        match state.tasks.remove(key.as_str()) {
            Some(task_id) => ReconcileStep::CancelTask(task_id, CancelOpts::Kill),
            None => ReconcileStep::Done(Ok(())),
        }
    }

    /// Name of the finalizer of schedule triggers.
    pub fn finalizer_name(&self) -> (r: Option<&'static str>)
        ensures
            r matches Some(name) && name@ == "scheduletriggers.git-events-runner.rs"@,
    {
        Some("scheduletriggers.git-events-runner.rs")
    }
}

/// Result of a reconciliation that went through a finalizer.
pub fn finalized(result: Result<(), String>) -> (r: Result<(), Error>)
    ensures
        r == match result {
            Ok(_) => Ok::<(), Error>(()),
            Err(reason) => Err(Error::FinalizerError(reason)),
        },
{
    match result {
        Ok(_) => Ok(()),
        Err(reason) => Err(Error::FinalizerError(reason)),
    }
}

/// Labels of the metrics of a resource's reconciliations.
pub fn reconcile_labels<K: CustomApiResource>(meta: &ObjectMeta) -> (r: Vec<String>)
    ensures
        views(r@) == seq![
            match meta.namespace {
                Some(namespace) => namespace@,
                None => Seq::<char>::empty(),
            },
            K::kind_name(),
            meta.any_name(),
        ],
{
    let namespace: String = match &meta.namespace {
        Some(namespace) => namespace.clone(),
        None => String::new(),
    };
    let mut r: Vec<String> = Vec::new();
    r.push(namespace);
    r.push(K::crd_kind().to_owned());
    r.push(meta.name_any());
    assert(views(r@) =~= seq![
        match meta.namespace {
            Some(namespace) => namespace@,
            None => Seq::<char>::empty(),
        },
        K::kind_name(),
        meta.any_name(),
    ]);
    r
}

/// Once a trigger was reconciled, it is known with its schedule: reconciling it again changes
/// nothing.
pub proof fn law_reconciled_trigger_is_known(
    before: TriggersState,
    known: TriggersState,
    step: ReconcileStep,
    trigger: ScheduleTrigger,
    after: TriggersState,
    next_step: ReconcileStep,
    now: Timestamp,
    folder: String,
)
    requires
        learns_schedule(before, known, step, trigger, Ok(())),
        starts_reconcile(known, after, next_step, trigger, now, folder),
    ensures
        schedule_known(known, trigger),
        next_step == ReconcileStep::Done(Ok(())),
        after.schedules == known.schedules,
        after.tasks == known.tasks,
{
}

/// A trigger that had no status before it was reconciled is idle, has never run, and has no checked
/// sources. One that had a status keeps its state and the time of its last run, and of its checked
/// sources those that it still has.
pub proof fn law_reconciled_trigger_is_idle(patch: StatusPatch, trigger: ScheduleTrigger, current: ScheduleTrigger)
    requires
        is_reconciled_status(patch, trigger, current),
    ensures
        match current.status {
            None => {
                &&& patch.status.state == TriggerState::Idle
                &&& opt_view(patch.status.last_run) == Some("Never"@)
                &&& patch.status.checked_sources@ == Map::<Seq<char>, CheckedSourceState>::empty()
            },
            Some(status) => {
                &&& patch.status.state == status.state
                &&& opt_view(patch.status.last_run) == opt_view(status.last_run)
                &&& patch.status.checked_sources@ == restricted(
                    status.checked_sources@,
                    current.spec.sources.names@,
                )
            },
        },
{
    if let Some(status) = current.status {
        assert(status.checked_sources@.union_prefer_right(Map::empty()) =~= status.checked_sources@);
    }
}

/// A trigger that was cleaned up is no longer known, and has no task.
pub proof fn law_cleaned_up_trigger_is_unknown(
    before: TriggersState,
    after: TriggersState,
    step: ReconcileStep,
    trigger: ScheduleTrigger,
)
    requires
        cleans_up(before, after, step, trigger),
    ensures
        !schedule_known(after, trigger),
        !after.tasks@.contains_key(hash_key(trigger.metadata)),
{
}

/// Cleaning up undoes a reconciliation: after a new trigger was reconciled and cleaned up, all tasks
/// and schedules are what they were before, and the task that it was given is canceled. Cleaning up
/// once more changes nothing. `task_id` is the task's identifier, where the schedule can be kept;
/// otherwise there is no task, and what is known doesn't change before the status is updated.
pub proof fn law_cleanup_undoes_reconcile(
    trigger: ScheduleTrigger,
    now: Timestamp,
    folder: String,
    task_id: Option<String>,
    before: TriggersState,
    started: TriggersState,
    start_step: ReconcileStep,
    scheduled: TriggersState,
    schedule_step: ReconcileStep,
    reconciled: TriggersState,
    reconcile_step: ReconcileStep,
    cleaned: TriggersState,
    clean_step: ReconcileStep,
    cleaned_again: TriggersState,
    clean_again_step: ReconcileStep,
)
    requires
        !before.schedules@.contains_key(hash_key(trigger.metadata)),
        !before.tasks@.contains_key(hash_key(trigger.metadata)),
        starts_reconcile(before, started, start_step, trigger, now, folder),
        start_step is AddTask == task_id is Some,
        match task_id {
            Some(id) => takes_task(started, scheduled, schedule_step, trigger, Ok(id)),
            None => scheduled == started,
        },
        learns_schedule(scheduled, reconciled, reconcile_step, trigger, Ok(())),
        cleans_up(reconciled, cleaned, clean_step, trigger),
        cleans_up(cleaned, cleaned_again, clean_again_step, trigger),
    ensures
        trigger.spec.schedule.valid() == task_id is Some,
        reconcile_step == ReconcileStep::Done(Ok(())),
        cleaned.schedules@ == before.schedules@,
        cleaned.tasks@ == before.tasks@,
        clean_step == match task_id {
            Some(id) => ReconcileStep::CancelTask(id, CancelOpts::Kill),
            None => ReconcileStep::Done(Ok(())),
        },
        cleaned_again.schedules@ == cleaned.schedules@,
        cleaned_again.tasks@ == cleaned.tasks@,
        clean_again_step == ReconcileStep::Done(Ok(())),
{
    assert(cleaned.schedules@ =~= before.schedules@);
    assert(cleaned.tasks@ =~= before.tasks@);
    assert(cleaned_again.schedules@ =~= cleaned.schedules@);
    assert(cleaned_again.tasks@ =~= cleaned.tasks@);
}

/// Reconciling or cleaning up a trigger leaves the tasks and schedules of all others as they were.
pub proof fn law_other_triggers_stay(
    before: TriggersState,
    after: TriggersState,
    key: Seq<char>,
    other: Seq<char>,
    task_id: String,
    schedule: TriggerSchedule,
)
    requires
        other != key,
        after.tasks@ == before.tasks@.remove(key) || after.tasks@ == before.tasks@.insert(key, task_id)
            || after.tasks == before.tasks,
        after.schedules@ == before.schedules@.remove(key) || after.schedules@ == before.schedules@.insert(
            key,
            schedule,
        ) || after.schedules == before.schedules,
    ensures
        after.tasks@.contains_key(other) == before.tasks@.contains_key(other),
        before.tasks@.contains_key(other) ==> after.tasks@[other] == before.tasks@[other],
        after.schedules@.contains_key(other) == before.schedules@.contains_key(other),
        before.schedules@.contains_key(other) ==> after.schedules@[other] == before.schedules@[other],
{
}

} // verus!
