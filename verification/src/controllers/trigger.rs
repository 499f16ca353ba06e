//! The single kind of trigger, which either follows a schedule or waits for requests.
use super::{ControllerError, ControllerType, TriggersState, WarningEvent};
use crate::controller::CancelOpts;
use crate::error::KubeError;
use crate::resources::interval::interval_length;
use crate::resources::trigger::{
    copy_sources, follows_interval, hash_key, CheckedSourceState, CronOpts, SecretRef, StatusPatch,
    TaskSchedule, TriggerAction, TriggerGitRepoReference, TriggerSchedule,
    TriggerSourceKind, TriggerState, TriggerStatus,
};
use crate::resources::{ObjectMeta, API_GROUP, CURRENT_API_VERSION};
use crate::string_map::StringMap;
use crate::text::{copy_opt, copy_strings, opt_view, same_opt, views};
use crate::time::{parse_rfc3339, rfc3339, rfc3339_time, to_rfc3339, Timestamp};
use vstd::prelude::*;

verus! {

/// Trigger.
#[derive(Debug)]
pub struct Trigger {
    /// Metadata.
    pub metadata: ObjectMeta,
    /// What to run, and when.
    pub spec: TriggerSpec,
    /// What is known of past runs.
    pub status: Option<TriggerStatus>,
}

/// What a trigger runs, and when.
#[derive(Debug)]
pub struct TriggerSpec {
    /// Sources to check.
    pub sources: TriggerSources,
    /// When to check them.
    pub trigger: TriggerType,
    /// What to run.
    pub action: TriggerAction,
}

/// When a trigger checks its sources.
#[derive(Debug)]
pub enum TriggerType {
    /// On a schedule.
    Schedule(TriggerSchedule),
    /// On request.
    Webhook(TriggerWebhook),
}

/// Sources of a trigger.
#[derive(Debug)]
pub struct TriggerSources {
    /// Kind of all the sources.
    pub kind: TriggerSourceKind,
    /// Names of the sources.
    pub names: Vec<String>,
    /// What to look at in each of them.
    pub watch_on: TriggerWatchOn,
}

/// What to look at in a source.
#[derive(Debug)]
pub struct TriggerWatchOn {
    /// Whether the action runs only when the source has changed, or on every check.
    pub on_change_only: bool,
    /// Reference to check.
    pub reference: TriggerGitRepoReference,
    /// File to check.
    pub file_: Option<String>,
}

impl Default for TriggerWatchOn {
    fn default() -> (r: Self)
        ensures
            r.on_change_only,
            r.reference matches TriggerGitRepoReference::Branch(name) && name@ == "main"@,
            r.file_ is None,
    {
        TriggerWatchOn {
            on_change_only: true,
            reference: TriggerGitRepoReference::default(),
            file_: None,
        }
    }
}

impl TriggerWatchOn {
    /// Name of the reference to check.
    pub fn reference_name(&self) -> (r: String)
        ensures
            r@ == self.reference.ref_name(),
    {
        let (_, name) = self.reference.to_refname(None);
        name.clone()
    }
}

/// Which requests a trigger accepts.
#[derive(Debug)]
pub struct TriggerWebhook {
    /// All sources may be checked by one request.
    pub multi_source: bool,
    /// What a request has to show.
    pub auth_config: Option<TriggerWebhookAuthConfig>,
}

/// What a request has to show.
#[derive(Debug)]
pub struct TriggerWebhookAuthConfig {
    /// Secret that holds the expected value.
    pub secret_ref: SecretRef,
    /// Key of the value in the secret.
    pub key: String,
}

impl TriggerType {
    /// A controller of the type works for such triggers.
    pub open spec fn processable(self, cntrl_type: ControllerType) -> bool {
        match self {
            TriggerType::Schedule(_) => cntrl_type == ControllerType::Leader,
            TriggerType::Webhook(_) => cntrl_type == ControllerType::Web,
        }
    }

    /// Tells whether a controller of the type works for such triggers.
    pub fn is_processable(&self, cntrl_type: ControllerType) -> (r: bool)
        ensures
            r == self.processable(cntrl_type),
    {
        match self {
            TriggerType::Schedule(_) => cntrl_type == ControllerType::Leader,
            TriggerType::Webhook(_) => cntrl_type == ControllerType::Web,
        }
    }

    /// Both are the same.
    pub open spec fn same(self, other: TriggerType) -> bool {
        match (self, other) {
            (TriggerType::Schedule(a), TriggerType::Schedule(b)) => a.same(b),
            (TriggerType::Webhook(a), TriggerType::Webhook(b)) => a.multi_source == b.multi_source && (
            match (a.auth_config, b.auth_config) {
                (Some(x), Some(y)) => x.secret_ref.name@ == y.secret_ref.name@ && x.key@ == y.key@,
                (None, None) => true,
                _ => false,
            }),
            _ => false,
        }
    }

    fn is_same(&self, other: &TriggerType) -> (r: bool)
        ensures
            r == self.same(*other),
    {
        match (self, other) {
            (TriggerType::Schedule(a), TriggerType::Schedule(b)) => a.is_same(b),
            (TriggerType::Webhook(a), TriggerType::Webhook(b)) => {
                let same_auth: bool = match (&a.auth_config, &b.auth_config) {
                    (Some(x), Some(y)) => x.secret_ref.name == y.secret_ref.name && x.key == y.key,
                    (None, None) => true,
                    _ => false,
                };
                a.multi_source == b.multi_source && same_auth
            },
            _ => false,
        }
    }

    fn copy(&self) -> (r: TriggerType)
        ensures
            r == *self,
    {
        match self {
            TriggerType::Schedule(schedule) => TriggerType::Schedule(schedule.clone()),
            TriggerType::Webhook(webhook) => TriggerType::Webhook(
                TriggerWebhook {
                    multi_source: webhook.multi_source,
                    auth_config: match &webhook.auth_config {
                        Some(auth) => Some(
                            TriggerWebhookAuthConfig {
                                secret_ref: SecretRef { name: auth.secret_ref.name.clone() },
                                key: auth.key.clone(),
                            },
                        ),
                        None => None,
                    },
                },
            ),
        }
    }
}

fn same_names(a: &Vec<String>, b: &Vec<String>) -> (r: bool)
    ensures
        r == (views(a@) == views(b@)),
{
    if a.len() != b.len() {
        assert(views(a@).len() != views(b@).len());
        return false;
    }
    for i in 0..a.len()
        invariant
            a.len() == b.len(),
            forall|j: int| 0 <= j < i ==> (#[trigger] a@[j])@ == b@[j]@,
    {
        if a[i] != b[i] {
            assert(views(a@)[i as int] != views(b@)[i as int]);
            return false;
        }
    }
    assert(views(a@) =~= views(b@));
    true
}

impl TriggerSources {
    /// Both name the same sources and look at the same things in them.
    pub open spec fn same(self, other: TriggerSources) -> bool {
        &&& self.kind == other.kind
        &&& views(self.names@) == views(other.names@)
        &&& self.watch_on.on_change_only == other.watch_on.on_change_only
        &&& self.watch_on.reference.ref_type() == other.watch_on.reference.ref_type()
        &&& self.watch_on.reference.ref_name() == other.watch_on.reference.ref_name()
        &&& opt_view(self.watch_on.file_) == opt_view(other.watch_on.file_)
    }

    fn is_same(&self, other: &TriggerSources) -> (r: bool)
        ensures
            r == self.same(*other),
    {
        let (type1, name1) = self.watch_on.reference.to_refname(None);
        let (type2, name2) = other.watch_on.reference.to_refname(None);
        self.kind == other.kind && same_names(&self.names, &other.names) && self.watch_on.on_change_only
            == other.watch_on.on_change_only && type1 == type2 && *name1 == *name2 && same_opt(
            &self.watch_on.file_,
            &other.watch_on.file_,
        )
    }

    /// Copy of the sources.
    pub fn copy(&self) -> (r: TriggerSources)
        ensures
            r.kind == self.kind,
            r.names@ == self.names@,
            r.watch_on == self.watch_on,
    {
        TriggerSources {
            kind: self.kind,
            names: copy_strings(&self.names),
            watch_on: TriggerWatchOn {
                on_change_only: self.watch_on.on_change_only,
                reference: self.watch_on.reference.clone(),
                file_: copy_opt(&self.watch_on.file_),
            },
        }
    }
}

impl TriggerSpec {
    /// Both are the same.
    pub open spec fn same(self, other: TriggerSpec) -> bool {
        &&& self.sources.same(other.sources)
        &&& self.trigger.same(other.trigger)
        &&& self.action.kind == other.action.kind
        &&& self.action.name@ == other.action.name@
    }

    fn is_same(&self, other: &TriggerSpec) -> (r: bool)
        ensures
            r == self.same(*other),
    {
        self.sources.is_same(&other.sources) && self.trigger.is_same(&other.trigger) && self.action.kind
            == other.action.kind && self.action.name == other.action.name
    }

    fn copy(&self) -> (r: TriggerSpec)
        ensures
            r.same(*self),
    {
        TriggerSpec {
            sources: self.sources.copy(),
            trigger: self.trigger.copy(),
            action: TriggerAction { kind: self.action.kind, name: self.action.name.clone() },
        }
    }
}

/// What to do next for a trigger.
#[derive(Debug)]
pub enum TriggerStep {
    /// Set the trigger's status.
    UpdateStatus(TriggerStatus),
    /// Cancel a task.
    CancelTask(String, CancelOpts),
    /// Schedule a task of the trigger.
    AddTask(TaskSchedule),
    /// Publish a warning.
    Publish(WarningEvent),
    /// Nothing, until the trigger changes.
    Done(Result<(), ControllerError>),
}

/// The spec is the one that the trigger is known with.
pub open spec fn spec_known(state: TriggersState<TriggerSpec>, trigger: Trigger) -> bool {
    let key = hash_key(trigger.metadata);
    state.specs@.contains_key(key) && state.specs@[key].same(trigger.spec)
}

/// The step schedules the trigger, or tells that its schedule can't be kept, or does nothing because
/// it waits for requests.
pub open spec fn is_schedule_step(
    step: TriggerStep,
    trigger: Trigger,
    last_run: Option<Timestamp>,
    now: Timestamp,
) -> bool {
    match trigger.spec.trigger {
        TriggerType::Schedule(schedule) => if schedule.valid() {
            step matches TriggerStep::AddTask(task) && follows(task, schedule, last_run, now)
        } else {
            step matches TriggerStep::Publish(event) && event.reason@ == "ValidateTrigger"@
                && event.note@ == "Unable to parse schedule expression, scheduler is disabled"@
                && event.action@ == "ValidateTriggerConfig"@
        },
        TriggerType::Webhook(_) => step == TriggerStep::Done(Ok(())),
    }
}

/// The schedule of the task is the one of the trigger.
pub open spec fn follows(
    task: TaskSchedule,
    schedule: TriggerSchedule,
    last_run: Option<Timestamp>,
    now: Timestamp,
) -> bool {
    match schedule {
        TriggerSchedule::Interval(text) => interval_length(text@) matches Some(length)
            && follows_interval(task, length, last_run, now),
        TriggerSchedule::Cron(text) => task == TaskSchedule::Cron(
            text,
            CronOpts { at_start: last_run is None, concurrent: false },
        ),
    }
}

/// The times of the last run and of the present can be used for the trigger's schedule.
pub open spec fn times_usable(trigger: Trigger, last_run: Option<Timestamp>, now: Timestamp) -> bool {
    &&& now.wf()
    &&& match trigger.spec.trigger {
        TriggerType::Schedule(schedule) => schedule.in_range() && (schedule is Interval && schedule.valid()
            ==> (last_run matches Some(time) ==> time.wf() && time@ <= now@)),
        TriggerType::Webhook(_) => true,
    }
}

/// The known spec of the trigger after it was reconciled.
pub open spec fn learns_spec(
    before: TriggersState<TriggerSpec>,
    after: TriggersState<TriggerSpec>,
    trigger: Trigger,
) -> bool {
    let key = hash_key(trigger.metadata);
    &&& after.specs@.contains_key(key)
    &&& after.specs@[key].same(trigger.spec)
    &&& after.specs@ == before.specs@.insert(key, after.specs@[key])
}

/// The step goes on with the trigger's spec: nothing where it is known, otherwise cancelling the task
/// that the trigger had, or scheduling it.
pub open spec fn is_spec_step(
    before: TriggersState<TriggerSpec>,
    after: TriggersState<TriggerSpec>,
    step: TriggerStep,
    trigger: Trigger,
    last_run: Option<Timestamp>,
    now: Timestamp,
) -> bool {
    let key = hash_key(trigger.metadata);
    if spec_known(before, trigger) {
        step == TriggerStep::Done(Ok(())) && after.tasks@ == before.tasks@ && after.specs@ == before.specs@
    } else {
        &&& after.tasks@ == before.tasks@.remove(key)
        &&& if before.tasks@.contains_key(key) {
            &&& step == TriggerStep::CancelTask(before.tasks@[key], CancelOpts::Ignore)
            &&& after.specs@ == before.specs@
        } else {
            &&& is_schedule_step(step, trigger, last_run, now)
            &&& if trigger.spec.trigger is Webhook {
                learns_spec(before, after, trigger)
            } else {
                after.specs@ == before.specs@
            }
        }
    }
}

/// The step forgets the trigger, and cancels a task that it had.
pub open spec fn is_forgotten(
    before: TriggersState<TriggerSpec>,
    after: TriggersState<TriggerSpec>,
    step: TriggerStep,
    key: Seq<char>,
) -> bool {
    &&& after.specs@ == before.specs@.remove(key)
    &&& after.statuses@ == if before.specs@.contains_key(key) {
        before.statuses@.remove(key)
    } else {
        before.statuses@
    }
    &&& after.tasks@ == before.tasks@.remove(key)
    &&& step == if before.tasks@.contains_key(key) {
        TriggerStep::CancelTask(before.tasks@[key], CancelOpts::Kill)
    } else {
        TriggerStep::Done(Ok(()))
    }
}

/// Status of a trigger after an update: what is given, what was known, or the default.
pub open spec fn is_updated_status(
    status: TriggerStatus,
    known: Option<TriggerStatus>,
    state: Option<TriggerState>,
    checked_sources: Option<StringMap<CheckedSourceState>>,
    last_run: Option<Timestamp>,
) -> bool {
    &&& status.state == match (state, known) {
        (Some(s), _) => s,
        (None, Some(k)) => k.state,
        (None, None) => TriggerState::Idle,
    }
    &&& opt_view(status.last_run) == match (last_run, known) {
        (Some(time), _) => Some(rfc3339(time.secs as int)),
        (None, Some(k)) => opt_view(k.last_run),
        (None, None) => None,
    }
    &&& last_run matches Some(time) ==> (time.in_four_digit_year() ==> (status.last_run matches Some(text)
        && rfc3339_time(text@) == Some(time.secs * 1_000_000_000)))
    &&& status.checked_sources@ == match (checked_sources, known) {
        (Some(checked), _) => checked@,
        (None, Some(k)) => k.checked_sources@,
        (None, None) => Map::empty(),
    }
}

/// What is known of a trigger's past runs.
pub open spec fn known_status(state: TriggersState<TriggerSpec>, key: Seq<char>) -> Option<TriggerStatus> {
    if state.statuses@.contains_key(key) {
        Some(state.statuses@[key])
    } else {
        None
    }
}

/// Both say the same of past runs.
pub open spec fn same_status(a: TriggerStatus, b: TriggerStatus) -> bool {
    a.state == b.state && a.last_run == b.last_run && a.checked_sources@ == b.checked_sources@
}

fn copy_status(status: &TriggerStatus) -> (r: TriggerStatus)
    ensures
        same_status(r, *status),
{
    TriggerStatus {
        state: status.state,
        last_run: copy_opt(&status.last_run),
        checked_sources: copy_sources(&status.checked_sources),
    }
}

/// The step starts to reconcile the trigger.
pub open spec fn is_reconcile_step(
    before: TriggersState<TriggerSpec>,
    after: TriggersState<TriggerSpec>,
    step: TriggerStep,
    trigger: Trigger,
    cntrl_type: ControllerType,
    last_run: Option<Timestamp>,
    now: Timestamp,
) -> bool {
    let key = hash_key(trigger.metadata);
    if !trigger.spec.trigger.processable(cntrl_type) {
        is_forgotten(before, after, step, key)
    } else if before.statuses@.contains_key(key) {
        &&& after.statuses@ == before.statuses@
        &&& is_spec_step(before, after, step, trigger, last_run, now)
    } else {
        match trigger.status {
            Some(status) => {
                &&& after.statuses@.contains_key(key)
                &&& same_status(after.statuses@[key], status)
                &&& after.statuses@ == before.statuses@.insert(key, after.statuses@[key])
                &&& is_spec_step(before, after, step, trigger, last_run, now)
            },
            None => {
                &&& after == before
                &&& step matches TriggerStep::UpdateStatus(status) && is_updated_status(
                    status,
                    None,
                    None,
                    None,
                    None,
                )
            },
        }
    }
}

/// The schedule depends on when the trigger has last run.
pub open spec fn needs_last_run(state: TriggersState<TriggerSpec>, trigger: Trigger, cntrl_type: ControllerType) -> bool {
    trigger.spec.trigger is Schedule && cntrl_type == ControllerType::Leader && !spec_known(state, trigger)
}

/// Time of the last run as the trigger's status has it.
pub open spec fn written_last_run(trigger: Trigger) -> Option<Seq<char>> {
    match trigger.status {
        Some(status) => opt_view(status.last_run),
        None => None,
    }
}

/// The time of the last run can't be used: it can't be read, or an interval can't be counted from it
/// because it lies in the future.
pub open spec fn last_run_unusable(trigger: Trigger, now: Timestamp) -> bool {
    written_last_run(trigger) matches Some(text) && (match rfc3339_time(text) {
        Some(time) => time > now@ && trigger.spec.trigger->Schedule_0 is Interval
            && trigger.spec.trigger->Schedule_0.valid(),
        None => true,
    })
}

/// The time is the one that the trigger's status has.
pub open spec fn is_last_run(trigger: Trigger, last_run: Option<Timestamp>) -> bool {
    match written_last_run(trigger) {
        Some(text) => last_run matches Some(time) && rfc3339_time(text) == Some(time@),
        None => last_run is None,
    }
}

impl Trigger {
    /// Key of the trigger in maps: its namespace and its name.
    pub fn trigger_hash_key(&self) -> (r: String)
        requires
            self.metadata.namespace is Some,
        ensures
            r@ == hash_key(self.metadata),
    {
        match &self.metadata.namespace {
            Some(namespace) => namespace.clone().concat("/").concat(self.metadata.name_any().as_str()),
            None => self.metadata.name_any(),
        }
    }

    /// Time of the trigger's last run, if it has run. A time that can't be read is an error.
    pub fn last_run_time(&self) -> (r: Result<Option<Timestamp>, String>)
        ensures
            match self.status {
                Some(status) => match status.last_run {
                    Some(text) => match rfc3339_time(text@) {
                        Some(time) => r matches Ok(Some(t)) && t.wf() && t@ == time,
                        None => r == Err::<Option<Timestamp>, String>(text),
                    },
                    None => r == Ok::<Option<Timestamp>, String>(None),
                },
                None => r == Ok::<Option<Timestamp>, String>(None),
            },
    {
        match &self.status {
            Some(status) => match &status.last_run {
                Some(text) => match parse_rfc3339(text.as_str()) {
                    Some(time) => Ok(Some(time)),
                    None => Err(text.clone()),
                },
                None => Ok(None),
            },
            None => Ok(None),
        }
    }

    /// Schedule of the trigger's task at the time `now`. There is none where the trigger's schedule
    /// can't be kept. A trigger that waits for requests runs once.
    pub fn get_task_schedule(&self, last_run: Option<Timestamp>, now: Timestamp) -> (r: Option<TaskSchedule>)
        requires
            times_usable(*self, last_run, now),
        ensures
            match self.spec.trigger {
                TriggerType::Schedule(schedule) => r is Some == schedule.valid() && (r matches Some(task)
                    ==> follows(task, schedule, last_run, now)),
                TriggerType::Webhook(_) => r == Some(TaskSchedule::Once),
            },
    {
        match &self.spec.trigger {
            TriggerType::Schedule(schedule) => schedule.task_schedule(last_run, now),
            TriggerType::Webhook(_) => Some(TaskSchedule::Once),
        }
    }

    /// New status of the trigger. Parts for which there is no argument stay as they were.
    pub fn update_trigger_status(
        &self,
        known: &TriggersState<TriggerSpec>,
        state: Option<TriggerState>,
        checked_sources: Option<StringMap<CheckedSourceState>>,
        last_run: Option<Timestamp>,
    ) -> (r: TriggerStatus)
        requires
            self.metadata.namespace is Some,
            last_run matches Some(time) ==> time.wf() && time.in_calendar(),
        ensures
            is_updated_status(
                r,
                known_status(*known, hash_key(self.metadata)),
                state,
                checked_sources,
                last_run,
            ),
    {
        let key = self.trigger_hash_key();
        let last_run_text: Option<String> = match last_run {
            Some(time) => Some(to_rfc3339(time)),
            None => None,
        };
        match known.statuses.get(key.as_str()) {
            Some(status) => TriggerStatus {
                state: match state {
                    Some(s) => s,
                    None => status.state,
                },
                last_run: match last_run_text {
                    Some(text) => Some(text),
                    None => copy_opt(&status.last_run),
                },
                checked_sources: match checked_sources {
                    Some(checked) => checked,
                    None => copy_sources(&status.checked_sources),
                },
            },
            None => TriggerStatus {
                state: match state {
                    Some(s) => s,
                    None => TriggerState::default(),
                },
                last_run: last_run_text,
                checked_sources: match checked_sources {
                    Some(checked) => checked,
                    None => StringMap::new(),
                },
            },
        }
    }

    /// Patch that sets the trigger's status.
    pub fn status_patch(&self, status: TriggerStatus) -> (r: StatusPatch)
        ensures
            r.name@ == self.metadata.any_name(),
            r.api_version@ == "git-events-runner.rs"@ + "/"@ + "v1alpha1"@,
            r.kind@ == "Trigger"@,
            r.status == status,
    {
        StatusPatch {
            name: self.metadata.name_any(),
            api_version: API_GROUP.to_owned().concat("/").concat(CURRENT_API_VERSION),
            kind: "Trigger".to_owned(),
            status,
        }
    }

    /// Takes up that the trigger's status was set, or couldn't be.
    pub fn status_patched(
        &self,
        known: &mut TriggersState<TriggerSpec>,
        status: TriggerStatus,
        patched: Result<(), KubeError>,
    ) -> (r: Result<(), ControllerError>)
        requires
            self.metadata.namespace is Some,
        ensures
            final(known).tasks == old(known).tasks,
            final(known).specs == old(known).specs,
            match patched {
                Ok(_) => r is Ok && final(known).statuses@ == old(known).statuses@.insert(
                    hash_key(self.metadata),
                    status,
                ),
                Err(e) => r == Err::<(), ControllerError>(ControllerError::KubeError(e))
                    && final(known).statuses == old(known).statuses,
            },
    {
        match patched {
            Ok(_) => {
                known.statuses.insert(self.trigger_hash_key(), status);
                Ok(())
            },
            Err(e) => Err(ControllerError::KubeError(e)),
        }
    }

    /// Starts to reconcile the trigger. A controller that doesn't work for it forgets it. Otherwise a
    /// trigger without a known status gets one first.
    pub fn reconcile(
        &self,
        state: &mut TriggersState<TriggerSpec>,
        cntrl_type: ControllerType,
        last_run: Option<Timestamp>,
        now: Timestamp,
    ) -> (r: TriggerStep)
        requires
            self.metadata.namespace is Some,
            self.spec.trigger.processable(cntrl_type) && !spec_known(*old(state), *self) ==> times_usable(
                *self,
                last_run,
                now,
            ),
        ensures
            is_reconcile_step(*old(state), *final(state), r, *self, cntrl_type, last_run, now),
    {
        if !self.spec.trigger.is_processable(cntrl_type) {
            return self.forget(state);
        }
        let key = self.trigger_hash_key();
        if !state.statuses.contains_key(key.as_str()) {
            match &self.status {
                Some(status) => {
                    state.statuses.insert(key, copy_status(status));
                },
                None => {
                    return TriggerStep::UpdateStatus(
                        self.update_trigger_status(state, None, None, None),
                    );
                },
            }
        }
        self.reconcile_spec(state, last_run, now)
    }

    /// Starts to reconcile the trigger, with the time of its last run as its status has it. Nothing is
    /// done where that is needed and can't be used.
    pub fn reconcile_now(
        &self,
        state: &mut TriggersState<TriggerSpec>,
        cntrl_type: ControllerType,
        now: Timestamp,
    ) -> (r: Option<TriggerStep>)
        requires
            self.metadata.namespace is Some,
            now.wf(),
            needs_last_run(*old(state), *self, cntrl_type) ==> self.spec.trigger->Schedule_0.in_range(),
        ensures
            match r {
                Some(step) => {
                    &&& needs_last_run(*old(state), *self, cntrl_type) ==> !last_run_unusable(*self, now)
                    &&& exists|last_run: Option<Timestamp>| #[trigger]
                        is_reconcile_step(
                            *old(state),
                            *final(state),
                            step,
                            *self,
                            cntrl_type,
                            last_run,
                            now,
                        ) && (needs_last_run(*old(state), *self, cntrl_type) ==> is_last_run(
                            *self,
                            last_run,
                        ))
                },
                None => needs_last_run(*old(state), *self, cntrl_type) && last_run_unusable(*self, now)
                    && *final(state) == *old(state),
            },
    {
        let mut last_run: Option<Timestamp> = None;
        if let TriggerType::Schedule(schedule) = &self.spec.trigger {
            if cntrl_type == ControllerType::Leader && !self.is_known(state) {
                match self.last_run_time() {
                    Ok(Some(time)) => {
                        let future: bool = match schedule {
                            TriggerSchedule::Interval(_) => now.is_before(time),
                            TriggerSchedule::Cron(_) => false,
                        };
                        if future && schedule.is_valid() {
                            return None;
                        }
                        last_run = Some(time);
                    },
                    Ok(None) => {},
                    Err(_) => {
                        return None;
                    },
                }
            }
        }
        Some(self.reconcile(state, cntrl_type, last_run, now))
    }

    fn is_known(&self, state: &TriggersState<TriggerSpec>) -> (r: bool)
        requires
            self.metadata.namespace is Some,
        ensures
            r == spec_known(*state, *self),
    {
        match state.specs.get(self.trigger_hash_key().as_str()) {
            Some(spec_) => spec_.is_same(&self.spec),
            None => false,
        }
    }

    /// Goes on to reconcile the trigger's spec once it has a status. A change cancels the task that
    /// the trigger had.
    pub fn reconcile_spec(&self, state: &mut TriggersState<TriggerSpec>, last_run: Option<Timestamp>, now: Timestamp) -> (r:
        TriggerStep)
        requires
            self.metadata.namespace is Some,
            !spec_known(*old(state), *self) ==> times_usable(*self, last_run, now),
        ensures
            final(state).statuses == old(state).statuses,
            is_spec_step(*old(state), *final(state), r, *self, last_run, now),
    {
        if self.is_known(state) {
            return TriggerStep::Done(Ok(()));
        }
        let key = self.trigger_hash_key();
        match state.tasks.remove(key.as_str()) {
            Some(task_id) => TriggerStep::CancelTask(task_id, CancelOpts::Ignore),
            None => self.schedule(state, last_run, now),
        }
    }

    /// Goes on after the task that the trigger had was canceled, or couldn't be.
    pub fn schedule(&self, state: &mut TriggersState<TriggerSpec>, last_run: Option<Timestamp>, now: Timestamp) -> (r:
        TriggerStep)
        requires
            self.metadata.namespace is Some,
            times_usable(*self, last_run, now),
        ensures
            final(state).statuses == old(state).statuses,
            final(state).tasks == old(state).tasks,
            is_schedule_step(r, *self, last_run, now),
            if self.spec.trigger is Webhook {
                learns_spec(*old(state), *final(state), *self)
            } else {
                final(state).specs == old(state).specs
            },
    {
        match &self.spec.trigger {
            TriggerType::Schedule(schedule) => match schedule.task_schedule(last_run, now) {
                Some(task) => TriggerStep::AddTask(task),
                None => TriggerStep::Publish(
                    WarningEvent {
                        reason: "ValidateTrigger".to_owned(),
                        note: "Unable to parse schedule expression, scheduler is disabled".to_owned(),
                        action: "ValidateTriggerConfig".to_owned(),
                    },
                ),
            },
            TriggerType::Webhook(_) => {
                self.learn(state);
                TriggerStep::Done(Ok(()))
            },
        }
    }

    fn learn(&self, state: &mut TriggersState<TriggerSpec>)
        requires
            self.metadata.namespace is Some,
        ensures
            final(state).statuses == old(state).statuses,
            final(state).tasks == old(state).tasks,
            learns_spec(*old(state), *final(state), *self),
    {
        state.specs.insert(self.trigger_hash_key(), self.spec.copy());
    }

    /// Goes on after the task was scheduled under an identifier.
    pub fn task_added(&self, state: &mut TriggersState<TriggerSpec>, task_id: String) -> (r: TriggerStep)
        requires
            self.metadata.namespace is Some,
        ensures
            r == TriggerStep::Done(Ok(())),
            final(state).statuses == old(state).statuses,
            final(state).tasks@ == old(state).tasks@.insert(hash_key(self.metadata), task_id),
            learns_spec(*old(state), *final(state), *self),
    {
        state.tasks.insert(self.trigger_hash_key(), task_id);
        self.learn(state);
        TriggerStep::Done(Ok(()))
    }

    /// Goes on after the warning was published, or couldn't be.
    pub fn event_published(&self, state: &mut TriggersState<TriggerSpec>, published: Result<(), KubeError>) -> (r:
        TriggerStep)
        requires
            self.metadata.namespace is Some,
        ensures
            final(state).statuses == old(state).statuses,
            final(state).tasks == old(state).tasks,
            match published {
                Ok(_) => r == TriggerStep::Done(Ok(())) && learns_spec(*old(state), *final(state), *self),
                Err(e) => r == TriggerStep::Done(Err(ControllerError::KubeError(e)))
                    && final(state).specs == old(state).specs,
            },
    {
        match published {
            Ok(_) => {
                self.learn(state);
                TriggerStep::Done(Ok(()))
            },
            Err(e) => TriggerStep::Done(Err(ControllerError::KubeError(e))),
        }
    }

    fn forget(&self, state: &mut TriggersState<TriggerSpec>) -> (r: TriggerStep)
        requires
            self.metadata.namespace is Some,
        ensures
            is_forgotten(*old(state), *final(state), r, hash_key(self.metadata)),
    {
        let key = self.trigger_hash_key();
        if state.specs.contains_key(key.as_str()) {
            let _ = state.specs.remove(key.as_str());
            let _ = state.statuses.remove(key.as_str());
        } else {
            assert(state.specs@.remove(key@) =~= state.specs@);
        }
        match state.tasks.remove(key.as_str()) {
            Some(task_id) => TriggerStep::CancelTask(task_id, CancelOpts::Kill),
            None => TriggerStep::Done(Ok(())),
        }
    }

    /// Cleans up after the trigger, if the controller works for it.
    pub fn cleanup(&self, state: &mut TriggersState<TriggerSpec>, cntrl_type: ControllerType) -> (r: TriggerStep)
        requires
            self.metadata.namespace is Some,
        ensures
            if self.spec.trigger.processable(cntrl_type) {
                is_forgotten(*old(state), *final(state), r, hash_key(self.metadata))
            } else {
                *final(state) == *old(state) && r == TriggerStep::Done(Ok(()))
            },
    {
        if self.spec.trigger.is_processable(cntrl_type) {
            self.forget(state)
        } else {
            TriggerStep::Done(Ok(()))
        }
    }
}

/// Exactly one type of controller works for a trigger.
pub proof fn law_one_controller_per_trigger(trigger: TriggerType)
    ensures
        trigger.processable(ControllerType::Leader) != trigger.processable(ControllerType::Web),
{
}

/// Once a trigger was reconciled, it is known with its spec: reconciling it again changes nothing.
pub proof fn law_reconciled_trigger_is_known(
    before: TriggersState<TriggerSpec>,
    after: TriggersState<TriggerSpec>,
    trigger: Trigger,
)
    requires
        learns_spec(before, after, trigger),
    ensures
        spec_known(after, trigger),
{
}

/// A trigger that was forgotten has no task, and isn't known any more.
pub proof fn law_forgotten_trigger_is_unknown(
    before: TriggersState<TriggerSpec>,
    after: TriggersState<TriggerSpec>,
    step: TriggerStep,
    trigger: Trigger,
)
    requires
        is_forgotten(before, after, step, hash_key(trigger.metadata)),
    ensures
        !spec_known(after, trigger),
        !after.tasks@.contains_key(hash_key(trigger.metadata)),
        before.specs@.contains_key(hash_key(trigger.metadata)) ==> !after.statuses@.contains_key(
            hash_key(trigger.metadata),
        ),
{
}

/// The time of a run that was recorded in a trigger's status is read back from it, to the second.
pub proof fn law_recorded_run_is_read_back(
    trigger: Trigger,
    status: TriggerStatus,
    known: Option<TriggerStatus>,
    state: Option<TriggerState>,
    checked_sources: Option<StringMap<CheckedSourceState>>,
    time: Timestamp,
    read: Timestamp,
)
    requires
        time.in_four_digit_year(),
        is_updated_status(status, known, state, checked_sources, Some(time)),
        trigger.status == Some(status),
        is_last_run(trigger, Some(read)),
    ensures
        read@ == time.secs * 1_000_000_000,
{
}

} // verus!
