//! Triggers: what starts actions.
use super::interval::{interval_in_range, interval_length, parse_interval};
use super::{CustomApiResource, ObjectMeta, API_GROUP, CURRENT_API_VERSION};
use crate::error::Error;
use crate::string_map::{restricted, StringMap};
use crate::text::{copy_opt, copy_strings, has_string, opt_view, same_opt};
use crate::time::{rfc3339, to_rfc3339, Duration, Timestamp};
use vstd::prelude::*;

verus! {

/// Time of the last run of a trigger that hasn't run yet.
pub const NEVER_LAST_RUN_STR: &'static str = "Never";

/// Trigger that runs on a schedule.
#[derive(Debug)]
pub struct ScheduleTrigger {
    /// Metadata.
    pub metadata: ObjectMeta,
    /// What to run, and when.
    pub spec: ScheduleTriggerSpec,
    /// What is known of past runs.
    pub status: Option<TriggerStatus>,
}

/// What a schedule trigger runs, and when.
#[derive(Debug)]
pub struct ScheduleTriggerSpec {
    /// Sources to check.
    pub sources: TriggerSources,
    /// When to check them.
    pub schedule: TriggerSchedule,
    /// What to run.
    pub action: TriggerAction,
}

/// Trigger that runs on request.
#[derive(Debug)]
pub struct WebhookTrigger {
    /// Metadata.
    pub metadata: ObjectMeta,
    /// What to run, and for whom.
    pub spec: WebhookTriggerSpec,
    /// What is known of past runs.
    pub status: Option<TriggerStatus>,
}

/// What a webhook trigger runs, and for whom.
#[derive(Debug)]
pub struct WebhookTriggerSpec {
    /// Sources to check.
    pub sources: TriggerSources,
    /// Which requests are accepted.
    pub webhook: TriggerWebhook,
    /// What to run.
    pub action: TriggerAction,
}

/// What is known of past runs of a trigger.
#[derive(Debug)]
pub struct TriggerStatus {
    /// What the trigger is doing.
    pub state: TriggerState,
    /// Time of the last run.
    pub last_run: Option<String>,
    /// What was found in each source.
    pub checked_sources: StringMap<CheckedSourceState>,
}

/// What was found in a source.
#[derive(Debug)]
pub struct CheckedSourceState {
    /// Last verified commit.
    pub commit_hash: Option<String>,
    /// Last verified hash of the files, where files are watched.
    pub file_hash: Option<String>,
    /// Time of the last change of the content.
    pub changed: Option<String>,
}

impl Clone for CheckedSourceState {
    fn clone(&self) -> (r: Self)
        ensures
            r == *self,
    {
        CheckedSourceState {
            commit_hash: copy_opt(&self.commit_hash),
            file_hash: copy_opt(&self.file_hash),
            changed: copy_opt(&self.changed),
        }
    }
}

impl CheckedSourceState {
    /// Nothing is known of the source.
    pub fn unknown() -> (r: CheckedSourceState)
        ensures
            r.commit_hash is None,
            r.file_hash is None,
            r.changed is None,
    {
        CheckedSourceState { commit_hash: None, file_hash: None, changed: None }
    }

    /// The source has the content that it had: the same files where files are watched, the same
    /// commit otherwise. A source that wasn't known before has no content.
    pub open spec fn same_content(self, other: Option<CheckedSourceState>, with_file: bool) -> bool {
        match other {
            Some(o) => if with_file {
                opt_view(self.file_hash) == opt_view(o.file_hash)
            } else {
                opt_view(self.commit_hash) == opt_view(o.commit_hash)
            },
            None => self.commit_hash is None && self.file_hash is None,
        }
    }

    /// Tells whether the source has the content that it had.
    pub fn is_equal(&self, other: Option<&CheckedSourceState>, with_file: bool) -> (r: bool)
        ensures
            r == self.same_content(
                match other {
                    Some(o) => Some(*o),
                    None => None,
                },
                with_file,
            ),
    {
        match other {
            Some(o) => if !with_file {
                same_opt(&self.commit_hash, &o.commit_hash)
            } else {
                same_opt(&self.file_hash, &o.file_hash)
            },
            None => self.commit_hash.is_none() && self.file_hash.is_none(),
        }
    }
}

/// What a trigger is doing.
#[derive(Clone, Copy, Debug, PartialEq, Eq, Structural)]
pub enum TriggerState {
    /// Waiting for the next run.
    Idle,
    /// Running.
    Running,
    /// Its config is wrong.
    WrongConfig,
}

impl Default for TriggerState {
    fn default() -> (r: Self)
        ensures
            r == TriggerState::Idle,
    {
        TriggerState::Idle
    }
}

/// Sources of a trigger.
#[derive(Debug)]
pub struct TriggerSources {
    /// Kind of all the sources.
    pub kind: TriggerSourceKind,
    /// Names of the sources.
    pub names: Vec<String>,
    /// What to look at in each of them.
    pub watch_on: TriggerWatchOn,
}

impl Default for TriggerSources {
    fn default() -> (r: Self)
        ensures
            r.kind == TriggerSourceKind::GitRepo,
            r.names@.len() == 0,
            r.watch_on.on_change_only,
            r.watch_on.reference matches TriggerGitRepoReference::Branch(name) && name@ == "main"@,
            r.watch_on.files is None,
    {
        TriggerSources {
            kind: TriggerSourceKind::default(),
            names: Vec::new(),
            watch_on: TriggerWatchOn::default(),
        }
    }
}

impl TriggerSources {
    /// Both name the same sources and look at the same things in them.
    pub open spec fn same(self, other: TriggerSources) -> bool {
        &&& self.kind == other.kind
        &&& self.names@ == other.names@
        &&& self.watch_on.on_change_only == other.watch_on.on_change_only
        &&& self.watch_on.reference == other.watch_on.reference
        &&& match (self.watch_on.files, other.watch_on.files) {
            (Some(a), Some(b)) => a@ == b@,
            (None, None) => true,
            _ => false,
        }
    }

    /// Copy of the sources.
    pub fn copy(&self) -> (r: TriggerSources)
        ensures
            r.same(*self),
    {
        TriggerSources {
            kind: self.kind,
            names: copy_strings(&self.names),
            watch_on: TriggerWatchOn {
                on_change_only: self.watch_on.on_change_only,
                reference: self.watch_on.reference.clone(),
                files: match &self.watch_on.files {
                    Some(files) => Some(copy_strings(files)),
                    None => None,
                },
            },
        }
    }
}

/// Kind of a source.
#[derive(Clone, Copy, Debug, PartialEq, Eq, Structural)]
pub enum TriggerSourceKind {
    /// Repository of a namespace.
    GitRepo,
    /// Repository of the whole cluster.
    ClusterGitRepo,
}

impl Default for TriggerSourceKind {
    fn default() -> (r: Self)
        ensures
            r == TriggerSourceKind::GitRepo,
    {
        TriggerSourceKind::GitRepo
    }
}

impl TriggerSourceKind {
    /// Name of the kind.
    pub open spec fn name(self) -> Seq<char> {
        match self {
            TriggerSourceKind::GitRepo => "GitRepo"@,
            TriggerSourceKind::ClusterGitRepo => "ClusterGitRepo"@,
        }
    }

    /// Names the kind.
    pub fn to_string(&self) -> (r: String)
        ensures
            r@ == self.name(),
    {
        match self {
            TriggerSourceKind::GitRepo => "GitRepo".to_owned(),
            TriggerSourceKind::ClusterGitRepo => "ClusterGitRepo".to_owned(),
        }
    }
}

/// What to look at in a source.
#[derive(Debug)]
pub struct TriggerWatchOn {
    /// Whether the action runs only when the source has changed, or on every check.
    pub on_change_only: bool,
    /// Reference to check.
    pub reference: TriggerGitRepoReference,
    /// Patterns of the files to check, in the form of `gitignore`.
    pub files: Option<Vec<String>>,
}

impl Default for TriggerWatchOn {
    fn default() -> (r: Self)
        ensures
            r.on_change_only,
            r.reference matches TriggerGitRepoReference::Branch(name) && name@ == "main"@,
            r.files is None,
    {
        TriggerWatchOn {
            on_change_only: true,
            reference: TriggerGitRepoReference::default(),
            files: None,
        }
    }
}

impl TriggerWatchOn {
    /// Name of the reference to check.
    pub fn reference_name(&self) -> (r: String)
        ensures
            r@ == self.reference.ref_name(),
    {
        match &self.reference {
            TriggerGitRepoReference::Branch(name) => name.clone(),
            TriggerGitRepoReference::Tag(name) => name.clone(),
            TriggerGitRepoReference::Commit(name) => name.clone(),
        }
    }
}

/// Reference to a state of a repository.
#[derive(Debug)]
pub enum TriggerGitRepoReference {
    /// Branch.
    Branch(String),
    /// Tag.
    Tag(String),
    /// Hash of a commit.
    Commit(String),
}

impl Default for TriggerGitRepoReference {
    fn default() -> (r: Self)
        ensures
            r matches TriggerGitRepoReference::Branch(name) && name@ == "main"@,
    {
        TriggerGitRepoReference::Branch("main".to_owned())
    }
}

impl Clone for TriggerGitRepoReference {
    fn clone(&self) -> (r: Self)
        ensures
            r == *self,
    {
        match self {
            TriggerGitRepoReference::Branch(name) => TriggerGitRepoReference::Branch(name.clone()),
            TriggerGitRepoReference::Tag(name) => TriggerGitRepoReference::Tag(name.clone()),
            TriggerGitRepoReference::Commit(name) => TriggerGitRepoReference::Commit(name.clone()),
        }
    }
}

impl TriggerGitRepoReference {
    /// Name of the reference's type.
    pub open spec fn ref_type(self) -> Seq<char> {
        match self {
            TriggerGitRepoReference::Branch(_) => "branch"@,
            TriggerGitRepoReference::Tag(_) => "tag"@,
            TriggerGitRepoReference::Commit(_) => "commit"@,
        }
    }

    /// Name of the reference.
    pub open spec fn ref_name(self) -> Seq<char> {
        match self {
            TriggerGitRepoReference::Branch(name) => name@,
            TriggerGitRepoReference::Tag(name) => name@,
            TriggerGitRepoReference::Commit(name) => name@,
        }
    }

    /// Type of the reference, behind a prefix if one is given, and its name.
    pub fn to_refname(&self, prefix: Option<&str>) -> (r: (String, &String))
        ensures
            r.0@ == match prefix {
                Some(p) => p@ + self.ref_type(),
                None => self.ref_type(),
            },
            r.1@ == self.ref_name(),
    {
        let start: String = match prefix {
            Some(p) => p.to_owned(),
            None => String::new(),
        };
        assert(Seq::<char>::empty() + self.ref_type() == self.ref_type());
        match self {
            TriggerGitRepoReference::Branch(branch) => (start.concat("branch"), branch),
            TriggerGitRepoReference::Tag(tag) => (start.concat("tag"), tag),
            TriggerGitRepoReference::Commit(commit) => (start.concat("commit"), commit),
        }
    }

    /// Type and name of the reference, with a slash between.
    pub fn to_string(&self) -> (r: String)
        ensures
            r@ == self.ref_type() + "/"@ + self.ref_name(),
    {
        let (ref_type, ref_name) = self.to_refname(None);
        ref_type.concat("/").concat(ref_name.as_str())
    }
}

/// When a trigger runs.
#[derive(Debug)]
pub enum TriggerSchedule {
    /// Every so often.
    Interval(String),
    /// By a cron expression.
    Cron(String),
}

/// The text is a cron expression that the scheduler accepts.
pub uninterp spec fn cron_accepts(text: Seq<char>) -> bool;

/// Reads a cron expression with `sacs`'s `CronSchedule::try_from`. Whether it succeeds depends on
/// the text alone.
#[verifier::external_body]
fn is_cron(text: &str) -> (r: bool)
    ensures
        r == cron_accepts(text@),
{
    sacs::task::CronSchedule::try_from(text).is_ok()
}

impl Clone for TriggerSchedule {
    fn clone(&self) -> (r: Self)
        ensures
            r == *self,
    {
        match self {
            TriggerSchedule::Interval(text) => TriggerSchedule::Interval(text.clone()),
            TriggerSchedule::Cron(text) => TriggerSchedule::Cron(text.clone()),
        }
    }
}

impl TriggerSchedule {
    /// The text of the schedule is small enough to be read.
    pub open spec fn in_range(self) -> bool {
        match self {
            TriggerSchedule::Interval(text) => interval_in_range(text@),
            TriggerSchedule::Cron(_) => true,
        }
    }

    /// Both are the same kind of schedule with the same text.
    pub open spec fn same(self, other: TriggerSchedule) -> bool {
        match (self, other) {
            (TriggerSchedule::Interval(a), TriggerSchedule::Interval(b)) => a@ == b@,
            (TriggerSchedule::Cron(a), TriggerSchedule::Cron(b)) => a@ == b@,
            _ => false,
        }
    }

    /// Tells whether both are the same schedule.
    pub fn is_same(&self, other: &TriggerSchedule) -> (r: bool)
        ensures
            r == self.same(*other),
    {
        match (self, other) {
            (TriggerSchedule::Interval(a), TriggerSchedule::Interval(b)) => *a == *b,
            (TriggerSchedule::Cron(a), TriggerSchedule::Cron(b)) => *a == *b,
            _ => false,
        }
    }

    /// The schedule can be kept: its interval has a length, or its cron expression is accepted.
    pub open spec fn valid(self) -> bool {
        match self {
            TriggerSchedule::Interval(text) => interval_length(text@) is Some,
            TriggerSchedule::Cron(text) => cron_accepts(text@),
        }
    }

    /// Tells whether the schedule can be kept.
    pub fn is_valid(&self) -> (r: bool)
        requires
            self.in_range(),
        ensures
            r == self.valid(),
    {
        match self {
            TriggerSchedule::Interval(interval) => parse_interval(interval.as_str()).is_some(),
            TriggerSchedule::Cron(cron) => is_cron(cron.as_str()),
        }
    }
}

/// When a scheduler runs a task.
#[derive(Debug)]
pub enum TaskSchedule {
    /// At once, a single time.
    Once,
    /// At once, and after each run an interval later.
    Interval(Duration),
    /// After a delay, and after each run an interval later.
    IntervalDelayed(Duration, Duration),
    /// By a cron expression.
    Cron(String, CronOpts),
}

/// How a scheduler follows a cron expression.
#[derive(Clone, Copy, Debug, PartialEq, Eq, Structural)]
pub struct CronOpts {
    /// Whether the task also runs at once.
    pub at_start: bool,
    /// Whether a run may start before the one before it has ended.
    pub concurrent: bool,
}

/// Schedule of a task that runs every `interval`. If it has run before, it waits for what is left
/// of the interval since then; otherwise it starts at once.
pub fn interval_schedule(interval: Duration, last_run: Option<Timestamp>, now: Timestamp) -> (r: TaskSchedule)
    requires
        interval.wf(),
        now.wf(),
        last_run matches Some(t) ==> t.wf() && t@ <= now@,
    ensures
        match last_run {
            Some(t) => r matches TaskSchedule::IntervalDelayed(every, delay) && every == interval
                && delay.wf() && delay@ == if interval@ >= now@ - t@ {
                interval@ - (now@ - t@)
            } else {
                0
            },
            None => r == TaskSchedule::Interval(interval),
        },
{
    match last_run {
        Some(t) => TaskSchedule::IntervalDelayed(interval, interval.saturating_sub(now.since(t))),
        None => TaskSchedule::Interval(interval),
    }
}

/// Schedule of a task that follows a cron expression. If it hasn't run before, it also runs at once.
/// Runs don't overlap.
pub fn cron_schedule(cron: &String, last_run: Option<Timestamp>) -> (r: TaskSchedule)
    ensures
        r == TaskSchedule::Cron(*cron, CronOpts { at_start: last_run is None, concurrent: false }),
{
    TaskSchedule::Cron(cron.clone(), CronOpts { at_start: last_run.is_none(), concurrent: false })
}

/// The schedule is what an interval of `length` nanoseconds asks of a scheduler.
pub open spec fn follows_interval(
    schedule: TaskSchedule,
    length: int,
    last_run: Option<Timestamp>,
    now: Timestamp,
) -> bool {
    match (schedule, last_run) {
        (TaskSchedule::Interval(every), None) => every.wf() && every@ == length,
        (TaskSchedule::IntervalDelayed(every, delay), Some(t)) => every.wf() && every@ == length
            && delay.wf() && delay@ == if length >= now@ - t@ {
            length - (now@ - t@)
        } else {
            0
        },
        _ => false,
    }
}

impl TriggerSchedule {
    /// Schedule of a task that keeps this schedule from the time `now` on, if it can be kept.
    pub fn task_schedule(&self, last_run: Option<Timestamp>, now: Timestamp) -> (r: Option<TaskSchedule>)
        requires
            self.in_range(),
            now.wf(),
            self is Interval && self.valid() ==> (last_run matches Some(t) ==> t.wf() && t@ <= now@),
        ensures
            r is Some == self.valid(),
            match *self {
                TriggerSchedule::Interval(text) => interval_length(text@) matches Some(length)
                    ==> follows_interval(r->0, length, last_run, now),
                TriggerSchedule::Cron(text) => r is Some ==> r->0 == TaskSchedule::Cron(
                    text,
                    CronOpts { at_start: last_run is None, concurrent: false },
                ),
            },
    {
        if self.is_valid() {
            match self {
                TriggerSchedule::Interval(interval) => match parse_interval(interval.as_str()) {
                    Some(length) => Some(interval_schedule(length, last_run, now)),
                    None => None,
                },
                TriggerSchedule::Cron(cron) => Some(cron_schedule(cron, last_run)),
            }
        } else {
            None
        }
    }
}

impl ScheduleTrigger {
    /// Schedule of the trigger's task at the time `now`, or an error where the trigger's schedule
    /// can't be kept.
    pub fn get_task_schedule(&self, last_run: Option<Timestamp>, now: Timestamp) -> (r: Result<
        TaskSchedule,
        (),
    >)
        requires
            self.spec.schedule.in_range(),
            now.wf(),
            self.spec.schedule is Interval && self.spec.schedule.valid() ==> (last_run matches Some(t)
                ==> t.wf() && t@ <= now@),
        ensures
            r is Ok == self.spec.schedule.valid(),
            match self.spec.schedule {
                TriggerSchedule::Interval(text) => interval_length(text@) matches Some(length)
                    ==> follows_interval(r->Ok_0, length, last_run, now),
                TriggerSchedule::Cron(text) => r is Ok ==> r->Ok_0 == TaskSchedule::Cron(
                    text,
                    CronOpts { at_start: last_run is None, concurrent: false },
                ),
            },
    {
        match self.spec.schedule.task_schedule(last_run, now) {
            Some(schedule) => Ok(schedule),
            None => Err(()),
        }
    }
}

/// Which requests a webhook accepts.
#[derive(Debug)]
pub struct TriggerWebhook {
    /// All sources may be checked by one request.
    pub multi_source: bool,
    /// What a request has to show. Without it, every request is accepted.
    pub auth_config: Option<TriggerWebhookAuthConfig>,
}

impl Default for TriggerWebhook {
    fn default() -> (r: Self)
        ensures
            !r.multi_source,
            r.auth_config is None,
    {
        TriggerWebhook { multi_source: false, auth_config: None }
    }
}

/// What a request has to show.
#[derive(Debug)]
pub struct TriggerWebhookAuthConfig {
    /// Secret that holds the expected value.
    pub secret_ref: SecretRef,
    /// Key of the value in the secret.
    pub key: String,
    /// Header that has to carry the value.
    pub header: Option<String>,
}

/// Secret of the trigger's namespace.
#[derive(Debug)]
pub struct SecretRef {
    /// Name of the secret.
    pub name: String,
}

/// Action that a trigger runs.
#[derive(Debug)]
pub struct TriggerAction {
    /// Kind of the action.
    pub kind: TriggerActionKind,
    /// Name of the action.
    pub name: String,
}

/// Kind of an action.
#[derive(Clone, Copy, Debug, PartialEq, Eq, Structural)]
pub enum TriggerActionKind {
    /// Action of a namespace.
    Action,
    /// Action of the whole cluster.
    ClusterAction,
}

impl Default for TriggerActionKind {
    fn default() -> (r: Self)
        ensures
            r == TriggerActionKind::Action,
    {
        TriggerActionKind::Action
    }
}

impl TriggerActionKind {
    /// Name of the kind.
    pub open spec fn name(self) -> Seq<char> {
        match self {
            TriggerActionKind::Action => "Action"@,
            TriggerActionKind::ClusterAction => "ClusterAction"@,
        }
    }

    /// Names the kind.
    pub fn to_string(&self) -> (r: String)
        ensures
            r@ == self.name(),
    {
        match self {
            TriggerActionKind::Action => "Action".to_owned(),
            TriggerActionKind::ClusterAction => "ClusterAction".to_owned(),
        }
    }
}

/// Sources that a run of a trigger checks.
#[derive(Debug)]
pub enum TriggerTaskSources {
    /// All sources of the trigger.
    All,
    /// One source.
    Single(String),
}

impl TriggerTaskSources {
    /// The one source with the given name.
    pub fn from(value: String) -> (r: TriggerTaskSources)
        ensures
            r == TriggerTaskSources::Single(value),
    {
        TriggerTaskSources::Single(value)
    }
}

impl CustomApiResource for ScheduleTrigger {
    open spec fn kind_name() -> Seq<char> {
        "ScheduleTrigger"@
    }

    fn crd_kind() -> (r: &'static str) {
        "ScheduleTrigger"
    }
}

impl CustomApiResource for WebhookTrigger {
    open spec fn kind_name() -> Seq<char> {
        "WebhookTrigger"@
    }

    fn crd_kind() -> (r: &'static str) {
        "WebhookTrigger"
    }
}

/// New value of a trigger's status, to be applied by the cluster in place of the one it has.
#[derive(Debug)]
pub struct StatusPatch {
    /// Name of the trigger.
    pub name: String,
    /// API group and version of the trigger.
    pub api_version: String,
    /// Kind of the trigger.
    pub kind: String,
    /// The new status.
    pub status: TriggerStatus,
}

/// State of a trigger after an update: the given one, the one it had, or idle.
pub open spec fn updated_state(old_status: Option<TriggerStatus>, state: Option<TriggerState>) -> TriggerState {
    match (state, old_status) {
        (Some(new_state), _) => new_state,
        (None, Some(old_value)) => old_value.state,
        (None, None) => TriggerState::Idle,
    }
}

/// Time of the last run after an update: the given one, the one it had, or "Never" where there was
/// no status.
pub open spec fn updated_last_run(old_status: Option<TriggerStatus>, last_run: Option<Seq<char>>) -> Option<
    Seq<char>,
> {
    match (last_run, old_status) {
        (Some(time), _) => Some(time),
        (None, Some(old_value)) => opt_view(old_value.last_run),
        (None, None) => Some("Never"@),
    }
}

/// Sources of a trigger's status after an update: the new ones take the place of those that were
/// known, and sources that the trigger doesn't have are dropped. A first status takes the new ones
/// as they are.
pub open spec fn updated_sources(
    old_status: Option<TriggerStatus>,
    checked: Map<Seq<char>, CheckedSourceState>,
    names: Seq<String>,
) -> Map<Seq<char>, CheckedSourceState> {
    match old_status {
        Some(old_value) => restricted(old_value.checked_sources@.union_prefer_right(checked), names),
        None => checked,
    }
}

/// What a map of sources holds, if there is one.
pub open spec fn checked_view(checked: Option<StringMap<CheckedSourceState>>) -> Map<
    Seq<char>,
    CheckedSourceState,
> {
    match checked {
        Some(map) => map@,
        None => Map::empty(),
    }
}

/// Copy of the sources of a status.
pub fn copy_sources(sources: &StringMap<CheckedSourceState>) -> (r: StringMap<CheckedSourceState>)
    ensures
        r@ == sources@,
{
    let r = sources.clone();
    assert(r@ =~= sources@);
    r
}

/// Status of a trigger after an update. Each argument that is absent leaves its part as it was.
pub fn updated_status(
    old_status: &Option<TriggerStatus>,
    names: &Vec<String>,
    state: Option<TriggerState>,
    checked_sources: Option<StringMap<CheckedSourceState>>,
    last_run: Option<String>,
) -> (r: TriggerStatus)
    ensures
        r.state == updated_state(*old_status, state),
        opt_view(r.last_run) == updated_last_run(*old_status, opt_view(last_run)),
        r.checked_sources@ == updated_sources(*old_status, checked_view(checked_sources), names@),
{
    let checked: StringMap<CheckedSourceState> = match checked_sources {
        Some(map) => map,
        None => StringMap::new(),
    };
    match old_status {
        Some(status) => {
            let mut merged = copy_sources(&status.checked_sources);
            merged.extend(checked);
            TriggerStatus {
                state: match state {
                    Some(new_state) => new_state,
                    None => status.state,
                },
                last_run: match last_run {
                    Some(time) => Some(time),
                    None => copy_opt(&status.last_run),
                },
                checked_sources: merged.restricted_to(names),
            }
        },
        None => TriggerStatus {
            state: match state {
                Some(new_state) => new_state,
                None => TriggerState::default(),
            },
            last_run: match last_run {
                Some(time) => Some(time),
                None => Some(NEVER_LAST_RUN_STR.to_owned()),
            },
            checked_sources: checked,
        },
    }
}

/// The patch updates the status of a trigger to what is given; the rest stays as the cluster has it.
pub open spec fn is_status_patch<T: Trigger>(
    patch: StatusPatch,
    trigger: T,
    current: T,
    state: Option<TriggerState>,
    checked: Map<Seq<char>, CheckedSourceState>,
    last_run: Option<Timestamp>,
) -> bool {
    &&& patch.name@ == trigger.the_meta().any_name()
    &&& patch.api_version@ == "git-events-runner.rs"@ + "/"@ + "v1alpha1"@
    &&& patch.kind@ == T::kind_name()
    &&& patch.status.state == updated_state(current.the_status(), state)
    &&& opt_view(patch.status.last_run) == updated_last_run(
        current.the_status(),
        match last_run {
            Some(time) => Some(rfc3339(time.secs as int)),
            None => None,
        },
    )
    &&& patch.status.checked_sources@ == updated_sources(
        current.the_status(),
        checked,
        current.the_sources().names@,
    )
}

/// Behavior that all triggers share.
pub trait Trigger: CustomApiResource + Sized {
    /// Metadata of the trigger.
    spec fn the_meta(&self) -> ObjectMeta;

    /// Sources of the trigger.
    spec fn the_sources(&self) -> TriggerSources;

    /// Action of the trigger.
    spec fn the_action(&self) -> TriggerAction;

    /// Status of the trigger.
    spec fn the_status(&self) -> Option<TriggerStatus>;

    /// Metadata of the trigger.
    fn meta(&self) -> (r: &ObjectMeta)
        ensures
            *r == self.the_meta(),
    ;

    /// Sources of the trigger.
    fn sources(&self) -> (r: &TriggerSources)
        ensures
            *r == self.the_sources(),
    ;

    /// Action of the trigger.
    fn action(&self) -> (r: &TriggerAction)
        ensures
            *r == self.the_action(),
    ;

    /// Status of the trigger.
    fn trigger_status(&self) -> (r: &Option<TriggerStatus>)
        ensures
            *r == self.the_status(),
    ;

    /// Key of the trigger in maps: its namespace and its name.
    fn trigger_hash_key(&self) -> (r: String)
        requires
            self.the_meta().namespace is Some,
        ensures
            r@ == hash_key(self.the_meta()),
    {
        let meta = self.meta();
        match &meta.namespace {
            Some(namespace) => namespace.clone().concat("/").concat(meta.name_any().as_str()),
            None => meta.name_any(),
        }
    }

    /// Patch that updates the trigger's status. `current` is the trigger as the cluster has it
    /// now, or the reason why it can't be had. Parts of the status for which there is no argument
    /// stay as they are, and `checked_sources` is merged into the sources that are known.
    fn update_trigger_status(
        &self,
        current: Result<&Self, Error>,
        state: Option<TriggerState>,
        checked_sources: Option<StringMap<CheckedSourceState>>,
        last_run: Option<Timestamp>,
    ) -> (r: Result<StatusPatch, Error>)
        requires
            last_run matches Some(time) ==> time.wf() && time.in_calendar(),
        ensures
            match current {
                Ok(trigger) => r matches Ok(patch) && patch.name@ == self.the_meta().any_name()
                    && patch.api_version@ == "git-events-runner.rs"@ + "/"@ + "v1alpha1"@
                    && patch.kind@ == Self::kind_name()
                    && patch.status.state == updated_state(trigger.the_status(), state)
                    && opt_view(patch.status.last_run) == updated_last_run(
                    trigger.the_status(),
                    match last_run {
                        Some(time) => Some(rfc3339(time.secs as int)),
                        None => None,
                    },
                ) && patch.status.checked_sources@ == updated_sources(
                    trigger.the_status(),
                    checked_view(checked_sources),
                    trigger.the_sources().names@,
                ),
                Err(e) => r == Err::<StatusPatch, Error>(e),
            },
    {
        match current {
            Ok(trigger) => {
                let last_run_text: Option<String> = match last_run {
                    Some(time) => Some(to_rfc3339(time)),
                    None => None,
                };
                let status = updated_status(
                    trigger.trigger_status(),
                    &trigger.sources().names,
                    state,
                    checked_sources,
                    last_run_text,
                );
                Ok(
                    StatusPatch {
                        name: self.meta().name_any(),
                        api_version: API_GROUP.to_owned().concat("/").concat(CURRENT_API_VERSION),
                        kind: Self::crd_kind().to_owned(),
                        status,
                    },
                )
            },
            Err(e) => Err(e),
        }
    }
}

/// Key of a namespaced resource in maps.
pub open spec fn hash_key(meta: ObjectMeta) -> Seq<char> {
    meta.namespace->0@ + "/"@ + meta.any_name()
}

impl Trigger for ScheduleTrigger {
    open spec fn the_meta(&self) -> ObjectMeta {
        self.metadata
    }

    open spec fn the_sources(&self) -> TriggerSources {
        self.spec.sources
    }

    open spec fn the_action(&self) -> TriggerAction {
        self.spec.action
    }

    open spec fn the_status(&self) -> Option<TriggerStatus> {
        self.status
    }

    fn meta(&self) -> (r: &ObjectMeta) {
        &self.metadata
    }

    fn sources(&self) -> (r: &TriggerSources) {
        &self.spec.sources
    }

    fn action(&self) -> (r: &TriggerAction) {
        &self.spec.action
    }

    fn trigger_status(&self) -> (r: &Option<TriggerStatus>) {
        &self.status
    }
}

impl Trigger for WebhookTrigger {
    open spec fn the_meta(&self) -> ObjectMeta {
        self.metadata
    }

    open spec fn the_sources(&self) -> TriggerSources {
        self.spec.sources
    }

    open spec fn the_action(&self) -> TriggerAction {
        self.spec.action
    }

    open spec fn the_status(&self) -> Option<TriggerStatus> {
        self.status
    }

    fn meta(&self) -> (r: &ObjectMeta) {
        &self.metadata
    }

    fn sources(&self) -> (r: &TriggerSources) {
        &self.spec.sources
    }

    fn action(&self) -> (r: &TriggerAction) {
        &self.spec.action
    }

    fn trigger_status(&self) -> (r: &Option<TriggerStatus>) {
        &self.status
    }
}

/// After an update of a status that was there, only sources that the trigger has are left in it.
pub proof fn law_status_keeps_own_sources(
    old_status: Option<TriggerStatus>,
    checked: Map<Seq<char>, CheckedSourceState>,
    names: Seq<String>,
    source: Seq<char>,
)
    requires
        old_status is Some,
        updated_sources(old_status, checked, names).contains_key(source),
    ensures
        has_string(names, source),
{
}

/// What an update records of a source of the trigger is what its status then says of it.
pub proof fn law_status_reads_back(
    old_status: Option<TriggerStatus>,
    checked: Map<Seq<char>, CheckedSourceState>,
    names: Seq<String>,
    source: Seq<char>,
)
    requires
        checked.contains_key(source),
        has_string(names, source),
    ensures
        updated_sources(old_status, checked, names).contains_key(source),
        updated_sources(old_status, checked, names)[source] == checked[source],
{
}

/// An update leaves what it has no argument for as it was: other sources of the trigger, the state
/// and the time of the last run.
pub proof fn law_status_keeps_the_rest(
    old_status: TriggerStatus,
    checked: Map<Seq<char>, CheckedSourceState>,
    names: Seq<String>,
    source: Seq<char>,
)
    requires
        !checked.contains_key(source),
        has_string(names, source),
    ensures
        updated_sources(Some(old_status), checked, names).contains_key(source)
            == old_status.checked_sources@.contains_key(source),
        old_status.checked_sources@.contains_key(source) ==> updated_sources(
            Some(old_status),
            checked,
            names,
        )[source] == old_status.checked_sources@[source],
        updated_state(Some(old_status), None) == old_status.state,
        updated_last_run(Some(old_status), None) == opt_view(old_status.last_run),
{
}

/// The same update made twice leaves the sources as the first one left them.
pub proof fn law_status_update_is_idempotent(
    old_status: TriggerStatus,
    new_status: TriggerStatus,
    checked: Map<Seq<char>, CheckedSourceState>,
    names: Seq<String>,
)
    requires
        new_status.checked_sources@ == updated_sources(Some(old_status), checked, names),
    ensures
        updated_sources(Some(new_status), checked, names) == new_status.checked_sources@,
{
    assert(updated_sources(Some(new_status), checked, names) =~= new_status.checked_sources@);
}

} // verus!
