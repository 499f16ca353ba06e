//! Queue of jobs that wait for their turn to run.
use crate::config::RuntimeConfig;
use crate::error::Error;
use crate::resources::action::{
    is_job, is_job_name, ActionExecutor, Job, Occasion, ACTION_JOB_ACTION_KIND_LABEL,
    ACTION_JOB_ACTION_NAME_LABEL, ACTION_JOB_SOURCE_KIND_LABEL, ACTION_JOB_SOURCE_NAME_LABEL,
    ACTION_JOB_TRIGGER_KIND_LABEL, ACTION_JOB_TRIGGER_NAME_LABEL,
};
use crate::string_map::StringMap;
use crate::text::views;
use crate::time::{Duration, Timestamp};
use std::collections::VecDeque;
use vstd::prelude::*;

verus! {

/// Label of a job with the identity of the controller that created it.
pub const ACTION_JOB_IDENTITY_LABEL: &'static str = "git-events-runner.rs/controller-identity";

/// How a job ended.
#[derive(Clone, Copy, Debug, PartialEq, Eq, Structural)]
pub enum JobCompletionStatus {
    /// It did its work.
    Succeed,
    /// It failed.
    Failed,
    /// It waited too long for its turn.
    Expired,
    /// It was deleted before it was finished.
    Deleted,
    /// It couldn't be created.
    CreateError,
}

impl JobCompletionStatus {
    /// Name of the status.
    pub open spec fn name(self) -> Seq<char> {
        match self {
            JobCompletionStatus::Succeed => "Succeed"@,
            JobCompletionStatus::Failed => "Failed"@,
            JobCompletionStatus::Expired => "Expired"@,
            JobCompletionStatus::Deleted => "Deleted"@,
            JobCompletionStatus::CreateError => "CreateError"@,
        }
    }

    /// Names the status.
    pub fn to_string(&self) -> (r: String)
        ensures
            r@ == self.name(),
    {
        match self {
            JobCompletionStatus::Succeed => "Succeed".to_owned(),
            JobCompletionStatus::Failed => "Failed".to_owned(),
            JobCompletionStatus::Expired => "Expired".to_owned(),
            JobCompletionStatus::Deleted => "Deleted".to_owned(),
            JobCompletionStatus::CreateError => "CreateError".to_owned(),
        }
    }
}

/// What the cluster says of a job.
#[derive(Debug)]
pub struct JobStatus {
    /// Number of pods that did their work, once there is one.
    pub succeeded: Option<i32>,
    /// Number of pods that failed, once there is one.
    pub failed: Option<i32>,
    /// The rest, as a text.
    pub rest: String,
}

impl JobStatus {
    /// Both say the same.
    pub open spec fn same(self, other: JobStatus) -> bool {
        self.succeeded == other.succeeded && self.failed == other.failed && self.rest@ == other.rest@
    }

    /// The job is done, one way or the other.
    pub open spec fn finished(self) -> bool {
        self.succeeded is Some || self.failed is Some
    }

    fn is_same(&self, other: &JobStatus) -> (r: bool)
        ensures
            r == self.same(*other),
    {
        self.succeeded == other.succeeded && self.failed == other.failed && self.rest == other.rest
    }
}

/// Job that waits for its turn.
#[derive(Debug)]
pub struct JobsQueueItem {
    /// The job.
    pub job: Job,
    /// When it came into the queue.
    pub enqueued_at: Timestamp,
    /// How long it may wait, where its action says so.
    pub expire_after: Option<Duration>,
}

impl JobsQueueItem {
    /// The times can be compared.
    pub open spec fn wf(self) -> bool {
        self.enqueued_at.wf() && (self.expire_after matches Some(length) ==> length.wf())
    }

    /// Nanoseconds that the job may wait.
    pub open spec fn timeout(self, config: RuntimeConfig) -> int {
        match self.expire_after {
            Some(length) => length@,
            None => config.action.job_waiting_timeout_seconds * 1_000_000_000,
        }
    }

    /// The job has waited too long.
    pub open spec fn expired(self, config: RuntimeConfig, now: Timestamp) -> bool {
        now@ > self.enqueued_at@ + self.timeout(config)
    }

    /// Tells whether the job has waited too long.
    pub fn is_expired(&self, config: &RuntimeConfig, now: Timestamp) -> (r: bool)
        requires
            self.wf(),
            now.wf(),
        ensures
            r == self.expired(*config, now),
    {
        let expire_after: Duration = match self.expire_after {
            Some(length) => length,
            None => Duration::from_secs(config.action.job_waiting_timeout_seconds),
        };
        if self.enqueued_at.is_before(now) {
            let waited = now.since(self.enqueued_at);
            waited.secs > expire_after.secs || (waited.secs == expire_after.secs && waited.nanos
                > expire_after.nanos)
        } else {
            false
        }
    }
}

/// Queue of jobs, and what is known of those that have left it.
#[derive(Debug)]
pub struct JobsQueue {
    /// Identity of the controller.
    pub identity: String,
    /// Jobs that wait, the one whose turn is next first.
    pub items: VecDeque<JobsQueueItem>,
    /// Number of jobs that are running.
    pub running_jobs: usize,
    /// What the cluster last said of each job.
    pub statuses: StringMap<JobStatus>,
    /// Someone waits for jobs to come into the queue.
    pub watched: bool,
}

/// Key of a job in maps.
pub open spec fn job_key(namespace: Seq<char>, name: Seq<char>) -> Seq<char> {
    namespace + "/"@ + name
}

/// What is known of a job.
pub open spec fn status_of(statuses: Map<Seq<char>, JobStatus>, key: Seq<char>) -> Option<JobStatus> {
    if statuses.contains_key(key) {
        Some(statuses[key])
    } else {
        None
    }
}

/// How a job ended, if the news is that it did: one that wasn't done got a status that says so, or it
/// went without one.
pub open spec fn completion(known: Option<JobStatus>, news: Option<JobStatus>) -> Option<
    JobCompletionStatus,
> {
    match (known, news) {
        (Some(before), Some(status)) => if before.finished() || before.same(status) {
            None
        } else if status.succeeded is Some {
            Some(JobCompletionStatus::Succeed)
        } else if status.failed is Some {
            Some(JobCompletionStatus::Failed)
        } else {
            None
        },
        (Some(before), None) => if before.finished() {
            None
        } else {
            Some(JobCompletionStatus::Deleted)
        },
        (None, _) => None,
    }
}

/// The job is there and isn't done.
pub open spec fn is_running(status: Option<JobStatus>) -> bool {
    status matches Some(s) && !s.finished()
}

/// Number of running jobs after news of a job: one more if the job runs and didn't before, one less if
/// it has ended.
pub open spec fn running_after(running: int, known: Option<JobStatus>, news: Option<JobStatus>) -> int {
    if !is_running(known) && is_running(news) {
        running + 1
    } else if completion(known, news) is Some {
        running - 1
    } else {
        running
    }
}

/// Keys of jobs that aren't done.
pub open spec fn unfinished(statuses: Map<Seq<char>, JobStatus>) -> Set<Seq<char>> {
    statuses.dom().filter(|key: Seq<char>| !statuses[key].finished())
}

/// What is known of all jobs after news of one.
pub open spec fn statuses_after(
    statuses: Map<Seq<char>, JobStatus>,
    key: Seq<char>,
    news: Option<JobStatus>,
) -> Map<Seq<char>, JobStatus> {
    match news {
        Some(status) => statuses.insert(key, status),
        None => statuses.remove(key),
    }
}

impl JobsQueue {
    /// The times of all jobs can be compared, and the number of running jobs is that of the jobs that
    /// are known and aren't done.
    pub open spec fn wf(self) -> bool {
        &&& forall|i: int| 0 <= i < self.items@.len() ==> (#[trigger] self.items@[i]).wf()
        &&& self.statuses@.dom().finite()
        &&& self.running_jobs == unfinished(self.statuses@).len()
    }

    /// Empty queue of a controller.
    pub fn new(identity: String) -> (r: JobsQueue)
        ensures
            r.wf(),
            r.identity == identity,
            r.items@.len() == 0,
            r.running_jobs == 0,
            r.statuses@ == Map::<Seq<char>, JobStatus>::empty(),
            r.watched,
    {
        let r = JobsQueue {
            identity,
            items: VecDeque::new(),
            running_jobs: 0,
            statuses: StringMap::new(),
            watched: true,
        };
        assert(unfinished(r.statuses@) =~= Set::<Seq<char>>::empty());
        r
    }

    /// Selector of the jobs that the controller created.
    pub fn job_selector(&self) -> (r: String)
        ensures
            r@ == "git-events-runner.rs/controller-identity"@ + "="@ + self.identity@,
    {
        ACTION_JOB_IDENTITY_LABEL.to_owned().concat("=").concat(self.identity.as_str())
    }

    /// Puts a job into the queue, labelled with the identity of the controller, to run in a
    /// namespace. Without a queue, or where nobody waits for jobs, that is an error; in the latter
    /// case the job is in the queue all the same.
    pub fn enqueue(
        queue: Option<&mut JobsQueue>,
        job: Job,
        ns: &str,
        expire_after: Option<Duration>,
        now: Timestamp,
    ) -> (r: Result<(), Error>)
        requires
            queue matches Some(q) ==> q.wf(),
            expire_after matches Some(length) ==> length.wf(),
            now.wf(),
        ensures
            match queue {
                Some(q) => {
                    &&& final(q).wf()
                    &&& final(q).identity == q.identity
                    &&& final(q).running_jobs == q.running_jobs
                    &&& final(q).statuses == q.statuses
                    &&& final(q).watched == q.watched
                    &&& final(q).items@.len() == q.items@.len() + 1
                    &&& final(q).items@.drop_last() == q.items@
                    &&& is_enqueued(
                        final(q).items@.last(),
                        job,
                        ns@,
                        q.identity,
                        expire_after,
                        now,
                    )
                    &&& if q.watched {
                        r is Ok
                    } else {
                        r matches Err(Error::JobsQueueError(text)) && text@ == "channel closed"@
                    }
                },
                None => r matches Err(Error::JobsQueueError(text)) && text@
                    == "jobs queue isn't initialized"@,
            },
    {
        match queue {
            Some(q) => {
                let mut labels = job.labels;
                labels.insert(ACTION_JOB_IDENTITY_LABEL.to_owned(), q.identity.clone());
                let job = Job { namespace: Some(ns.to_owned()), labels, ..job };
                let ghost before = q.items@;
                q.items.push_back(JobsQueueItem { job, enqueued_at: now, expire_after });
                assert(q.items@.drop_last() =~= before);
                assert(q.wf()) by {
                    assert forall|i: int| 0 <= i < q.items@.len() implies (#[trigger] q.items@[i]).wf() by {
                        if i < before.len() {
                            assert(q.items@[i] == before[i]);
                        }
                    }
                }
                if q.watched {
                    Ok(())
                } else {
                    Err(Error::JobsQueueError("channel closed".to_owned()))
                }
            },
            None => Err(Error::JobsQueueError("jobs queue isn't initialized".to_owned())),
        }
    }

    /// Takes up news of a job: the status that the cluster now has of it, if any. Tells how the job
    /// ended, if it did. A job that is known to be done ends no second time.
    pub fn observe(&mut self, ns: &str, name: &str, news: Option<JobStatus>) -> (r: Option<
        JobCompletionStatus,
    >)
        requires
            old(self).wf(),
        ensures
            final(self).wf(),
            final(self).identity == old(self).identity,
            final(self).items == old(self).items,
            final(self).watched == old(self).watched,
            final(self).statuses@ == statuses_after(old(self).statuses@, job_key(ns@, name@), news),
            r == completion(status_of(old(self).statuses@, job_key(ns@, name@)), news),
            final(self).running_jobs == running_after(
                old(self).running_jobs as int,
                status_of(old(self).statuses@, job_key(ns@, name@)),
                news,
            ),
    {
        proof {
            law_running_jobs_are_unfinished(
                self.statuses@,
                self.running_jobs as int,
                job_key(ns@, name@),
                news,
            );
        }
        let key = ns.to_owned().concat("/").concat(name);
        match news {
            Some(status) => {
                let mut ended: Option<JobCompletionStatus> = None;
                let runs: bool = status.succeeded.is_none() && status.failed.is_none();
                let mut ran: bool = false;
                if let Some(before) = self.statuses.get(key.as_str()) {
                    ran = before.succeeded.is_none() && before.failed.is_none();
                    if ran && !before.is_same(&status) {
                        if status.succeeded.is_some() {
                            ended = Some(JobCompletionStatus::Succeed);
                        } else if status.failed.is_some() {
                            ended = Some(JobCompletionStatus::Failed);
                        }
                    }
                }
                self.statuses.insert(key, status);
                // There are no more jobs than can be counted.
                let _count: usize = self.statuses.len();
                proof {
                    let now = self.statuses@;
                    now.dom().lemma_len_filter(|k: Seq<char>| !now[k].finished());
                }
                if runs && !ran {
                    self.running_jobs = self.running_jobs + 1;
                } else if ran && !runs {
                    self.running_jobs = self.running_jobs - 1;
                }
                ended
            },
            None => match self.statuses.remove(key.as_str()) {
                Some(status) => if status.succeeded.is_none() && status.failed.is_none() {
                    self.running_jobs = self.running_jobs - 1;
                    Some(JobCompletionStatus::Deleted)
                } else {
                    None
                },
                None => None,
            },
        }
    }

    /// Starts to run jobs of the queue: as many as there is room for at the moment. There is nothing
    /// to do where more jobs are running than may run.
    pub fn run_queue(&self, config: &RuntimeConfig) -> (r: Option<QueueRun>)
        ensures
            r == if self.running_jobs > config.action.max_running_jobs {
                None
            } else {
                Some(
                    QueueRun {
                        free_capacity: (config.action.max_running_jobs - self.running_jobs) as usize,
                        waiting_jobs: self.items@.len() as usize,
                    },
                )
            },
            self.items@.len() <= usize::MAX,
    {
        let waiting_jobs: usize = self.items.len();
        if self.running_jobs > config.action.max_running_jobs {
            None
        } else {
            Some(
                QueueRun {
                    free_capacity: config.action.max_running_jobs - self.running_jobs,
                    waiting_jobs,
                },
            )
        }
    }
}

/// The item is the job, labelled with the identity, in the namespace, from `now` on.
pub open spec fn is_enqueued(
    item: JobsQueueItem,
    job: Job,
    ns: Seq<char>,
    identity: String,
    expire_after: Option<Duration>,
    now: Timestamp,
) -> bool {
    &&& item.enqueued_at == now
    &&& item.expire_after == expire_after
    &&& item.job.namespace matches Some(namespace) && namespace@ == ns
    &&& item.job.labels@ == job.labels@.insert(
        "git-events-runner.rs/controller-identity"@,
        identity,
    )
    &&& item.job == (Job { namespace: item.job.namespace, labels: item.job.labels, ..job })
}

/// Runs an action on an occasion: puts its job into the queue, to run in the namespace of the trigger.
pub fn run_action<A: ActionExecutor>(
    queue: &mut JobsQueue,
    action: &A,
    config: &RuntimeConfig,
    occasion: &Occasion,
    now: Timestamp,
) -> (r: Result<(), Error>)
    requires
        old(queue).wf(),
        now.wf(),
        action.the_meta().name is Some,
        action.the_meta().uid is Some,
    ensures
        final(queue).wf(),
        final(queue).identity == old(queue).identity,
        final(queue).running_jobs == old(queue).running_jobs,
        final(queue).statuses == old(queue).statuses,
        final(queue).watched == old(queue).watched,
        if old(queue).watched {
            r is Ok
        } else {
            r matches Err(Error::JobsQueueError(text)) && text@ == "channel closed"@
        },
        final(queue).items@.len() == old(queue).items@.len() + 1,
        final(queue).items@.drop_last() == old(queue).items@,
        exists|job: Job|
            is_job_name(job.name@, action.the_meta().any_name()) && #[trigger] is_job(
                job,
                *action,
                *config,
                *occasion,
            ) && is_enqueued(
                final(queue).items@.last(),
                job,
                occasion.namespace@,
                old(queue).identity,
                match action.the_job().job_waiting_timeout_seconds {
                    Some(seconds) => Some(Duration { secs: seconds, nanos: 0 }),
                    None => None,
                },
                now,
            ),
{
    let (job, expire_after) = action.execute(config, occasion);
    JobsQueue::enqueue(Some(queue), job, occasion.namespace.as_str(), expire_after, now)
}

/// Run of a queue: how many jobs it may still create and how many it may still look at.
#[derive(Clone, Copy, Debug, PartialEq, Eq, Structural)]
pub struct QueueRun {
    /// Number of jobs that there is room for.
    pub free_capacity: usize,
    /// Number of jobs that wait.
    pub waiting_jobs: usize,
}

/// What a run of a queue asks for.
#[derive(Debug)]
pub enum QueueRequest {
    /// Create a job in the cluster. It has waited for the given time.
    Create(Job, Duration),
    /// Count a job that has waited too long.
    CountExpired(Job),
    /// Nothing: the run is over.
    Finish,
}

impl QueueRun {
    /// The run looks at one more job.
    pub open spec fn goes_on(self, queue: JobsQueue) -> bool {
        self.waiting_jobs > 0 && self.free_capacity > 0 && queue.items@.len() > 0
    }

    /// Takes the next job from the queue, in the order in which they came. One that has waited too
    /// long is dropped.
    pub fn next(&mut self, queue: &mut JobsQueue, config: &RuntimeConfig, now: Timestamp) -> (r: QueueRequest)
        requires
            old(queue).wf(),
            now.wf(),
            old(self).goes_on(*old(queue)) ==> old(queue).items@[0].enqueued_at@ <= now@,
        ensures
            final(queue).wf(),
            final(queue).identity == old(queue).identity,
            final(queue).running_jobs == old(queue).running_jobs,
            final(queue).statuses == old(queue).statuses,
            final(queue).watched == old(queue).watched,
            final(self).free_capacity == old(self).free_capacity,
            if old(self).goes_on(*old(queue)) {
                let item = old(queue).items@[0];
                &&& final(queue).items@ == old(queue).items@.skip(1)
                &&& final(self).waiting_jobs == old(self).waiting_jobs - 1
                &&& if item.expired(*config, now) {
                    r == QueueRequest::CountExpired(item.job)
                } else {
                    r matches QueueRequest::Create(job, waited) && job == item.job && waited.wf()
                        && waited@ == now@ - item.enqueued_at@
                }
            } else {
                &&& final(queue).items@ == old(queue).items@
                &&& final(self).waiting_jobs == old(self).waiting_jobs
                &&& r is Finish
            },
    {
        if self.waiting_jobs == 0 || self.free_capacity == 0 {
            return QueueRequest::Finish;
        }
        match queue.items.pop_front() {
            Some(item) => {
                assert(queue.items@ =~= old(queue).items@.skip(1));
                assert(item == old(queue).items@[0]);
                assert(queue.wf()) by {
                    assert forall|i: int| 0 <= i < queue.items@.len() implies (#[trigger] queue.items@[i]).wf() by {
                        assert(queue.items@[i] == old(queue).items@[i + 1]);
                    }
                }
                self.waiting_jobs = self.waiting_jobs - 1;
                if item.is_expired(config, now) {
                    QueueRequest::CountExpired(item.job)
                } else {
                    let waited = now.since(item.enqueued_at);
                    QueueRequest::Create(item.job, waited)
                }
            },
            None => QueueRequest::Finish,
        }
    }

    /// Takes up what came of creating a job. Only a job that was created takes room; one that wasn't is
    /// counted with the status that is given back.
    pub fn created(&mut self, success: bool) -> (r: Option<JobCompletionStatus>)
        requires
            old(self).free_capacity > 0,
        ensures
            r == if success {
                None
            } else {
                Some(JobCompletionStatus::CreateError)
            },
            final(self).waiting_jobs == old(self).waiting_jobs,
            final(self).free_capacity == if success {
                old(self).free_capacity - 1
            } else {
                old(self).free_capacity as int
            },
    {
        if success {
            self.free_capacity = self.free_capacity - 1;
            None
        } else {
            Some(JobCompletionStatus::CreateError)
        }
    }
}

/// Labels of a metric of a job that has ended: where it ran, what started it, what it worked on,
/// what it did, and how it ended.
pub fn completed_labels(namespace: &str, labels: &StringMap<String>, status: JobCompletionStatus) -> (r:
    Vec<String>)
    requires
        has_job_labels(labels@),
    ensures
        views(r@) == seq![
            namespace@,
            labels@["git-events-runner.rs/trigger-kind"@]@,
            labels@["git-events-runner.rs/trigger-name"@]@,
            labels@["git-events-runner.rs/source-kind"@]@,
            labels@["git-events-runner.rs/source-name"@]@,
            labels@["git-events-runner.rs/action-kind"@]@,
            labels@["git-events-runner.rs/action-name"@]@,
            status.name(),
        ],
{
    let mut r: Vec<String> = Vec::new();
    r.push(namespace.to_owned());
    r.push(label_of(labels, ACTION_JOB_TRIGGER_KIND_LABEL));
    r.push(label_of(labels, ACTION_JOB_TRIGGER_NAME_LABEL));
    r.push(label_of(labels, ACTION_JOB_SOURCE_KIND_LABEL));
    r.push(label_of(labels, ACTION_JOB_SOURCE_NAME_LABEL));
    r.push(label_of(labels, ACTION_JOB_ACTION_KIND_LABEL));
    r.push(label_of(labels, ACTION_JOB_ACTION_NAME_LABEL));
    r.push(status.to_string());
    assert(views(r@) =~= seq![
        namespace@,
        labels@["git-events-runner.rs/trigger-kind"@]@,
        labels@["git-events-runner.rs/trigger-name"@]@,
        labels@["git-events-runner.rs/source-kind"@]@,
        labels@["git-events-runner.rs/source-name"@]@,
        labels@["git-events-runner.rs/action-kind"@]@,
        labels@["git-events-runner.rs/action-name"@]@,
        status.name(),
    ]);
    r
}

/// The labels that every job of an action has are there.
pub open spec fn has_job_labels(labels: Map<Seq<char>, String>) -> bool {
    &&& labels.contains_key("git-events-runner.rs/trigger-kind"@)
    &&& labels.contains_key("git-events-runner.rs/trigger-name"@)
    &&& labels.contains_key("git-events-runner.rs/source-kind"@)
    &&& labels.contains_key("git-events-runner.rs/source-name"@)
    &&& labels.contains_key("git-events-runner.rs/action-kind"@)
    &&& labels.contains_key("git-events-runner.rs/action-name"@)
}

fn label_of(labels: &StringMap<String>, name: &str) -> (r: String)
    requires
        labels@.contains_key(name@),
    ensures
        r@ == labels@[name@]@,
{
    match labels.get(name) {
        Some(value) => value.clone(),
        None => String::new(),
    }
}

/// Time that a job took, for the metric of those that ran to their end. A start in the future isn't
/// measured.
pub fn completed_duration(status: JobCompletionStatus, start: Option<Timestamp>, now: Timestamp) -> (r: Option<
    Duration,
>)
    requires
        start matches Some(t) ==> t.wf(),
        now.wf(),
    ensures
        match start {
            Some(t) => if (status == JobCompletionStatus::Succeed || status
                == JobCompletionStatus::Failed) && t@ <= now@ {
                r matches Some(length) && length.wf() && length@ == now@ - t@
            } else {
                r is None
            },
            None => r is None,
        },
{
    match status {
        JobCompletionStatus::Succeed | JobCompletionStatus::Failed => match start {
            Some(t) => if now.is_before(t) {
                None
            } else {
                Some(now.since(t))
            },
            None => None,
        },
        _ => None,
    }
}

/// Whatever the news of a job, the number of running jobs stays that of the jobs that are known and
/// aren't done.
pub proof fn law_running_jobs_are_unfinished(
    statuses: Map<Seq<char>, JobStatus>,
    running: int,
    key: Seq<char>,
    news: Option<JobStatus>,
)
    requires
        statuses.dom().finite(),
        running == unfinished(statuses).len(),
    ensures
        running_after(running, status_of(statuses, key), news) == unfinished(
            statuses_after(statuses, key, news),
        ).len(),
        statuses_after(statuses, key, news).dom().finite(),
        unfinished(statuses_after(statuses, key, news)).finite(),
{
    let before = unfinished(statuses);
    let after = unfinished(statuses_after(statuses, key, news));
    statuses.dom().lemma_len_filter(|k: Seq<char>| !statuses[k].finished());
    assert(before.finite());
    assert(before.contains(key) == is_running(status_of(statuses, key)));
    if is_running(news) {
        assert(after =~= before.insert(key));
    } else {
        assert(after =~= before.remove(key));
    }
}

/// A job that ends is taken off the number of running jobs once, and its end is told once: later news
/// of the job that is done changes nothing, nor does its deletion.
pub proof fn law_job_ends_once(running: int, before: JobStatus, done: JobStatus, later: Option<JobStatus>)
    requires
        !before.finished(),
        done.finished(),
        later matches Some(status) ==> status.finished(),
    ensures
        completion(Some(before), Some(done)) is Some,
        running_after(running, Some(before), Some(done)) == running - 1,
        completion(Some(done), later) is None,
        running_after(running, Some(done), later) == running,
{
}

/// A job that is done when it is first heard of isn't counted, neither as running nor as ended.
pub proof fn law_job_found_done_is_not_counted(running: int, done: JobStatus)
    requires
        done.finished(),
    ensures
        completion(None, Some(done)) is None,
        running_after(running, None, Some(done)) == running,
{
}

/// Jobs of different namespaces or names have different keys, as long as no namespace has a slash in
/// it.
pub proof fn law_job_keys_differ(ns1: Seq<char>, name1: Seq<char>, ns2: Seq<char>, name2: Seq<char>)
    requires
        !ns1.contains('/'),
        !ns2.contains('/'),
        job_key(ns1, name1) == job_key(ns2, name2),
    ensures
        ns1 == ns2,
        name1 == name2,
{
    reveal_strlit("/");
    let k = job_key(ns1, name1);
    assert(k == ns1 + seq!['/'] + name1);
    assert(k == ns2 + seq!['/'] + name2);
    if ns1.len() < ns2.len() {
        assert(k[ns1.len() as int] == '/');
        assert(ns2[ns1.len() as int] == '/');
        assert(ns2.contains('/'));
    }
    if ns2.len() < ns1.len() {
        assert(k[ns2.len() as int] == '/');
        assert(ns1[ns2.len() as int] == '/');
        assert(ns1.contains('/'));
    }
    assert(ns1 =~= k.take(ns1.len() as int));
    assert(ns2 =~= k.take(ns2.len() as int));
    assert(name1 =~= k.skip(ns1.len() as int + 1));
    assert(name2 =~= k.skip(ns2.len() as int + 1));
}

/// What came of a job that a run of the queue looked at.
pub enum ItemOutcome {
    /// It was created.
    Created,
    /// It couldn't be created.
    NotCreated,
    /// It had waited too long.
    Expired,
}

/// Run of a queue after it has looked at one more job.
pub open spec fn after_item(run: QueueRun, outcome: ItemOutcome) -> QueueRun {
    QueueRun {
        free_capacity: if outcome is Created {
            (run.free_capacity - 1) as usize
        } else {
            run.free_capacity
        },
        waiting_jobs: (run.waiting_jobs - 1) as usize,
    }
}

/// A run of a queue can look at jobs with these outcomes, one after the other.
pub open spec fn can_process(run: QueueRun, outcomes: Seq<ItemOutcome>) -> bool
    decreases outcomes.len(),
{
    outcomes.len() > 0 ==> run.free_capacity > 0 && run.waiting_jobs > 0 && can_process(
        after_item(run, outcomes[0]),
        outcomes.skip(1),
    )
}

/// Number of jobs that were created.
pub open spec fn created_count(outcomes: Seq<ItemOutcome>) -> nat
    decreases outcomes.len(),
{
    if outcomes.len() == 0 {
        0
    } else {
        created_count(outcomes.skip(1)) + if outcomes[0] is Created {
            1nat
        } else {
            0
        }
    }
}

/// A run of the queue creates no more jobs than there was room for, and looks at no more jobs than
/// waited, whatever comes of them.
pub proof fn law_run_keeps_limit(run: QueueRun, outcomes: Seq<ItemOutcome>)
    requires
        can_process(run, outcomes),
    ensures
        created_count(outcomes) <= run.free_capacity,
        outcomes.len() <= run.waiting_jobs,
    decreases outcomes.len(),
{
    if outcomes.len() > 0 {
        law_run_keeps_limit(after_item(run, outcomes[0]), outcomes.skip(1));
    }
}

/// Run of a queue after it has looked at jobs with these outcomes.
pub open spec fn after_items(run: QueueRun, outcomes: Seq<ItemOutcome>) -> QueueRun
    decreases outcomes.len(),
{
    if outcomes.len() == 0 {
        run
    } else {
        after_items(after_item(run, outcomes[0]), outcomes.skip(1))
    }
}

/// A run of the queue starts as many jobs as possible: where it stops, it has looked at all jobs that
/// waited or has created as many as there was room for. Jobs that had waited too long or couldn't be
/// created take no room.
pub proof fn law_run_uses_its_room(run: QueueRun, outcomes: Seq<ItemOutcome>)
    requires
        can_process(run, outcomes),
        after_items(run, outcomes).free_capacity == 0 || after_items(run, outcomes).waiting_jobs == 0,
    ensures
        outcomes.len() == run.waiting_jobs || created_count(outcomes) == run.free_capacity,
    decreases outcomes.len(),
{
    if outcomes.len() > 0 {
        law_run_uses_its_room(after_item(run, outcomes[0]), outcomes.skip(1));
    }
}

/// The jobs that were running and those that a run of the queue creates are together no more than
/// may run.
pub proof fn law_jobs_within_limit(queue: JobsQueue, config: RuntimeConfig, run: QueueRun, outcomes: Seq<ItemOutcome>)
    requires
        queue.running_jobs <= config.action.max_running_jobs,
        run.free_capacity == config.action.max_running_jobs - queue.running_jobs,
        can_process(run, outcomes),
    ensures
        queue.running_jobs + created_count(outcomes) <= config.action.max_running_jobs,
{
    law_run_keeps_limit(run, outcomes);
}

/// A job in the queue runs in the namespace that it was enqueued for and carries the identity of the
/// controller, whatever labels it came with.
pub proof fn law_enqueued_job_is_marked(
    item: JobsQueueItem,
    job: Job,
    ns: Seq<char>,
    identity: String,
    expire_after: Option<Duration>,
    now: Timestamp,
)
    requires
        is_enqueued(item, job, ns, identity, expire_after, now),
    ensures
        item.job.namespace matches Some(namespace) && namespace@ == ns,
        item.job.labels@["git-events-runner.rs/controller-identity"@] == identity,
        item.job.pod == job.pod,
        item.job.name == job.name,
{
}

} // verus!
