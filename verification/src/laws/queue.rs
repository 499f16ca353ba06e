//! Queue of jobs: limits, order, timeouts, and how jobs end.
use crate::config::RuntimeConfig;
use crate::error::Error;
use crate::jobs::{
    completed_duration, completed_labels, run_action, unfinished, JobCompletionStatus, JobStatus, JobsQueue,
    JobsQueueItem, QueueRequest, QueueRun,
};
use crate::resources::action::{ActionExecutor, Job, Occasion};
use crate::string_map::StringMap;
use crate::time::{Duration, Timestamp};
use crate::text::text_map;
use vstd::prelude::*;

use super::actions::{is_name_for_a_job, lemma_name_for_a_job, same_work};

verus! {

/// Nanoseconds of a length of time.
pub open spec fn length_nanos(length: Duration) -> int {
    length.secs * 1_000_000_000 + length.nanos
}

/// Nanoseconds from the start of 1970 to a point in time.
pub open spec fn point_nanos(point: Timestamp) -> int {
    point.secs * 1_000_000_000 + point.nanos
}

/// The job has waited longer than it may: than its action says, whatever the configuration says, and
/// than the configuration says where the action says nothing.
pub open spec fn has_waited_too_long(item: JobsQueueItem, config: RuntimeConfig, now: Timestamp) -> bool {
    match item.expire_after {
        Some(length) => point_nanos(now) > point_nanos(item.enqueued_at) + length_nanos(length),
        None => point_nanos(now) > point_nanos(item.enqueued_at)
            + config.action.job_waiting_timeout_seconds * 1_000_000_000,
    }
}

/// A job expires once it has waited longer than its action says, or than the configuration says where
/// the action says nothing.
pub proof fn law_job_expires_by_its_own_limit(item: &JobsQueueItem, config: &RuntimeConfig, now: Timestamp, r: bool)
    requires
        call_ensures(JobsQueueItem::is_expired, (item, config, now), r),
    ensures
        r == has_waited_too_long(*item, *config, now),
{
}

/// Where an action gives its own limit, the configuration's limit makes no difference. An item that has
/// expired stays so, and a longer limit of its own makes it expire no sooner.
pub proof fn law_own_limit_wins(
    item: &JobsQueueItem,
    config: &RuntimeConfig,
    other_config: &RuntimeConfig,
    later: Timestamp,
    now: Timestamp,
    r: bool,
    other_r: bool,
    later_r: bool,
)
    requires
        item.expire_after is Some,
        call_ensures(JobsQueueItem::is_expired, (item, config, now), r),
        call_ensures(JobsQueueItem::is_expired, (item, other_config, now), other_r),
        call_ensures(JobsQueueItem::is_expired, (item, config, later), later_r),
        point_nanos(now) <= point_nanos(later),
    ensures
        r == other_r,
        r ==> later_r,
{
}

/// A run of the queue has room for as many jobs as may run beyond those that are running. Where more
/// are running than may, there is no run.
pub proof fn law_run_has_room_up_to_the_limit(queue: &JobsQueue, config: &RuntimeConfig, r: Option<QueueRun>)
    requires
        call_ensures(JobsQueue::run_queue, (queue, config), r),
    ensures
        r is None == (queue.running_jobs > config.action.max_running_jobs),
        r matches Some(run) ==> queue.running_jobs + run.free_capacity == config.action.max_running_jobs
            && run.waiting_jobs == queue.items@.len(),
{
}

/// The run takes jobs in the order in which they came: the first one leaves the queue and the others
/// stay as they are. It is created, unless it has waited too long; then it is dropped and counted. The
/// run ends when nothing waits any more or there is no room.
pub proof fn law_jobs_are_taken_in_order(
    run: &mut QueueRun,
    queue: &mut JobsQueue,
    config: &RuntimeConfig,
    now: Timestamp,
    r: QueueRequest,
)
    requires
        call_ensures(QueueRun::next, (run, queue, config, now), r),
    ensures
        final(run).free_capacity == old(run).free_capacity,
        final(queue).running_jobs == old(queue).running_jobs,
        final(queue).identity == old(queue).identity,
        final(queue).statuses == old(queue).statuses,
        final(queue).watched == old(queue).watched,
        if old(run).waiting_jobs > 0 && old(run).free_capacity > 0 && old(queue).items@.len() > 0 {
            let item = old(queue).items@[0];
            &&& final(run).waiting_jobs == old(run).waiting_jobs - 1
            &&& final(queue).items@.len() == old(queue).items@.len() - 1
            &&& forall|i: int|
                0 <= i < final(queue).items@.len() ==> #[trigger] final(queue).items@[i] == old(queue).items@[i
                    + 1]
            &&& if has_waited_too_long(item, *config, now) {
                r == QueueRequest::CountExpired(item.job)
            } else {
                r matches QueueRequest::Create(job, waited) && job == item.job && length_nanos(waited)
                    == point_nanos(now) - point_nanos(item.enqueued_at)
            }
        } else {
            &&& final(run).waiting_jobs == old(run).waiting_jobs
            &&& final(queue).items@ == old(queue).items@
            &&& r == QueueRequest::Finish
        },
{
}

/// A job that was created takes one place, and is counted later, when it ends. One that couldn't be
/// created takes none and is counted at once as an error.
pub proof fn law_created_job_takes_a_place(run: &mut QueueRun, success: bool, r: Option<JobCompletionStatus>)
    requires
        call_ensures(QueueRun::created, (run, success), r),
        old(run).free_capacity > 0,
    ensures
        final(run).waiting_jobs == old(run).waiting_jobs,
        success ==> final(run).free_capacity == old(run).free_capacity - 1 && r is None,
        !success ==> final(run).free_capacity == old(run).free_capacity && r == Some(
            JobCompletionStatus::CreateError,
        ),
{
}

/// What is known of a job, under its namespace and name.
pub open spec fn known_of(queue: JobsQueue, ns: Seq<char>, name: Seq<char>) -> Option<JobStatus> {
    if queue.statuses@.contains_key(ns + "/"@ + name) {
        Some(queue.statuses@[ns + "/"@ + name])
    } else {
        None
    }
}

/// The job is known, and neither has succeeded nor has failed.
pub open spec fn is_at_work(status: Option<JobStatus>) -> bool {
    status matches Some(s) && s.succeeded is None && s.failed is None
}

/// A job ends once: when one that was at work is seen to have succeeded or failed, or is gone. Success
/// counts before failure.
pub proof fn law_end_of_a_job_is_told_once(
    queue: &mut JobsQueue,
    ns: &str,
    name: &str,
    news: Option<JobStatus>,
    r: Option<JobCompletionStatus>,
)
    requires
        call_ensures(JobsQueue::observe, (queue, ns, name, news), r),
    ensures
        r == (if is_at_work(known_of(*old(queue), ns@, name@)) {
            match news {
                Some(status) => if status.succeeded is Some {
                    Some(JobCompletionStatus::Succeed)
                } else if status.failed is Some {
                    Some(JobCompletionStatus::Failed)
                } else {
                    None
                },
                None => Some(JobCompletionStatus::Deleted),
            }
        } else {
            None
        }),
{
}

/// The number of running jobs goes up by one when a job is first seen at work, down by one when one
/// that was at work isn't any more, and is otherwise left alone. It is always the number of the jobs
/// that are known to be at work.
pub proof fn law_running_jobs_are_those_at_work(
    queue: &mut JobsQueue,
    ns: &str,
    name: &str,
    news: Option<JobStatus>,
    r: Option<JobCompletionStatus>,
)
    requires
        call_ensures(JobsQueue::observe, (queue, ns, name, news), r),
    ensures
        final(queue).running_jobs == old(queue).running_jobs + (if is_at_work(news) {
            1int
        } else {
            0
        }) - (if is_at_work(known_of(*old(queue), ns@, name@)) {
            1int
        } else {
            0
        }),
        final(queue).running_jobs == final(queue).statuses@.dom().filter(
            |key: Seq<char>| is_at_work(Some(final(queue).statuses@[key])),
        ).len(),
        match news {
            Some(status) => final(queue).statuses@ == old(queue).statuses@.insert(ns@ + "/"@ + name@, status),
            None => final(queue).statuses@ == old(queue).statuses@.remove(ns@ + "/"@ + name@),
        },
        final(queue).items == old(queue).items,
        final(queue).identity == old(queue).identity,
        final(queue).watched == old(queue).watched,
{
    assert(unfinished(final(queue).statuses@) =~= final(queue).statuses@.dom().filter(
        |key: Seq<char>| is_at_work(Some(final(queue).statuses@[key])),
    ));
}

/// A new queue is empty, and nothing is known to run.
pub proof fn law_new_queue_is_empty(identity: String, r: JobsQueue)
    requires
        call_ensures(JobsQueue::new, (identity,), r),
    ensures
        r.identity == identity,
        r.items@.len() == 0,
        r.running_jobs == 0,
        forall|key: Seq<char>| !#[trigger] r.statuses@.contains_key(key),
        r.watched,
{
}

/// The controller watches the jobs with the label that it gives to those that it enqueues.
pub proof fn law_controller_watches_its_own_jobs(queue: &JobsQueue, r: String)
    requires
        call_ensures(JobsQueue::job_selector, (queue,), r),
    ensures
        r@ == "git-events-runner.rs/controller-identity"@ + "="@ + queue.identity@,
{
}

/// The item is the job, to run in the namespace and labelled with the controller's identity, but
/// otherwise as it was.
pub open spec fn holds_job(
    item: JobsQueueItem,
    job: Job,
    ns: Seq<char>,
    identity: String,
    expire_after: Option<Duration>,
    now: Timestamp,
) -> bool {
    &&& item.enqueued_at == now
    &&& item.expire_after == expire_after
    &&& item.job.namespace matches Some(namespace) && namespace@ == ns
    &&& item.job.labels@.contains_key("git-events-runner.rs/controller-identity"@)
    &&& item.job.labels@["git-events-runner.rs/controller-identity"@] == identity
    &&& forall|key: Seq<char>|
        key != "git-events-runner.rs/controller-identity"@ ==> {
            &&& #[trigger] item.job.labels@.contains_key(key) == job.labels@.contains_key(key)
            &&& job.labels@.contains_key(key) ==> item.job.labels@[key] == job.labels@[key]
        }
    &&& item.job.name == job.name
    &&& item.job.annotations == job.annotations
    &&& item.job.owner_reference == job.owner_reference
    &&& item.job.backoff_limit == job.backoff_limit
    &&& item.job.parallelism == job.parallelism
    &&& item.job.ttl_seconds_after_finished == job.ttl_seconds_after_finished
    &&& item.job.active_deadline_seconds == job.active_deadline_seconds
    &&& item.job.pod_metadata == job.pod_metadata
    &&& item.job.pod == job.pod
}

/// The queue has one more job, behind all others, which are what they were.
pub open spec fn has_one_more(before: Seq<JobsQueueItem>, after: Seq<JobsQueueItem>) -> bool {
    &&& after.len() == before.len() + 1
    &&& forall|i: int| 0 <= i < before.len() ==> #[trigger] after[i] == before[i]
}

/// A job comes into the queue behind all others. Where nobody waits for jobs that is an error.
pub proof fn law_job_comes_last(
    queue: &mut JobsQueue,
    job: Job,
    ns: &str,
    expire_after: Option<Duration>,
    now: Timestamp,
    r: Result<(), Error>,
)
    requires
        call_ensures(JobsQueue::enqueue, (Some(queue), job, ns, expire_after, now), r),
    ensures
        has_one_more(old(queue).items@, final(queue).items@),
        holds_job(final(queue).items@[old(queue).items@.len() as int], job, ns@, old(queue).identity, expire_after, now),
        final(queue).running_jobs == old(queue).running_jobs,
        final(queue).statuses == old(queue).statuses,
        final(queue).identity == old(queue).identity,
        final(queue).watched == old(queue).watched,
        old(queue).watched == r is Ok,
        r matches Err(e) ==> (e matches Error::JobsQueueError(text) && text@ == "channel closed"@),
{
    assert forall|i: int| 0 <= i < old(queue).items@.len() implies #[trigger] final(queue).items@[i]
        == old(queue).items@[i] by {
        assert(final(queue).items@.drop_last()[i] == final(queue).items@[i]);
    }
}

/// Without a queue no job can be enqueued.
pub proof fn law_no_queue_takes_no_job(
    job: Job,
    ns: &str,
    expire_after: Option<Duration>,
    now: Timestamp,
    r: Result<(), Error>,
)
    requires
        call_ensures(JobsQueue::enqueue, (None::<&mut JobsQueue>, job, ns, expire_after, now), r),
    ensures
        r matches Err(Error::JobsQueueError(text)) && text@ == "jobs queue isn't initialized"@,
{
}

/// The labels have the same texts, and besides them the controller's identity.
pub open spec fn is_also_labelled(
    labels: Map<Seq<char>, String>,
    before: Map<Seq<char>, String>,
    identity: String,
) -> bool {
    let own = "git-events-runner.rs/controller-identity"@;
    &&& labels.contains_key(own) && labels[own] == identity
    &&& forall|key: Seq<char>|
        key != own ==> {
            &&& #[trigger] labels.contains_key(key) == before.contains_key(key)
            &&& before.contains_key(key) ==> labels[key]@ == before[key]@
        }
}

proof fn lemma_also_labelled(
    labels: Map<Seq<char>, String>,
    before: Map<Seq<char>, String>,
    same: Map<Seq<char>, String>,
    identity: String,
)
    requires
        labels == before.insert("git-events-runner.rs/controller-identity"@, identity),
        text_map(before) == text_map(same),
    ensures
        is_also_labelled(labels, same, identity),
{
    let own = "git-events-runner.rs/controller-identity"@;
    assert forall|key: Seq<char>| key != own implies {
        &&& #[trigger] labels.contains_key(key) == same.contains_key(key)
        &&& same.contains_key(key) ==> labels[key]@ == same[key]@
    } by {
        assert(text_map(before).contains_key(key) == before.contains_key(key));
        assert(text_map(same).contains_key(key) == same.contains_key(key));
        if before.contains_key(key) {
            assert(text_map(before)[key] == before[key]@);
            assert(text_map(same)[key] == same[key]@);
        }
    }
}

/// Running an action puts one job into the queue, behind all others, in the namespace of the trigger. It
/// may wait as long as the action says, if the action says so.
pub proof fn law_action_is_enqueued<A: ActionExecutor>(
    queue: &mut JobsQueue,
    action: &A,
    config: &RuntimeConfig,
    occasion: &Occasion,
    now: Timestamp,
    r: Result<(), Error>,
    created: Job,
)
    requires
        call_ensures(run_action::<A>, (queue, action, config, occasion, now), r),
        call_ensures(A::create_job_spec, (action, config, occasion), created),
        action.the_meta().name is Some,
    ensures
        has_one_more(old(queue).items@, final(queue).items@),
        final(queue).running_jobs == old(queue).running_jobs,
        final(queue).statuses == old(queue).statuses,
        final(queue).identity == old(queue).identity,
        final(queue).watched == old(queue).watched,
        r is Ok == old(queue).watched,
        r matches Err(e) ==> (e matches Error::JobsQueueError(text) && text@ == "channel closed"@),
        final(queue).items@.last().enqueued_at == now,
        final(queue).items@.last().job.namespace matches Some(namespace) && namespace@ == occasion.namespace@,
        match action.the_job().job_waiting_timeout_seconds {
            Some(seconds) => final(queue).items@.last().expire_after matches Some(length) && length.secs == seconds
                && length.nanos == 0,
            None => final(queue).items@.last().expire_after is None,
        },
        is_name_for_a_job(final(queue).items@.last().job.name@, action.the_meta().name->0@),
        same_work(final(queue).items@.last().job, created),
        is_also_labelled(final(queue).items@.last().job.labels@, created.labels@, old(queue).identity),
{
    assert forall|i: int| 0 <= i < old(queue).items@.len() implies #[trigger] final(queue).items@[i]
        == old(queue).items@[i] by {
        assert(final(queue).items@.drop_last()[i] == final(queue).items@[i]);
    }
    let item = final(queue).items@.last();
    let job = choose|job: Job|
        crate::resources::action::is_job_name(job.name@, action.the_meta().any_name())
            && #[trigger] crate::resources::action::is_job(job, *action, *config, *occasion)
            && crate::jobs::is_enqueued(
            final(queue).items@.last(),
            job,
            occasion.namespace@,
            old(queue).identity,
            match action.the_job().job_waiting_timeout_seconds {
                Some(seconds) => Some(Duration { secs: seconds, nanos: 0 }),
                None => None,
            },
            now,
        );
    lemma_name_for_a_job(job.name@, action.the_meta().name->0@);
    lemma_also_labelled(item.job.labels@, job.labels@, created.labels@, old(queue).identity);
}

/// A job that has ended is counted by its labels.
pub proof fn law_ended_job_is_counted_by_its_labels(
    namespace: &str,
    labels: &StringMap<String>,
    status: JobCompletionStatus,
    r: Vec<String>,
)
    requires
        call_ensures(completed_labels, (namespace, labels, status), r),
    ensures
        r@.len() == 8,
        r@[0]@ == namespace@,
        r@[1]@ == labels@["git-events-runner.rs/trigger-kind"@]@,
        r@[2]@ == labels@["git-events-runner.rs/trigger-name"@]@,
        r@[3]@ == labels@["git-events-runner.rs/source-kind"@]@,
        r@[4]@ == labels@["git-events-runner.rs/source-name"@]@,
        r@[5]@ == labels@["git-events-runner.rs/action-kind"@]@,
        r@[6]@ == labels@["git-events-runner.rs/action-name"@]@,
        match status {
            JobCompletionStatus::Succeed => r@[7]@ == "Succeed"@,
            JobCompletionStatus::Failed => r@[7]@ == "Failed"@,
            JobCompletionStatus::Expired => r@[7]@ == "Expired"@,
            JobCompletionStatus::Deleted => r@[7]@ == "Deleted"@,
            JobCompletionStatus::CreateError => r@[7]@ == "CreateError"@,
        },
{
    let views = crate::text::views(r@);
    assert(views.len() == 8);
    assert(views[0] == r@[0]@ && views[1] == r@[1]@ && views[2] == r@[2]@ && views[3] == r@[3]@);
    assert(views[4] == r@[4]@ && views[5] == r@[5]@ && views[6] == r@[6]@ && views[7] == r@[7]@);
}

/// Only jobs that ran to their end are measured, from their start on, unless that lies in the future.
pub proof fn law_time_of_a_job_is_measured(
    status: JobCompletionStatus,
    start: Option<Timestamp>,
    now: Timestamp,
    r: Option<Duration>,
)
    requires
        call_ensures(completed_duration, (status, start, now), r),
    ensures
        r matches Some(length) ==> (status == JobCompletionStatus::Succeed || status
            == JobCompletionStatus::Failed) && (start matches Some(t) && length_nanos(length) == point_nanos(now)
            - point_nanos(t) && length.nanos < 1_000_000_000),
        (status == JobCompletionStatus::Succeed || status == JobCompletionStatus::Failed) && (start matches Some(
            t,
        ) && point_nanos(t) <= point_nanos(now)) ==> r is Some,
{
}

} // verus!
