//! Queue of jobs.
use git_events_runner::config::RuntimeConfig;
use git_events_runner::jobs::{
    completed_duration, completed_labels, run_action, JobCompletionStatus, JobStatus, JobsQueue, JobsQueueItem,
    QueueRequest, QueueRun,
};
use git_events_runner::resources::action::{Action, ActionExecutor, ActionJob, ActionSpec, Job, Occasion};
use git_events_runner::resources::trigger::{TriggerGitRepoReference, TriggerSourceKind};
use git_events_runner::resources::ObjectMeta;
use git_events_runner::time::{Duration, Timestamp};
use git_events_runner::Error;

fn at(secs: i64) -> Timestamp {
    Timestamp { secs, nanos: 0 }
}

fn action() -> Action {
    let mut metadata = ObjectMeta::named("deploy", Some("ns".to_string()));
    metadata.uid = Some("uid".to_string());
    Action {
        metadata,
        spec: ActionSpec {
            source_override: None,
            action_job: ActionJob::default(),
        },
    }
}

fn occasion() -> Occasion {
    Occasion {
        source_kind: TriggerSourceKind::GitRepo,
        source_name: "repo".to_string(),
        source_commit: "c0".to_string(),
        trigger_ref: TriggerGitRepoReference::default(),
        namespace: "trigger-ns".to_string(),
        trigger_kind: "WebhookTrigger".to_string(),
        trigger_name: "hook".to_string(),
    }
}

fn job(name: &str) -> Job {
    action().named_job_spec(&RuntimeConfig::default(), &occasion(), name.to_string())
}

fn status(succeeded: Option<i32>, failed: Option<i32>, rest: &str) -> Option<JobStatus> {
    Some(JobStatus {
        succeeded,
        failed,
        rest: rest.to_string(),
    })
}

fn queue_of(names: &[&str]) -> JobsQueue {
    let mut queue = JobsQueue::new("me".to_string());
    for name in names {
        JobsQueue::enqueue(Some(&mut queue), job(name), "ns", None, at(0)).unwrap();
    }
    queue
}

#[test]
fn enqueued_jobs_are_marked() {
    let queue = queue_of(&["a", "b"]);
    assert_eq!(queue.items.len(), 2);
    assert_eq!(queue.items[0].job.name, "a");
    assert_eq!(queue.items[1].job.name, "b");
    assert_eq!(queue.items[0].job.namespace, Some("ns".to_string()));
    assert_eq!(
        queue.items[0].job.labels.get("git-events-runner.rs/controller-identity"),
        Some(&"me".to_string())
    );
    assert_eq!(queue.job_selector(), "git-events-runner.rs/controller-identity=me");
    match JobsQueue::enqueue(None, job("c"), "ns", None, at(0)) {
        Err(Error::JobsQueueError(text)) => assert_eq!(text, "jobs queue isn't initialized"),
        other => panic!("unexpected result {other:?}"),
    }
}

#[test]
fn jobs_wait_in_a_queue_that_nobody_watches() {
    let mut queue = JobsQueue::new("me".to_string());
    queue.watched = false;
    let result = JobsQueue::enqueue(Some(&mut queue), job("a"), "ns", None, at(0));
    assert!(matches!(result, Err(Error::JobsQueueError(text)) if text == "channel closed"));
    assert_eq!(queue.items.len(), 1);
}

#[test]
fn actions_put_their_jobs_into_the_queue() {
    let mut queue = JobsQueue::new("me".to_string());
    let mut action = action();
    action.spec.action_job.job_waiting_timeout_seconds = Some(7);
    run_action(&mut queue, &action, &RuntimeConfig::default(), &occasion(), at(5)).unwrap();
    let item = &queue.items[0];
    assert_eq!(item.job.namespace, Some("trigger-ns".to_string()));
    assert!(item.job.name.starts_with("deploy-"));
    assert_eq!(item.enqueued_at, at(5));
    assert_eq!(item.expire_after, Some(Duration::from_secs(7)));
}

#[test]
fn jobs_expire() {
    let config = RuntimeConfig::default();
    let mut item = JobsQueueItem {
        job: job("a"),
        enqueued_at: at(100),
        expire_after: None,
    };
    assert!(!item.is_expired(&config, at(400)));
    assert!(item.is_expired(&config, Timestamp { secs: 400, nanos: 1 }));
    assert!(!item.is_expired(&config, at(0)));
    item.expire_after = Some(Duration::from_millis(1500));
    assert!(!item.is_expired(&config, Timestamp { secs: 101, nanos: 500_000_000 }));
    assert!(item.is_expired(&config, at(102)));
}

#[test]
fn queue_runs_jobs_in_order_up_to_the_limit() {
    let mut config = RuntimeConfig::default();
    config.action.max_running_jobs = 3;
    let mut queue = queue_of(&["a", "b", "c", "d"]);
    queue.observe("ns", "earlier", status(None, None, "running"));
    let mut run = queue.run_queue(&config).unwrap();
    assert_eq!(run, QueueRun { free_capacity: 2, waiting_jobs: 4 });
    let mut created: Vec<String> = Vec::new();
    loop {
        match run.next(&mut queue, &config, at(10)) {
            QueueRequest::Create(job, waited) => {
                assert_eq!(waited, Duration::from_secs(10));
                // The second one can't be created.
                let ended = run.created(job.name != "b");
                let expected = if job.name == "b" {
                    Some(JobCompletionStatus::CreateError)
                } else {
                    None
                };
                assert_eq!(ended, expected);
                created.push(job.name);
            }
            QueueRequest::CountExpired(_) => panic!("nothing has expired"),
            QueueRequest::Finish => break,
        }
    }
    assert_eq!(created, vec!["a", "b", "c"]);
    assert_eq!(queue.items.len(), 1);
    for name in ["a", "c", "more"] {
        queue.observe("ns", name, status(None, None, "running"));
    }
    assert_eq!(queue.running_jobs, 4);
    assert!(queue.run_queue(&config).is_none());
}

#[test]
fn expired_jobs_take_no_room() {
    let mut config = RuntimeConfig::default();
    config.action.max_running_jobs = 1;
    let mut queue = queue_of(&["old"]);
    JobsQueue::enqueue(Some(&mut queue), job("new"), "ns", None, at(1000)).unwrap();
    let mut run = queue.run_queue(&config).unwrap();
    match run.next(&mut queue, &config, at(1001)) {
        QueueRequest::CountExpired(job) => assert_eq!(job.name, "old"),
        other => panic!("unexpected request {other:?}"),
    }
    match run.next(&mut queue, &config, at(1001)) {
        QueueRequest::Create(job, _) => assert_eq!(job.name, "new"),
        other => panic!("unexpected request {other:?}"),
    }
    assert_eq!(run.created(true), None);
    assert!(matches!(run.next(&mut queue, &config, at(1001)), QueueRequest::Finish));
}

#[test]
fn running_jobs_are_counted() {
    let mut queue = JobsQueue::new("me".to_string());
    assert_eq!(queue.observe("ns", "a", status(None, None, "new")), None);
    assert_eq!(queue.observe("ns", "b", status(None, None, "new")), None);
    assert_eq!(queue.observe("other", "a", status(None, None, "new")), None);
    assert_eq!(queue.running_jobs, 3);
    assert_eq!(queue.observe("ns", "a", status(None, None, "started")), None);
    assert_eq!(queue.running_jobs, 3);
    assert_eq!(
        queue.observe("ns", "a", status(Some(1), None, "done")),
        Some(JobCompletionStatus::Succeed)
    );
    assert_eq!(queue.observe("ns", "a", status(Some(1), None, "done")), None);
    assert_eq!(
        queue.observe("ns", "b", status(None, Some(1), "done")),
        Some(JobCompletionStatus::Failed)
    );
    assert_eq!(queue.running_jobs, 1);
    assert_eq!(queue.observe("ns", "a", None), None);
    assert_eq!(queue.observe("other", "a", None), Some(JobCompletionStatus::Deleted));
    assert_eq!(queue.running_jobs, 0);
    assert_eq!(queue.observe("unknown", "x", None), None);
}

#[test]
fn jobs_end_once() {
    let mut queue = JobsQueue::new("me".to_string());
    assert_eq!(queue.observe("ns", "a", status(None, None, "running")), None);
    assert_eq!(queue.observe("ns", "b", status(None, None, "running")), None);
    assert_eq!(
        queue.observe("ns", "a", status(Some(1), None, "done")),
        Some(JobCompletionStatus::Succeed)
    );
    assert_eq!(queue.running_jobs, 1);
    assert_eq!(queue.observe("ns", "a", status(Some(1), None, "changed")), None);
    assert_eq!(queue.observe("ns", "a", status(Some(1), Some(1), "changed again")), None);
    assert_eq!(queue.observe("ns", "a", None), None);
    assert_eq!(queue.running_jobs, 1);
}

#[test]
fn jobs_that_are_found_done_do_not_run() {
    let mut queue = JobsQueue::new("me".to_string());
    assert_eq!(queue.observe("ns", "a", status(Some(1), None, "first seen done")), None);
    assert_eq!(queue.running_jobs, 0);
    assert_eq!(queue.observe("ns", "a", status(Some(1), None, "changed")), None);
    assert_eq!(queue.running_jobs, 0);
    // A job of the same name that runs is another one.
    assert_eq!(queue.observe("ns", "a", status(None, None, "running")), None);
    assert_eq!(queue.running_jobs, 1);
    assert_eq!(
        queue.observe("ns", "a", status(None, Some(1), "failed")),
        Some(JobCompletionStatus::Failed)
    );
    assert_eq!(queue.running_jobs, 0);
}

#[test]
fn metrics_of_ended_jobs_have_labels() {
    let job = job("a");
    assert_eq!(
        completed_labels("ns", &job.labels, JobCompletionStatus::CreateError),
        vec![
            "ns",
            "WebhookTrigger",
            "hook",
            "GitRepo",
            "repo",
            "Action",
            "deploy",
            "CreateError"
        ]
    );
    let names: Vec<String> = [
        JobCompletionStatus::Succeed,
        JobCompletionStatus::Failed,
        JobCompletionStatus::Expired,
        JobCompletionStatus::Deleted,
    ]
    .iter()
    .map(|s| s.to_string())
    .collect();
    assert_eq!(names, vec!["Succeed", "Failed", "Expired", "Deleted"]);
}

#[test]
fn time_of_ended_jobs_is_measured() {
    let length = completed_duration(JobCompletionStatus::Failed, Some(at(3)), at(10));
    assert_eq!(length, Some(Duration::from_secs(7)));
    assert_eq!(completed_duration(JobCompletionStatus::Deleted, Some(at(3)), at(10)), None);
    assert_eq!(completed_duration(JobCompletionStatus::Succeed, Some(at(30)), at(10)), None);
    assert_eq!(completed_duration(JobCompletionStatus::Succeed, None, at(10)), None);
}
