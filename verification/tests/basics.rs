//! Leadership, the cloner, metrics, errors and basic types.
use git_events_runner::cloner::{CloneTask, ReferenceValue};
use git_events_runner::leader::{
    lease_outcome, LeaderEvent, LeaderLock, LeaderLoop, LeaderStep, LeaseOutcome, LockEvent,
};
use git_events_runner::metrics::Metric;
use git_events_runner::resources::trigger::TriggerSourceKind;
use git_events_runner::string_map::StringMap;
use git_events_runner::text::{parse_unsigned, split, starts_with};
use git_events_runner::time::{parse_rfc3339, Duration, Timestamp};
use git_events_runner::{Error, KubeError};

fn api_error(code: u16) -> KubeError {
    KubeError::Api {
        code,
        response: "response".to_string(),
        text: "text".to_string(),
    }
}

#[test]
fn lease_may_be_there_already() {
    assert!(matches!(lease_outcome(Ok(())), LeaseOutcome::Created));
    assert!(matches!(lease_outcome(Err(api_error(409))), LeaseOutcome::Assumed));
    assert!(matches!(lease_outcome(Err(api_error(403))), LeaseOutcome::Refused(_)));
    let other = KubeError::Other {
        text: "down".to_string(),
    };
    assert!(matches!(lease_outcome(Err(other)), LeaseOutcome::Assumed));
}

#[test]
fn lock_tells_of_changes() {
    let mut lock = LeaderLock::new("me".to_string(), None);
    assert_eq!(lock.namespace, "default");
    assert_eq!(lock.name, "git-events-runner-leader-lock");
    assert!(!lock.is_locked());
    assert_eq!(lock.wait_for_change(LockEvent::Claim(false)), None);
    assert_eq!(lock.wait_for_change(LockEvent::Claim(true)), Some(Ok(true)));
    assert!(lock.is_locked());
    assert_eq!(lock.wait_for_change(LockEvent::Claim(true)), None);
    assert_eq!(lock.wait_for_change(LockEvent::Shutdown), Some(Err(())));
    assert_eq!(lock.wait_for_change(LockEvent::Closed), Some(Err(())));
    assert!(lock.is_locked());
    assert_eq!(LeaderLock::new("me".to_string(), Some("ns".to_string())).namespace, "ns");
}

#[test]
fn main_loop_follows_the_leadership() {
    let mut state = LeaderLoop::enter(true);
    assert!(state.ready);
    assert_eq!(state.on_event(LeaderEvent::Leadership(true)), LeaderStep::Wait);
    assert_eq!(
        state.on_event(LeaderEvent::Leadership(false)),
        LeaderStep::Leave {
            stop_controllers: true,
            shutdown_all: false,
            exit: false
        }
    );
    let mut state = LeaderLoop::enter(false);
    assert_eq!(state.on_event(LeaderEvent::ChannelClosed), LeaderStep::Wait);
    assert!(state.shutdown);
    assert_eq!(
        state.on_event(LeaderEvent::Signal),
        LeaderStep::Leave {
            stop_controllers: false,
            shutdown_all: true,
            exit: true
        }
    );
}

fn reference(branch: Option<&str>, tag: Option<&str>, commit: Option<&str>) -> ReferenceValue {
    ReferenceValue {
        branch: branch.map(String::from),
        tag: tag.map(String::from),
        commit: commit.map(String::from),
    }
}

#[test]
fn cloner_knows_what_to_clone() {
    let branch = reference(Some("main"), Some("v1"), None);
    assert_eq!(branch.to_reference().to_string(), "branch/main");
    assert_eq!(branch.to_name(), "main");
    let tag = reference(None, Some("v1"), Some("c"));
    assert_eq!(tag.to_reference().to_string(), "tag/v1");
    assert_eq!(tag.to_name(), "v1");
    let commit = reference(None, None, Some("c"));
    assert_eq!(commit.to_reference().to_string(), "commit/c");
    assert_eq!(commit.to_name(), "c");
    for value in [&branch, &tag, &commit] {
        assert_eq!(&value.to_name(), value.to_reference().to_refname(None).1);
    }
    let mut task = CloneTask {
        source_kind: TriggerSourceKind::GitRepo,
        source_name: "repo".to_string(),
        reference: commit,
        destination: "/work".to_string(),
        preserve_git_folder: false,
    };
    let ns = "ns".to_string();
    assert_eq!(task.repo_name(&ns), "ns/repo");
    assert_eq!(task.source_namespace(&ns), Some("ns".to_string()));
    assert_eq!(task.folder_to_remove(), Some("/work/.git".to_string()));
    task.preserve_git_folder = true;
    task.source_kind = TriggerSourceKind::ClusterGitRepo;
    assert_eq!(task.repo_name(&ns), "repo");
    assert_eq!(task.source_namespace(&ns), None);
    assert_eq!(task.folder_to_remove(), None);
}

#[test]
fn metrics_have_names_and_labels() {
    assert_eq!(Metric::JobsQueueLimit.name("p"), "p_jobs_queue_limit");
    assert_eq!(Metric::JobsQueueRunningJobs.name("p"), "p_jobs_queue_running");
    assert_eq!(Metric::JobsQueueWaitingJobs.name("p"), "p_jobs_queue_waiting");
    assert_eq!(
        Metric::WebhookRequestsCount.name("git_events_runner"),
        "git_events_runner_webhook_requests_count"
    );
    assert_eq!(Metric::JobsQueueLimit.labels().len(), 0);
    assert_eq!(
        Metric::ReconcileDuration.labels(),
        vec!["namespace", "resource_kind", "resource_name"]
    );
    assert_eq!(
        Metric::TriggerCheckCount.labels(),
        vec!["namespace", "trigger_kind", "trigger_name"]
    );
    assert_eq!(Metric::WebhookRequestsDuration.labels(), vec!["namespace", "trigger_name", "status"]);
    assert_eq!(Metric::JobsQueueCompletedCount.labels().len(), 8);
    assert_eq!(Metric::FailedReconcileCount.help(), "The number failed reconciliations");
}

#[test]
fn errors_describe_themselves() {
    let t = || "x".to_string();
    let cases = [
        (Error::KubeError(api_error(500)), "Kube Error: text"),
        (Error::LeaseManagerError(t()), "LeaseManager Error: x"),
        (Error::FinalizerError(t()), "Finalizer Error: x"),
        (Error::GitrepoAccessError(t()), "GitRepo Access Error: x"),
        (Error::SecretDecodingError(t()), "GitRepo Secret Decoding Error: x"),
        (Error::RuntimeConfigFormatError, "RuntimeConfig ConfigMap format Error"),
        (Error::TriggerFileAccessError(t()), "Trigger file access IO error: x"),
        (Error::TriggerDirWalkError(t()), "Trigger dir walk error: x"),
        (Error::TriggerFilePatternError(t()), "Trigger file pattern error: x"),
        (Error::SchedulerError(t()), "Task scheduler error: x"),
        (Error::ConfigDeserializationError(t()), "Config deserialization error: x"),
        (Error::ResourceNotFoundError(t()), "Resource not found in cache: x"),
        (Error::JobsQueueError(t()), "JobsQueue error: x"),
        (
            Error::InvalidRequestRateLimit(t()),
            "Incorrect request rate limit parameter: x",
        ),
    ];
    for (error, text) in cases {
        assert_eq!(error.to_string(), text);
    }
}

#[test]
fn maps_keep_one_value_per_key() {
    let mut map: StringMap<u32> = StringMap::new();
    map.insert("a".to_string(), 1);
    map.insert("b".to_string(), 2);
    map.insert("a".to_string(), 3);
    assert_eq!(map.len(), 2);
    assert_eq!(map.get("a"), Some(&3));
    let mut other: StringMap<u32> = StringMap::new();
    other.insert("b".to_string(), 5);
    other.insert("c".to_string(), 6);
    map.extend(other);
    assert_eq!(map.get("b"), Some(&5));
    assert_eq!(map.len(), 3);
    assert_eq!(map.remove("a"), Some(3));
    assert_eq!(map.remove("a"), None);
    assert!(!map.contains_key("a"));
    let copy = map.clone();
    let kept = copy.restricted_to(&vec!["c".to_string(), "d".to_string()]);
    assert_eq!(kept.len(), 1);
    let (key, value) = kept.entry(0);
    assert_eq!((key.as_str(), *value), ("c", 6));
    assert_eq!(map.len(), 2);
}

#[test]
fn texts_are_split_and_read() {
    assert_eq!(split("", '/'), vec![""]);
    assert_eq!(split("/a//b", '/'), vec!["", "a", "", "b"]);
    assert_eq!(split("ä/ö", '/'), vec!["ä", "ö"]);
    assert_eq!(parse_unsigned("0042", 100), Some(42));
    assert_eq!(parse_unsigned("101", 100), None);
    assert_eq!(parse_unsigned("18446744073709551615", u64::MAX), Some(u64::MAX));
    assert_eq!(parse_unsigned("18446744073709551616", u64::MAX), None);
    assert_eq!(parse_unsigned("1", 0), None);
    assert_eq!(parse_unsigned("", 9), None);
    assert!(starts_with("https://x", "https://"));
    assert!(!starts_with("http", "https"));
}

#[test]
fn times_are_added_and_subtracted() {
    let t = Timestamp {
        secs: -1,
        nanos: 900_000_000,
    };
    let later = t.after(Duration::from_millis(200));
    assert_eq!(
        later,
        Timestamp {
            secs: 0,
            nanos: 100_000_000
        }
    );
    assert_eq!(later.since(t), Duration::from_millis(200));
    assert!(t.is_before(later));
    assert!(!later.is_before(later));
    assert_eq!(
        Duration::from_millis(100).saturating_sub(Duration::from_millis(300)),
        Duration::from_secs(0)
    );
    assert_eq!(
        Duration::from_secs(2).saturating_sub(Duration::from_millis(1)),
        Duration::from_millis(1999)
    );
    assert_eq!(
        parse_rfc3339("1969-12-31T23:59:59.25Z"),
        Some(Timestamp {
            secs: -1,
            nanos: 250_000_000
        })
    );
    assert_eq!(parse_rfc3339("Never"), None);
}
