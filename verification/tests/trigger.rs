//! Triggers: schedules, statuses and runs.
use git_events_runner::resources::content::{
    calc_buffer_hash, commit_search_from_oid, get_file_glob_hash, get_file_hash, get_latest_commit, CommitOutcome,
    CommitSearch,
};
use git_events_runner::resources::interval::is_interval_in_range;
use git_events_runner::resources::random_string;
use git_events_runner::resources::trigger::{
    cron_schedule, interval_schedule, updated_status, CheckedSourceState, ScheduleTrigger,
    ScheduleTriggerSpec, TaskSchedule, Trigger, TriggerAction, TriggerActionKind, TriggerGitRepoReference,
    TriggerSchedule, TriggerSourceKind, TriggerSources, TriggerState, TriggerStatus, TriggerTaskSources, TriggerWatchOn,
    TriggerWebhook, WebhookTrigger, WebhookTriggerSpec,
};
use git_events_runner::resources::trigger_task::{
    create_trigger_task, requested_status, unique_names, RunEvent, RunPhase, RunRequest, TriggerRun, TriggerTask,
};
use git_events_runner::resources::ObjectMeta;
use git_events_runner::string_map::StringMap;
use git_events_runner::time::{Duration, Timestamp};
use git_events_runner::Error;
use sha2::{Digest, Sha256};
use std::collections::HashSet;

const TEST_NAMESPACE: &str = "triggers-test";

fn strings(values: &[&str]) -> Vec<String> {
    values.iter().map(|v| v.to_string()).collect()
}

fn webhook(name: &str, sources: &[&str]) -> WebhookTrigger {
    let mut trigger_sources = TriggerSources::default();
    trigger_sources.names = strings(sources);
    WebhookTrigger {
        metadata: ObjectMeta::named(name, Some(TEST_NAMESPACE.to_string())),
        spec: WebhookTriggerSpec {
            sources: trigger_sources,
            webhook: TriggerWebhook {
                multi_source: true,
                auth_config: None,
            },
            action: TriggerAction {
                kind: TriggerActionKind::Action,
                name: "deploy".to_string(),
            },
        },
        status: None,
    }
}

fn checked(commit: &str, file: Option<&str>, changed: &str) -> CheckedSourceState {
    CheckedSourceState {
        commit_hash: Some(commit.to_string()),
        file_hash: file.map(String::from),
        changed: Some(changed.to_string()),
    }
}

fn sources(entries: Vec<(&str, CheckedSourceState)>) -> StringMap<CheckedSourceState> {
    let mut map = StringMap::new();
    for (name, state) in entries {
        map.insert(name.to_string(), state);
    }
    map
}

fn patch(trigger: &mut WebhookTrigger, state: Option<TriggerState>, checked: Option<StringMap<CheckedSourceState>>, last_run: Option<Timestamp>) {
    let patch = trigger.update_trigger_status(Ok(trigger), state, checked, last_run).unwrap();
    assert_eq!(patch.name, trigger.metadata.name_any());
    assert_eq!(patch.api_version, "git-events-runner.rs/v1alpha1");
    assert_eq!(patch.kind, "WebhookTrigger");
    trigger.status = Some(patch.status);
}

fn status(trigger: &WebhookTrigger) -> &TriggerStatus {
    trigger.status.as_ref().unwrap()
}

type Checked<'a> = (&'a str, &'a str, Option<&'a str>, &'a str);

// The whole status: its state, the time of the last run, and all sources that were checked.
fn assert_status(trigger: &WebhookTrigger, state: TriggerState, last_run: &str, checked: &[Checked]) {
    let status = status(trigger);
    assert_eq!(status.state, state);
    assert_eq!(status.last_run.as_deref(), Some(last_run));
    assert_eq!(status.checked_sources.len(), checked.len());
    for (name, commit, file, changed) in checked {
        let source = status.checked_sources.get(name).unwrap();
        assert_eq!(source.commit_hash.as_deref(), Some(*commit));
        assert_eq!(source.file_hash.as_deref(), *file);
        assert_eq!(source.changed.as_deref(), Some(*changed));
    }
}

// 2024-01-02T03:04:05Z
const SOME_TIME: Timestamp = Timestamp {
    secs: 1_704_164_645,
    nanos: 999_999_999,
};

#[test]
fn update_trigger_status_state() {
    let mut trigger = webhook("update-trigger-status-state", &[]);
    assert!(trigger.status.is_none());

    patch(&mut trigger, Some(TriggerState::Idle), None, None);
    assert_status(&trigger, TriggerState::Idle, "Never", &[]);

    patch(&mut trigger, None, None, None);
    assert_status(&trigger, TriggerState::Idle, "Never", &[]);
}

#[test]
fn update_trigger_status_last_run() {
    let mut trigger = webhook("update-trigger-status-last-run", &[]);
    assert!(trigger.status.is_none());

    patch(&mut trigger, None, None, Some(SOME_TIME));
    assert_status(&trigger, TriggerState::Idle, "2024-01-02T03:04:05Z", &[]);

    patch(&mut trigger, None, None, None);
    assert_status(&trigger, TriggerState::Idle, "2024-01-02T03:04:05Z", &[]);
}

#[test]
fn update_trigger_status_sources() {
    let mut trigger = webhook("update-trigger-status-sources", &["source-1", "source-2", "source-3"]);
    assert!(trigger.status.is_none());

    patch(
        &mut trigger,
        None,
        Some(sources(vec![
            ("source-1", checked("1234567890", None, "2024-02-03T04:05:06Z")),
        ])),
        None,
    );
    assert_status(
        &trigger,
        TriggerState::Idle,
        "Never",
        &[
            ("source-1", "1234567890", None, "2024-02-03T04:05:06Z"),
        ],
    );

    patch(
        &mut trigger,
        None,
        Some(sources(vec![
            ("source-2", checked("2345678901", Some("some-hash-value"), "2021-02-03T04:05:06Z")),
        ])),
        None,
    );
    assert_status(
        &trigger,
        TriggerState::Idle,
        "Never",
        &[
            ("source-1", "1234567890", None, "2024-02-03T04:05:06Z"),
            ("source-2", "2345678901", Some("some-hash-value"), "2021-02-03T04:05:06Z"),
        ],
    );

    patch(
        &mut trigger,
        None,
        Some(sources(vec![
            ("source-2", checked("2345678901", Some("some-hash-value-2"), "2023-02-03T04:05:06Z")),
            ("source-3", checked("3456789012", Some("some-hash-value-3"), "2022-02-03T04:05:06Z")),
        ])),
        None,
    );
    assert_status(
        &trigger,
        TriggerState::Idle,
        "Never",
        &[
            ("source-1", "1234567890", None, "2024-02-03T04:05:06Z"),
            ("source-2", "2345678901", Some("some-hash-value-2"), "2023-02-03T04:05:06Z"),
            ("source-3", "3456789012", Some("some-hash-value-3"), "2022-02-03T04:05:06Z"),
        ],
    );

    patch(
        &mut trigger,
        None,
        Some(sources(vec![
            ("source-4", checked("2345678901", Some("some-hash-value-4"), "2023-02-03T04:05:06Z")),
        ])),
        None,
    );
    assert_status(
        &trigger,
        TriggerState::Idle,
        "Never",
        &[
            ("source-1", "1234567890", None, "2024-02-03T04:05:06Z"),
            ("source-2", "2345678901", Some("some-hash-value-2"), "2023-02-03T04:05:06Z"),
            ("source-3", "3456789012", Some("some-hash-value-3"), "2022-02-03T04:05:06Z"),
        ],
    );

    patch(
        &mut trigger,
        None,
        Some(sources(vec![
            ("source-1", checked("1111111", Some("some-hash-value-1"), "2020-02-03T23:24:25Z")),
        ])),
        None,
    );
    assert_status(
        &trigger,
        TriggerState::Idle,
        "Never",
        &[
            ("source-1", "1111111", Some("some-hash-value-1"), "2020-02-03T23:24:25Z"),
            ("source-2", "2345678901", Some("some-hash-value-2"), "2023-02-03T04:05:06Z"),
            ("source-3", "3456789012", Some("some-hash-value-3"), "2022-02-03T04:05:06Z"),
        ],
    );

    patch(&mut trigger, None, None, None);
    assert_status(
        &trigger,
        TriggerState::Idle,
        "Never",
        &[
            ("source-1", "1111111", Some("some-hash-value-1"), "2020-02-03T23:24:25Z"),
            ("source-2", "2345678901", Some("some-hash-value-2"), "2023-02-03T04:05:06Z"),
            ("source-3", "3456789012", Some("some-hash-value-3"), "2022-02-03T04:05:06Z"),
        ],
    );
}

#[test]
fn update_trigger_status_everything() {
    let mut trigger = webhook("update-trigger-status-everything", &["source-1", "source-2", "source-3"]);
    assert!(trigger.status.is_none());

    patch(
        &mut trigger,
        None,
        Some(sources(vec![
            ("source-1", checked("1234567890", None, "2024-02-03T04:05:06Z")),
        ])),
        None,
    );
    assert_status(
        &trigger,
        TriggerState::Idle,
        "Never",
        &[
            ("source-1", "1234567890", None, "2024-02-03T04:05:06Z"),
        ],
    );

    patch(&mut trigger, None, None, Some(SOME_TIME));
    assert_status(
        &trigger,
        TriggerState::Idle,
        "2024-01-02T03:04:05Z",
        &[
            ("source-1", "1234567890", None, "2024-02-03T04:05:06Z"),
        ],
    );

    patch(&mut trigger, Some(TriggerState::Running), None, None);
    assert_status(
        &trigger,
        TriggerState::Running,
        "2024-01-02T03:04:05Z",
        &[
            ("source-1", "1234567890", None, "2024-02-03T04:05:06Z"),
        ],
    );

    patch(
        &mut trigger,
        None,
        Some(sources(vec![
            ("source-4", checked("2345678901", Some("some-hash-value-4"), "2023-02-03T04:05:06Z")),
        ])),
        None,
    );
    assert_status(
        &trigger,
        TriggerState::Running,
        "2024-01-02T03:04:05Z",
        &[
            ("source-1", "1234567890", None, "2024-02-03T04:05:06Z"),
        ],
    );

    patch(&mut trigger, None, None, None);
    assert_status(
        &trigger,
        TriggerState::Running,
        "2024-01-02T03:04:05Z",
        &[
            ("source-1", "1234567890", None, "2024-02-03T04:05:06Z"),
        ],
    );
}

#[test]
fn runs_ask_for_statuses() {
    let mut trigger = webhook("t", &["source-1"]);
    let found = ("source-1".to_string(), checked("1", Some("f"), "2024-02-03T04:05:06Z"));
    let patch =
        requested_status(&trigger, Ok(&trigger), Some(TriggerState::Running), Some(found), true, SOME_TIME).unwrap();
    trigger.status = Some(patch.status);
    let known = ("source-1", "1", Some("f"), "2024-02-03T04:05:06Z");
    assert_status(&trigger, TriggerState::Running, "2024-01-02T03:04:05Z", &[known]);
    let later = Timestamp { secs: 2_000_000_000, nanos: 0 };
    let patch = requested_status(&trigger, Ok(&trigger), None, None, false, later).unwrap();
    trigger.status = Some(patch.status);
    assert_status(&trigger, TriggerState::Running, "2024-01-02T03:04:05Z", &[known]);
    let gone = Error::ResourceNotFoundError("t".to_string());
    assert!(requested_status(&trigger, Err(gone), None, None, false, later).is_err());
}

#[test]
fn status_of_a_trigger_that_is_gone_is_not_updated() {
    let trigger = webhook("gone", &[]);
    let error = Error::ResourceNotFoundError("triggers-test/gone".to_string());
    match trigger.update_trigger_status(Err(error), None, None, None) {
        Err(Error::ResourceNotFoundError(text)) => assert_eq!(text, "triggers-test/gone"),
        other => panic!("unexpected result {other:?}"),
    }
}

#[test]
fn first_status_keeps_sources_as_they_are() {
    let map = sources(vec![("elsewhere", checked("1", None, "2024-02-03T04:05:06Z"))]);
    let status = updated_status(&None, &strings(&["here"]), None, Some(map), None);
    assert_eq!(status.checked_sources.len(), 1);
    let status = updated_status(&Some(status), &strings(&["here"]), None, None, None);
    assert_eq!(status.checked_sources.len(), 0);
}

#[test]
fn ensure_100_4ch_random_strings() {
    const SET_SIZE: usize = 100;

    let mut control_set = HashSet::new();
    for _ in 0..SET_SIZE {
        control_set.insert(random_string(4));
    }

    assert_eq!(control_set.len(), SET_SIZE);
}

#[test]
fn random_strings_are_letters_and_digits() {
    let text = random_string(1000);
    assert_eq!(text.len(), 1000);
    assert!(text.chars().all(|c| c.is_ascii_alphanumeric()));
    assert_eq!(random_string(0), "");
}

#[test]
fn file_hasher() {
    let mut hasher = Sha256::new();
    let mut contents: Vec<Result<Vec<u8>, Error>> = Vec::new();
    for i in 0..3 {
        let buf: Vec<u8> = random_string(1024).into();
        let hash = calc_buffer_hash(&buf).unwrap();
        if i != 1 {
            hasher.update(hash);
            contents.push(Ok(buf));
        }
    }
    let expected_hash = hasher.finalize().to_vec();
    assert_eq!(get_file_glob_hash(contents).unwrap(), expected_hash);
}

#[test]
fn hashes_have_known_values() {
    assert_eq!(
        get_file_hash(&b"hello world".to_vec()),
        "b94d27b9934d3e08a52e52d7da7dabfac484efe37a5380ee9088f7ace2efcde9"
    );
    assert_eq!(
        calc_buffer_hash(&Vec::new()).unwrap(),
        get_file_glob_hash(Vec::new()).unwrap()
    );
    let failed = vec![
        Ok(vec![1]),
        Err(Error::TriggerDirWalkError("first".to_string())),
        Err(Error::TriggerDirWalkError("second".to_string())),
    ];
    match get_file_glob_hash(failed) {
        Err(Error::TriggerDirWalkError(text)) => assert_eq!(text, "first"),
        other => panic!("unexpected result {other:?}"),
    }
}

#[test]
fn latest_commit_is_searched_for() {
    match get_latest_commit(&TriggerGitRepoReference::Branch("main".to_string())) {
        CommitSearch::Resolve(name) => assert_eq!(name, "origin/main"),
        other => panic!("unexpected step {other:?}"),
    }
    let search = get_latest_commit(&TriggerGitRepoReference::Tag("v1".to_string()));
    assert!(matches!(&search, CommitSearch::Resolve(name) if name == "v1"));
    let search = search.advance(CommitOutcome::Resolved(Some("abc".to_string())));
    assert!(matches!(&search, CommitSearch::Find(oid) if oid == "abc"));
    let search = search.advance(CommitOutcome::Succeeded);
    assert!(matches!(&search, CommitSearch::Checkout(oid) if oid == "abc"));
    match search.advance(CommitOutcome::Succeeded) {
        CommitSearch::Done(Ok(oid)) => assert_eq!(oid, "abc"),
        other => panic!("unexpected step {other:?}"),
    }
    match CommitSearch::Find("abc".to_string()).advance(CommitOutcome::Failed("no".to_string())) {
        CommitSearch::Done(Err(Error::GitrepoAccessError(text))) => assert_eq!(text, "no"),
        other => panic!("unexpected step {other:?}"),
    }
}

#[test]
fn commit_hashes_are_read() {
    match get_latest_commit(&TriggerGitRepoReference::Commit("E03087D8".to_string())) {
        CommitSearch::Find(oid) => assert_eq!(oid, "e03087d800000000000000000000000000000000"),
        other => panic!("unexpected step {other:?}"),
    }
    for text in ["", "not hex", "e03087d8f722a423bc13fd31542fb9545da784dd0"] {
        let search = get_latest_commit(&TriggerGitRepoReference::Commit(text.to_string()));
        assert!(matches!(search, CommitSearch::Done(Err(Error::GitrepoAccessError(_)))), "{text}");
    }
    assert!(matches!(
        commit_search_from_oid(Err("why".to_string())),
        CommitSearch::Done(Err(Error::GitrepoAccessError(text))) if text == "why"
    ));
}

#[test]
fn references_have_types_and_names() {
    let branch = TriggerGitRepoReference::default();
    assert_eq!(branch.to_string(), "branch/main");
    let tag = TriggerGitRepoReference::Tag("v1".to_string());
    assert_eq!(tag.to_refname(Some("--")).0, "--tag");
    assert_eq!(tag.to_refname(None).1, "v1");
    let commit = TriggerGitRepoReference::Commit("123".to_string());
    assert_eq!(commit.to_string(), "commit/123");
    let watch_on = TriggerWatchOn::default();
    assert_eq!(watch_on.reference_name(), "main");
    assert!(watch_on.on_change_only);
    assert!(watch_on.files.is_none());
    assert_eq!(TriggerSourceKind::default().to_string(), "GitRepo");
    assert_eq!(TriggerSourceKind::ClusterGitRepo.to_string(), "ClusterGitRepo");
    assert_eq!(TriggerActionKind::default().to_string(), "Action");
    assert_eq!(TriggerActionKind::ClusterAction.to_string(), "ClusterAction");
}

#[test]
fn content_is_compared_by_commit_or_file() {
    let a = checked("1", Some("f"), "x");
    let b = checked("1", Some("g"), "y");
    assert!(a.is_equal(Some(&b), false));
    assert!(!a.is_equal(Some(&b), true));
    assert!(!a.is_equal(None, false));
    assert!(CheckedSourceState::unknown().is_equal(None, true));
}

#[test]
fn schedules_are_validated() {
    for text in ["30s", "1h 30m", "2 days", "0"] {
        assert!(is_interval_in_range(text));
        assert!(TriggerSchedule::Interval(text.to_string()).is_valid(), "{text}");
    }
    for text in ["", "30", "s30", "1 fortnight"] {
        assert!(is_interval_in_range(text));
        assert!(!TriggerSchedule::Interval(text.to_string()).is_valid(), "{text}");
    }
    for text in ["0 0 * * *", "*/5 * * * * *", "@daily"] {
        assert!(TriggerSchedule::Cron(text.to_string()).is_valid(), "{text}");
    }
    for text in ["", "* * *", "61 * * * *", "every minute"] {
        assert!(!TriggerSchedule::Cron(text.to_string()).is_valid(), "{text}");
    }
    assert!(!is_interval_in_range("18446744073709551615s 1000000000ns"));
    assert!(is_interval_in_range("18446744073709551615s"));
    assert!(is_interval_in_range("1y 2w 3d 4h 5m 6s"));
    assert!(!is_interval_in_range("30500568904943w 7h 9.5s 6.5s"));
    assert!(is_interval_in_range("1000000000000000s 1ms"));
    assert!(TriggerSchedule::Interval("1000000000000000s 1ms".to_string()).is_valid());
    for text in [
        "1000days 23h 59m 59s 999ms 999us 999ns",
        "00000000000000000007s 5ms",
        "999999999y 1.123456789s 0.5s",
    ] {
        assert!(is_interval_in_range(text), "{text}");
        assert!(TriggerSchedule::Interval(text.to_string()).is_valid(), "{text}");
    }
    for text in [
        "10000000000s 10000000000ms",
        "9999999999y 123456789s 1ms",
        "1000000000000months 1000000000000m 1000000000.5h",
    ] {
        assert!(is_interval_in_range(text), "{text}");
        assert!(TriggerSchedule::Interval(text.to_string()).is_valid(), "{text}");
    }
    let many = "123456789y ".repeat(501);
    assert!(is_interval_in_range(&many));
    assert!(TriggerSchedule::Interval(many).is_valid());
    // These are too long, and are read as far as that shows.
    for text in [
        "18446744073709551615s 1s 1000ms",
        "99999999999999999999999y 1s",
        "1h 9999999999999999999m 5s",
        "1h 9999999999999999999ms 5s",
        "1s 9999999999999999999w 9.5s 6.5s",
    ] {
        assert!(is_interval_in_range(text), "{text}");
        assert!(!TriggerSchedule::Interval(text.to_string()).is_valid(), "{text}");
    }
    assert!(!is_interval_in_range("18446744073709551615.5s 0.5s"));
    assert!(is_interval_in_range("584542046090y 9.5s 99.5s"));
    assert!(TriggerSchedule::Interval("584542046090y 9.5s 99.5s".to_string()).is_valid());
}

fn schedule_trigger(schedule: TriggerSchedule) -> ScheduleTrigger {
    ScheduleTrigger {
        metadata: ObjectMeta::named("t", Some(TEST_NAMESPACE.to_string())),
        spec: ScheduleTriggerSpec {
            sources: TriggerSources::default(),
            schedule,
            action: TriggerAction {
                kind: TriggerActionKind::Action,
                name: "a".to_string(),
            },
        },
        status: None,
    }
}

fn at(secs: i64) -> Timestamp {
    Timestamp { secs, nanos: 0 }
}

#[test]
fn task_schedules_follow_the_last_run() {
    let trigger = schedule_trigger(TriggerSchedule::Interval("1m 30s".to_string()));
    match trigger.get_task_schedule(None, at(100)) {
        Ok(TaskSchedule::Interval(every)) => assert_eq!(every, Duration::from_secs(90)),
        other => panic!("unexpected schedule {other:?}"),
    }
    match trigger.get_task_schedule(Some(at(70)), at(100)) {
        Ok(TaskSchedule::IntervalDelayed(every, delay)) => {
            assert_eq!(every, Duration::from_secs(90));
            assert_eq!(delay, Duration::from_secs(60));
        }
        other => panic!("unexpected schedule {other:?}"),
    }
    match trigger.get_task_schedule(Some(at(-70)), at(100)) {
        Ok(TaskSchedule::IntervalDelayed(_, delay)) => assert_eq!(delay, Duration::from_secs(0)),
        other => panic!("unexpected schedule {other:?}"),
    }
    let trigger = schedule_trigger(TriggerSchedule::Cron("0 0 * * *".to_string()));
    match trigger.get_task_schedule(Some(at(70)), at(0)) {
        Ok(TaskSchedule::Cron(text, opts)) => {
            assert_eq!(text, "0 0 * * *");
            assert!(!opts.at_start);
            assert!(!opts.concurrent);
        }
        other => panic!("unexpected schedule {other:?}"),
    }
    let trigger = schedule_trigger(TriggerSchedule::Cron("wrong".to_string()));
    assert!(trigger.get_task_schedule(None, at(0)).is_err());
    match interval_schedule(Duration { secs: 1, nanos: 0 }, Some(Timestamp { secs: 0, nanos: 500_000_000 }), at(1)) {
        TaskSchedule::IntervalDelayed(_, delay) => assert_eq!(delay, Duration::from_millis(500)),
        other => panic!("unexpected schedule {other:?}"),
    }
    assert!(matches!(
        cron_schedule(&"* * * * *".to_string(), None),
        TaskSchedule::Cron(_, opts) if opts.at_start
    ));
}

#[test]
fn names_are_checked_once() {
    assert_eq!(
        unique_names(&strings(&["a", "b", "a", "c", "b"])),
        strings(&["a", "b", "c"])
    );
}

fn task(trigger: &WebhookTrigger, task_sources: TriggerTaskSources) -> TriggerTask {
    create_trigger_task(trigger, TaskSchedule::Once, task_sources, "/clones".to_string())
}

fn path_of(request: RunRequest) -> String {
    match request {
        RunRequest::PrepareFolder { path } => path,
        RunRequest::RemoveFolder { path } => path,
        other => panic!("unexpected request {other:?}"),
    }
}

#[test]
fn run_without_its_trigger_is_only_counted() {
    let trigger = webhook("t", &["a"]);
    let (mut run, request) =
        TriggerRun::begin::<WebhookTrigger>(&task(&trigger, TriggerTaskSources::All), None, "suffix");
    assert!(matches!(request, RunRequest::Measure));
    assert_eq!((run.namespace.as_str(), run.kind.as_str(), run.name.as_str()), (TEST_NAMESPACE, "WebhookTrigger", "t"));
    assert!(matches!(run.step(RunEvent::Measured), RunRequest::Finish));
    assert_eq!(run.phase, RunPhase::Finished);
}

#[test]
fn new_source_runs_the_action_and_is_recorded() {
    let trigger = webhook("t", &["a"]);
    let (mut run, request) = TriggerRun::begin(&task(&trigger, TriggerTaskSources::All), Some(&trigger), "suffix");
    assert!(matches!(
        request,
        RunRequest::UpdateStatus { state: Some(TriggerState::Running), source: None, set_last_run: false }
    ));
    let path = path_of(run.step(RunEvent::StatusUpdated));
    assert_eq!(path, "/clones/triggers-test/t/suffix/a");
    match run.step(RunEvent::FolderPrepared(true)) {
        RunRequest::FetchSource { kind, name, namespace, reference, path, secrets_namespace } => {
            assert_eq!(kind, TriggerSourceKind::GitRepo);
            assert_eq!(name, "a");
            assert_eq!(namespace, Some(TEST_NAMESPACE.to_string()));
            assert_eq!(reference, "main");
            assert_eq!(path, "/clones/triggers-test/t/suffix/a");
            assert_eq!(secrets_namespace, TEST_NAMESPACE);
        }
        other => panic!("unexpected request {other:?}"),
    }
    assert!(matches!(run.step(RunEvent::SourceFetched(true)), RunRequest::FindCommit { .. }));
    match run.step(RunEvent::CommitFound(Some("c1".to_string()))) {
        RunRequest::RunAction { kind, name, namespace, source_kind, source, commit, reference } => {
            assert_eq!(kind, TriggerActionKind::Action);
            assert_eq!(name, "deploy");
            assert_eq!(namespace, Some(TEST_NAMESPACE.to_string()));
            assert_eq!(source_kind, TriggerSourceKind::GitRepo);
            assert_eq!(source, "a");
            assert_eq!(commit, "c1");
            assert_eq!(reference.to_string(), "branch/main");
        }
        other => panic!("unexpected request {other:?}"),
    }
    let occasion = run.occasion();
    assert_eq!(occasion.namespace, TEST_NAMESPACE);
    assert_eq!(occasion.trigger_kind, "WebhookTrigger");
    assert_eq!(occasion.source_commit, "c1");
    match run.step(RunEvent::ActionRun { accepted: true, now: SOME_TIME }) {
        RunRequest::UpdateStatus { state, source, set_last_run } => {
            assert_eq!(state, Some(TriggerState::Running));
            assert!(set_last_run);
            let (name, found) = source.unwrap();
            assert_eq!(name, "a");
            assert_eq!(found.commit_hash, Some("c1".to_string()));
            assert_eq!(found.file_hash, None);
            assert_eq!(found.changed, Some("2024-01-02T03:04:05Z".to_string()));
        }
        other => panic!("unexpected request {other:?}"),
    }
    assert_eq!(path_of(run.step(RunEvent::StatusUpdated)), "/clones/triggers-test/t/suffix/a");
    assert!(matches!(
        run.step(RunEvent::FolderRemoved),
        RunRequest::UpdateStatus { state: Some(TriggerState::Idle), source: None, set_last_run: true }
    ));
    assert!(matches!(run.step(RunEvent::StatusUpdated), RunRequest::Measure));
    assert!(matches!(run.step(RunEvent::Measured), RunRequest::Finish));
}

fn known(trigger: &mut WebhookTrigger, source: &str, state: CheckedSourceState) {
    trigger.status = Some(TriggerStatus {
        state: TriggerState::Idle,
        last_run: None,
        checked_sources: sources(vec![(source, state)]),
    });
}

fn up_to_commit(trigger: &WebhookTrigger) -> TriggerRun {
    let (mut run, _) = TriggerRun::begin(&task(trigger, TriggerTaskSources::All), Some(trigger), "suffix");
    run.step(RunEvent::StatusUpdated);
    run.step(RunEvent::FolderPrepared(true));
    run.step(RunEvent::SourceFetched(true));
    run
}

#[test]
fn unchanged_source_does_not_run_the_action_again() {
    let mut trigger = webhook("t", &["a"]);
    known(&mut trigger, "a", checked("c1", None, "earlier"));
    let mut run = up_to_commit(&trigger);
    match run.step(RunEvent::CommitFound(Some("c1".to_string()))) {
        RunRequest::UpdateStatus { state: None, source: Some((name, found)), set_last_run: false } => {
            assert_eq!(name, "a");
            assert_eq!(found.changed, Some("earlier".to_string()));
        }
        other => panic!("unexpected request {other:?}"),
    }
    let mut run = up_to_commit(&trigger);
    assert!(matches!(
        run.step(RunEvent::CommitFound(Some("c2".to_string()))),
        RunRequest::RunAction { .. }
    ));
    trigger.spec.sources.watch_on.on_change_only = false;
    let mut run = up_to_commit(&trigger);
    assert!(matches!(
        run.step(RunEvent::CommitFound(Some("c1".to_string()))),
        RunRequest::RunAction { .. }
    ));
}

#[test]
fn watched_files_decide_by_their_hash() {
    let mut trigger = webhook("t", &["a"]);
    trigger.spec.sources.watch_on.files = Some(strings(&["*.txt"]));
    known(&mut trigger, "a", checked("c1", Some("0aff"), "earlier"));
    let mut run = up_to_commit(&trigger);
    match run.step(RunEvent::CommitFound(Some("c2".to_string()))) {
        RunRequest::HashFiles { path, patterns } => {
            assert_eq!(path, "/clones/triggers-test/t/suffix/a");
            assert_eq!(patterns, strings(&["*.txt"]));
        }
        other => panic!("unexpected request {other:?}"),
    }
    assert!(matches!(
        run.step(RunEvent::FilesHashed(Some(vec![10, 255]))),
        RunRequest::UpdateStatus { .. }
    ));
    assert_eq!(run.found.file_hash, Some("0aff".to_string()));
    let mut run = up_to_commit(&trigger);
    run.step(RunEvent::CommitFound(Some("c1".to_string())));
    assert!(matches!(run.step(RunEvent::FilesHashed(None)), RunRequest::RunAction { .. }));
    assert_eq!(run.found.file_hash, None);
    assert!(matches!(
        run.step(RunEvent::ActionRun { accepted: false, now: SOME_TIME }),
        RunRequest::RemoveFolder { .. }
    ));
}

#[test]
fn failures_go_on_with_the_next_source() {
    let trigger = webhook("t", &["a", "b", "c", "a", "d"]);
    let (mut run, _) = TriggerRun::begin(&task(&trigger, TriggerTaskSources::All), Some(&trigger), "s");
    assert_eq!(run.pending, strings(&["a", "b", "c", "d"]));
    assert!(path_of(run.step(RunEvent::StatusUpdated)).ends_with("/a"));
    assert!(path_of(run.step(RunEvent::FolderPrepared(false))).ends_with("/b"));
    run.step(RunEvent::FolderPrepared(true));
    assert!(path_of(run.step(RunEvent::SourceFetched(false))).ends_with("/c"));
    run.step(RunEvent::FolderPrepared(true));
    run.step(RunEvent::SourceFetched(true));
    assert!(path_of(run.step(RunEvent::CommitFound(None))).ends_with("/d"));
    assert!(matches!(
        run.step(RunEvent::FolderPrepared(false)),
        RunRequest::UpdateStatus { state: Some(TriggerState::Idle), .. }
    ));
}

#[test]
fn single_source_is_checked_alone() {
    let mut trigger = webhook("t", &["a", "b"]);
    trigger.spec.sources.kind = TriggerSourceKind::ClusterGitRepo;
    trigger.spec.action.kind = TriggerActionKind::ClusterAction;
    let (mut run, _) = TriggerRun::begin(
        &task(&trigger, TriggerTaskSources::from("b".to_string())),
        Some(&trigger),
        "s",
    );
    assert!(path_of(run.step(RunEvent::StatusUpdated)).ends_with("/b"));
    assert!(matches!(
        run.step(RunEvent::FolderPrepared(true)),
        RunRequest::FetchSource { kind: TriggerSourceKind::ClusterGitRepo, namespace: None, .. }
    ));
    run.step(RunEvent::SourceFetched(true));
    assert!(matches!(
        run.step(RunEvent::CommitFound(Some("c".to_string()))),
        RunRequest::RunAction { kind: TriggerActionKind::ClusterAction, namespace: None, .. }
    ));
}

#[test]
fn runs_have_folders_of_their_own() {
    let trigger = webhook("t", &["a"]);
    let (first, _) = TriggerRun::start(&task(&trigger, TriggerTaskSources::All), Some(&trigger));
    let (second, _) = TriggerRun::start(&task(&trigger, TriggerTaskSources::All), Some(&trigger));
    assert_ne!(first.base_folder, second.base_folder);
    assert_eq!(first.base_folder.len(), "/clones/triggers-test/t/".len() + 8);
    assert_eq!(trigger.trigger_hash_key(), "triggers-test/t");
}
