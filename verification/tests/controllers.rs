//! Controllers: reconciliation of triggers and validation of repositories.
use git_events_runner::controller::{finalized, reconcile_labels, CancelOpts, ReconcileStep, TriggersState};
use git_events_runner::controllers::action as plain_action;
use git_events_runner::controllers::git_repo::{
    auth_secret_checked, auth_secret_read, check_secret_ref, fetch_repo_ref, parse_repo_uri, reconcile,
    schema_from_str, schema_to_string, tls_secret_checked, tls_secret_read, validate, RepoEffect, RepoNext, RepoStage,
    SecretKeys,
};
use git_events_runner::controllers::trigger as plain_trigger;
use git_events_runner::controllers::trigger_task::{TaskEvent, TaskPhase, TaskRequest, TaskRun};
use git_events_runner::controllers::{ControllerError, ControllerType, SourceState};
use git_events_runner::resources::git_repo::{
    CertificateCheck, Credentials, GitAuthConfig, GitAuthSecretKeys, GitAuthType, GitRepo, GitRepoSpec,
    GitRepoUriSchema, RepoFetch, TlsCaConfig, TlsConfig,
};
use git_events_runner::resources::trigger::{
    CheckedSourceState, ScheduleTrigger, ScheduleTriggerSpec, TaskSchedule, Trigger, TriggerAction, TriggerActionKind,
    TriggerGitRepoReference, TriggerSchedule, TriggerSourceKind, TriggerSources, TriggerState, TriggerStatus,
};
use git_events_runner::resources::{git_repo, ObjectMeta};
use git_events_runner::string_map::StringMap;
use git_events_runner::time::{Duration, Timestamp};
use git_events_runner::{Error, KubeError};

const NAMESPACE: &str = "reconcile-trigger-should-update-status";

fn at(secs: i64) -> Timestamp {
    Timestamp { secs, nanos: 0 }
}

fn folder() -> String {
    "/tmp/test_git_events_runner_context".to_string()
}

fn kube_error() -> KubeError {
    KubeError::Other {
        text: "down".to_string(),
    }
}

fn schedule_trigger(name: &str, schedule: TriggerSchedule) -> ScheduleTrigger {
    ScheduleTrigger {
        metadata: ObjectMeta::named(name, Some(NAMESPACE.to_string())),
        spec: ScheduleTriggerSpec {
            sources: TriggerSources::default(),
            schedule,
            action: TriggerAction {
                kind: TriggerActionKind::Action,
                name: String::new(),
            },
        },
        status: None,
    }
}

fn schedule_all(trigger: &ScheduleTrigger, state: &mut TriggersState, id: &str) {
    match trigger.reconcile(state, at(0), folder()) {
        ReconcileStep::AddTask(task) => {
            assert_eq!(task.namespace, NAMESPACE);
            assert_eq!(task.kind, "ScheduleTrigger");
        }
        other => panic!("unexpected step {other:?}"),
    }
    assert!(matches!(
        trigger.task_added(state, Ok(id.to_string())),
        ReconcileStep::UpdateStatus
    ));
    assert!(matches!(
        trigger.status_updated(state, Ok(())),
        ReconcileStep::Done(Ok(()))
    ));
}

// Status that the trigger gets when it is reconciled.
fn assert_becomes_idle(trigger: &ScheduleTrigger) {
    for patch in [
        trigger.reconciled_status(Ok(trigger)).unwrap(),
        trigger.update_trigger_status(Ok(trigger), None, None, None).unwrap(),
    ] {
        assert_eq!(patch.name, trigger.metadata.name_any());
        assert_eq!(patch.kind, "ScheduleTrigger");
        assert_eq!(patch.status.state, TriggerState::Idle);
        assert_eq!(patch.status.last_run, Some("Never".to_string()));
        assert_eq!(patch.status.checked_sources.len(), 0);
    }
}

#[test]
fn reconciled_trigger_keeps_its_status() {
    let mut trigger = schedule_trigger("t", TriggerSchedule::Interval("30s".to_string()));
    trigger.status = Some(TriggerStatus {
        state: TriggerState::Running,
        last_run: Some("2024-01-02T03:04:05Z".to_string()),
        checked_sources: StringMap::new(),
    });
    let patch = trigger.reconciled_status(Ok(&trigger)).unwrap();
    assert_eq!(patch.status.state, TriggerState::Running);
    assert_eq!(patch.status.last_run, Some("2024-01-02T03:04:05Z".to_string()));
    assert!(matches!(
        trigger.reconciled_status(Err(Error::KubeError(kube_error()))),
        Err(Error::KubeError(_))
    ));
}

#[test]
fn reconcile_schedule_trigger_should_set_idle_status() {
    let mut state = TriggersState::default();
    let trigger_i = schedule_trigger("good-interval-trigger", TriggerSchedule::Interval("30s".to_string()));
    schedule_all(&trigger_i, &mut state, "task-i");
    assert_becomes_idle(&trigger_i);
    assert_eq!(state.schedules.len(), 1);
    assert_eq!(state.tasks.len(), 1);

    let trigger_c = schedule_trigger("good-cron-trigger", TriggerSchedule::Cron("0 0 * * *".to_string()));
    schedule_all(&trigger_c, &mut state, "task-c");
    assert_becomes_idle(&trigger_c);
    assert_eq!(state.schedules.len(), 2);
    assert_eq!(state.tasks.len(), 2);

    match trigger_i.cleanup(&mut state) {
        ReconcileStep::CancelTask(id, CancelOpts::Kill) => assert_eq!(id, "task-i"),
        other => panic!("unexpected step {other:?}"),
    }
    assert_eq!(state.schedules.len(), 1);
    assert_eq!(state.tasks.len(), 1);

    assert!(matches!(trigger_c.cleanup(&mut state), ReconcileStep::CancelTask(_, _)));
    assert_eq!(state.schedules.len(), 0);
    assert_eq!(state.tasks.len(), 0);
    assert!(matches!(trigger_c.cleanup(&mut state), ReconcileStep::Done(Ok(()))));
}

#[test]
fn reconciled_trigger_is_left_alone_until_it_changes() {
    let mut state = TriggersState::default();
    let mut trigger = schedule_trigger("t", TriggerSchedule::Interval("30s".to_string()));
    schedule_all(&trigger, &mut state, "task-1");
    assert!(matches!(
        trigger.reconcile(&mut state, at(1), folder()),
        ReconcileStep::Done(Ok(()))
    ));
    trigger.spec.schedule = TriggerSchedule::Cron("nonsense".to_string());
    match trigger.reconcile(&mut state, at(2), folder()) {
        ReconcileStep::CancelTask(id, CancelOpts::Ignore) => assert_eq!(id, "task-1"),
        other => panic!("unexpected step {other:?}"),
    }
    assert_eq!(state.tasks.len(), 0);
    match trigger.schedule_task(at(2), folder()) {
        ReconcileStep::Publish(event) => {
            assert_eq!(event.reason, "ValidateTrigger");
            assert_eq!(event.note, "Unable to parse schedule expression, scheduler is disabled");
            assert_eq!(event.action, "ValidateTriggerConfig");
        }
        other => panic!("unexpected step {other:?}"),
    }
    assert!(matches!(trigger.event_published(Ok(())), ReconcileStep::UpdateStatus));
    assert!(matches!(
        trigger.event_published(Err(kube_error())),
        ReconcileStep::Done(Err(Error::KubeError(_)))
    ));
    assert!(matches!(
        trigger.task_added(&mut state, Err("full".to_string())),
        ReconcileStep::Done(Err(Error::SchedulerError(_)))
    ));
    assert!(matches!(
        trigger.status_updated(&mut state, Err(Error::KubeError(kube_error()))),
        ReconcileStep::Done(Err(Error::KubeError(_)))
    ));
    assert!(matches!(
        trigger.reconcile(&mut state, at(3), folder()),
        ReconcileStep::Publish(_)
    ));
}

#[test]
fn changed_schedule_of_a_trigger_that_has_not_run_is_taken_up() {
    let mut state = TriggersState::default();
    let mut trigger = schedule_trigger("t", TriggerSchedule::Interval("30s".to_string()));
    schedule_all(&trigger, &mut state, "task-1");
    trigger.status = Some(TriggerStatus {
        state: TriggerState::Idle,
        last_run: Some("Never".to_string()),
        checked_sources: StringMap::new(),
    });
    trigger.spec.schedule = TriggerSchedule::Interval("1m".to_string());
    match trigger.reconcile(&mut state, at(2), folder()) {
        ReconcileStep::CancelTask(id, CancelOpts::Ignore) => assert_eq!(id, "task-1"),
        other => panic!("unexpected step {other:?}"),
    }
    match trigger.schedule_task(at(2), folder()) {
        ReconcileStep::AddTask(task) => {
            assert!(matches!(task.schedule, TaskSchedule::Interval(every) if every == Duration::from_secs(60)))
        }
        other => panic!("unexpected step {other:?}"),
    }
    trigger.task_added(&mut state, Ok("task-2".to_string()));
    trigger.status_updated(&mut state, Ok(()));
    assert_eq!(state.tasks.get(&format!("{NAMESPACE}/t")).unwrap(), "task-2");
    assert!(matches!(
        trigger.reconcile(&mut state, at(3), folder()),
        ReconcileStep::Done(Ok(()))
    ));
}

#[test]
fn finalizers_and_labels() {
    let trigger = schedule_trigger("t", TriggerSchedule::Interval("30s".to_string()));
    assert_eq!(trigger.finalizer_name(), Some("scheduletriggers.git-events-runner.rs"));
    assert!(finalized(Ok(())).is_ok());
    let err = finalized(Err("why".to_string())).unwrap_err();
    assert_eq!(err.to_string(), "Finalizer Error: why");
    assert_eq!(
        reconcile_labels::<ScheduleTrigger>(&trigger.metadata),
        vec![NAMESPACE, "ScheduleTrigger", "t"]
    );
    assert_eq!(
        reconcile_labels::<GitRepo>(&ObjectMeta::named("r", None)),
        vec!["", "GitRepo", "r"]
    );
}

fn auth(auth_type: GitAuthType) -> Option<GitAuthConfig> {
    Some(GitAuthConfig {
        auth_type,
        secret_ref: git_repo::SecretRef {
            name: "login".to_string(),
            namespace: None,
        },
        keys: GitAuthSecretKeys::default(),
    })
}

fn own_ca() -> Option<TlsConfig> {
    Some(TlsConfig {
        no_verify_ssl: false,
        ca_cert: Some(TlsCaConfig {
            secret_ref: git_repo::SecretRef {
                name: "ca".to_string(),
                namespace: None,
            },
            key: "ca.crt".to_string(),
        }),
    })
}

fn repo(uri: &str, tls_config: Option<TlsConfig>, auth_config: Option<GitAuthConfig>) -> GitRepo {
    GitRepo {
        metadata: ObjectMeta::named("repo", Some("home".to_string())),
        spec: GitRepoSpec {
            repo_uri: uri.to_string(),
            tls_config,
            auth_config,
        },
    }
}

#[test]
fn uris_are_held_against_patterns() {
    let good = [
        ("git@host.name:owner/repo.git", GitRepoUriSchema::Git),
        ("ssh://host.name/org/repo/something", GitRepoUriSchema::Ssh),
        ("ssh://host.name:123/org/repo/something", GitRepoUriSchema::Ssh),
        ("ssh://host.name:123/", GitRepoUriSchema::Ssh),
        ("ssh://login@host.name/org/repo/something", GitRepoUriSchema::Ssh),
        ("ssh://login@host.name:123/org/repo/something", GitRepoUriSchema::Ssh),
        ("https://host.name/org/repo/something", GitRepoUriSchema::Https),
        ("http://host.name/", GitRepoUriSchema::Http),
        ("http://host.name:123/", GitRepoUriSchema::Http),
        ("http://host.name:123/org/repo/something", GitRepoUriSchema::Http),
    ];
    for (uri, schema) in good {
        match parse_repo_uri(&repo(uri, None, None)) {
            Ok(found) => assert_eq!(found, schema, "{uri}"),
            Err(e) => panic!("unexpected error {e:?} for {uri}"),
        }
    }
    for uri in ["", "ftp://host/x", "git@host", "https://", "https://host:123456/", "https://host/a b"] {
        assert!(matches!(
            parse_repo_uri(&repo(uri, None, None)),
            Err(ControllerError::WrongSourceUri)
        ));
    }
    for schema in [
        GitRepoUriSchema::Http,
        GitRepoUriSchema::Https,
        GitRepoUriSchema::Ssh,
        GitRepoUriSchema::Git,
    ] {
        assert_eq!(schema_from_str(&schema_to_string(schema)), Some(schema));
    }
    assert_eq!(schema_from_str("HTTP"), None);
}

fn note(effect: &RepoEffect) -> String {
    match effect {
        RepoEffect::Publish(event) => {
            assert_eq!(event.reason, "ValidateSource");
            event.note.clone()
        }
        other => panic!("unexpected effect {other:?}"),
    }
}

fn assert_rejected(stage: &RepoStage, skip: usize, state: SourceState, text: &str) {
    assert_eq!(stage.effects.len(), skip + 2);
    match &stage.effects[skip] {
        RepoEffect::UpdateState(s) => assert_eq!(*s, state),
        other => panic!("unexpected effect {other:?}"),
    }
    assert_eq!(note(&stage.effects[skip + 1]), text);
    assert!(matches!(stage.next, RepoNext::Fail(_)));
}

#[test]
fn repositories_are_validated() {
    let stage = reconcile(&repo("nowhere", None, None));
    assert_rejected(
        &stage,
        0,
        SourceState::WrongRepoUriFormat,
        "Wrong repository URI format `nowhere`",
    );
    assert!(matches!(stage.next, RepoNext::Fail(ControllerError::WrongSourceUri)));

    let stage = reconcile(&repo("ssh://host/x", None, None));
    assert_rejected(
        &stage,
        0,
        SourceState::AuthConfigError,
        "Auth config is required for SSH protocol",
    );

    let stage = reconcile(&repo("http://host/x", None, auth(GitAuthType::Ssh)));
    assert_rejected(
        &stage,
        1,
        SourceState::AuthConfigError,
        "Auth config is wrong: auth type `ssh` is incompatible with schema `http`",
    );
    assert_eq!(
        note(&stage.effects[0]),
        "Authentication over raw `http` protocol isn`t secure, try to use `https` instead"
    );

    let stage = reconcile(&repo("git@host:a/b", None, None));
    assert_eq!(stage.effects.len(), 1);
    assert!(matches!(stage.effects[0], RepoEffect::UpdateState(SourceState::Ready)));
    assert!(matches!(stage.next, RepoNext::Requeue(1800)));
}

#[test]
fn secrets_of_repositories_are_checked() {
    let r = repo("https://host/x", own_ca(), auth(GitAuthType::Basic));
    let check = match reconcile(&r).next {
        RepoNext::CheckAuthSecret(check) => check,
        other => panic!("unexpected step {other:?}"),
    };
    assert_eq!(check.name, "login");
    assert_eq!(check.keys, vec!["username", "password"]);

    let stage = auth_secret_checked(&r, GitRepoUriSchema::Https, &check, false);
    assert_eq!(
        note(&stage.effects[0]),
        "Auth config may be wrong: secret `login` should exist and contain `username,password` key(s)"
    );
    let check = match stage.next {
        RepoNext::CheckTlsSecret(check) => check,
        other => panic!("unexpected step {other:?}"),
    };
    assert_eq!(check.keys, vec!["ca.crt"]);
    let stage = tls_secret_checked(&check, true);
    assert_eq!(stage.effects.len(), 1);
    assert!(matches!(stage.next, RepoNext::Requeue(1800)));
    let stage = tls_secret_checked(&check, false);
    assert_eq!(stage.effects.len(), 2);

    let plain = validate(&repo("http://host/x", own_ca(), None), Some(GitRepoUriSchema::Http));
    assert!(matches!(plain.next, RepoNext::Requeue(_)));
}

#[test]
fn keys_of_secrets_may_stand_in_either_part() {
    let keys = vec!["a".to_string(), "b".to_string()];
    let present = |data: Option<Vec<&str>>, string_data: Option<Vec<&str>>| {
        Ok(SecretKeys {
            data: data.map(|d| d.iter().map(|k| k.to_string()).collect()),
            string_data: string_data.map(|d| d.iter().map(|k| k.to_string()).collect()),
        })
    };
    let check = |secret| check_secret_ref(secret, &keys, ControllerError::WrongTlsConfig);
    assert!(check(present(Some(vec!["a", "b", "c"]), None)).is_ok());
    assert!(check(present(Some(vec!["a"]), Some(vec!["b", "a"]))).is_ok());
    assert!(matches!(
        check(present(Some(vec!["a"]), Some(vec!["b"]))),
        Err(ControllerError::WrongTlsConfig)
    ));
    assert!(matches!(check(Err(kube_error())), Err(ControllerError::KubeError(_))));
}

fn data(entries: &[(&str, &str)]) -> StringMap<Vec<u8>> {
    let mut map = StringMap::new();
    for (key, value) in entries {
        map.insert(key.to_string(), value.as_bytes().to_vec());
    }
    map
}

#[test]
fn repositories_are_fetched_without_regard_to_the_scheme() {
    let (reference, path) = ("main".to_string(), "/tmp/x".to_string());
    let r = repo("ssh://host/x", own_ca(), auth(GitAuthType::Ssh));
    let request = match fetch_repo_ref(&r, &reference, &path) {
        RepoFetch::ReadAuthSecret(request) => request,
        other => panic!("unexpected step {other:?}"),
    };
    assert_eq!(request.namespace, "home");
    let secret = data(&[("ssh-privatekey", "k")]);
    let (request, texts) = match auth_secret_read(&r, &request, Ok(Some(secret)), &reference, &path) {
        RepoFetch::ReadTlsSecret(request, texts) => (request, texts),
        other => panic!("unexpected step {other:?}"),
    };
    let secret = data(&[("ca.crt", "PEM")]);
    match tls_secret_read(&r, &request, &texts, Ok(Some(secret)), &reference, &path) {
        RepoFetch::Fetch(plan) => {
            assert_eq!(plan.depth, 1);
            assert!(matches!(plan.certificate_check, CertificateCheck::CustomCa(text) if text == "PEM"));
            match plan.credentials {
                Credentials::SshKey { private_key, default_user } => {
                    assert_eq!(private_key, "k");
                    assert_eq!(default_user, None);
                }
                other => panic!("unexpected credentials {other:?}"),
            }
        }
        other => panic!("unexpected step {other:?}"),
    }
    match fetch_repo_ref(&repo("https://host/x", None, None), &reference, &path) {
        RepoFetch::Fetch(plan) => assert!(matches!(plan.certificate_check, CertificateCheck::Untouched)),
        other => panic!("unexpected step {other:?}"),
    }
}

fn plain_sources(names: &[&str]) -> plain_trigger::TriggerSources {
    plain_trigger::TriggerSources {
        kind: TriggerSourceKind::GitRepo,
        names: names.iter().map(|n| n.to_string()).collect(),
        watch_on: plain_trigger::TriggerWatchOn::default(),
    }
}

fn plain(trigger: plain_trigger::TriggerType, names: &[&str]) -> plain_trigger::Trigger {
    plain_trigger::Trigger {
        metadata: ObjectMeta::named("t", Some("ns".to_string())),
        spec: plain_trigger::TriggerSpec {
            sources: plain_sources(names),
            trigger,
            action: TriggerAction {
                kind: TriggerActionKind::Action,
                name: "deploy".to_string(),
            },
        },
        status: None,
    }
}

fn interval(text: &str) -> plain_trigger::TriggerType {
    plain_trigger::TriggerType::Schedule(TriggerSchedule::Interval(text.to_string()))
}

fn webhook() -> plain_trigger::TriggerType {
    plain_trigger::TriggerType::Webhook(plain_trigger::TriggerWebhook {
        multi_source: false,
        auth_config: None,
    })
}

type PlainState = git_events_runner::controllers::TriggersState<plain_trigger::TriggerSpec>;

#[test]
fn controllers_work_for_their_own_triggers() {
    assert!(interval("1m").is_processable(ControllerType::Leader));
    assert!(!interval("1m").is_processable(ControllerType::Web));
    assert!(webhook().is_processable(ControllerType::Web));
    assert!(!webhook().is_processable(ControllerType::Leader));
}

#[test]
fn controllers_forget_triggers_that_are_not_theirs() {
    let mut state = PlainState::default();
    let other = plain(webhook(), &["a"]);
    let mut trigger = plain(interval("1m"), &["a"]);
    trigger.metadata.name = Some("mine".to_string());
    for t in [&trigger, &other] {
        t.task_added(&mut state, "task".to_string());
    }
    // A controller that doesn't work for the trigger doesn't read its schedule.
    trigger.spec.trigger = interval("30500568904943w 7h 9.5s 6.5s");
    assert!(matches!(
        trigger.reconcile(&mut state, ControllerType::Web, None, at(0)),
        plain_trigger::TriggerStep::CancelTask(id, CancelOpts::Kill) if id == "task"
    ));
    assert!(!state.tasks.contains_key(&trigger.trigger_hash_key()));
    assert!(!state.specs.contains_key(&trigger.trigger_hash_key()));
    assert!(state.tasks.contains_key(&other.trigger_hash_key()));
    assert!(state.specs.contains_key(&other.trigger_hash_key()));
    assert!(matches!(
        trigger.reconcile_now(&mut state, ControllerType::Web, at(0)),
        Some(plain_trigger::TriggerStep::Done(Ok(())))
    ));
}

#[test]
fn triggers_get_a_status_first() {
    let mut state = PlainState::default();
    let mut trigger = plain(interval("1m"), &["a"]);
    let status = match trigger.reconcile_now(&mut state, ControllerType::Leader, at(100)) {
        Some(plain_trigger::TriggerStep::UpdateStatus(status)) => status,
        other => panic!("unexpected step {other:?}"),
    };
    assert_eq!(status.state, TriggerState::Idle);
    assert_eq!(status.last_run, None);
    let patch = trigger.status_patch(status);
    assert_eq!(patch.kind, "Trigger");
    assert_eq!(patch.api_version, "git-events-runner.rs/v1alpha1");
    assert!(trigger.status_patched(&mut state, patch.status, Ok(())).is_ok());
    match trigger.reconcile_spec(&mut state, None, at(100)) {
        plain_trigger::TriggerStep::AddTask(TaskSchedule::Interval(every)) => {
            assert_eq!(every, Duration::from_secs(60))
        }
        other => panic!("unexpected step {other:?}"),
    }
    assert!(matches!(
        trigger.task_added(&mut state, "task-1".to_string()),
        plain_trigger::TriggerStep::Done(Ok(()))
    ));
    assert!(matches!(
        trigger.reconcile_now(&mut state, ControllerType::Leader, at(101)),
        Some(plain_trigger::TriggerStep::Done(Ok(())))
    ));
    trigger.spec.sources.names.push("b".to_string());
    assert!(matches!(
        trigger.reconcile_now(&mut state, ControllerType::Leader, at(102)),
        Some(plain_trigger::TriggerStep::CancelTask(id, CancelOpts::Ignore)) if id == "task-1"
    ));
    trigger.spec.trigger = webhook();
    assert!(matches!(
        trigger.reconcile_now(&mut state, ControllerType::Leader, at(103)),
        Some(plain_trigger::TriggerStep::Done(Ok(())))
    ));
    assert_eq!(state.specs.len(), 0);
    assert_eq!(state.statuses.len(), 0);
    assert!(trigger
        .status_patched(&mut state, TriggerStatus {
            state: TriggerState::Idle,
            last_run: None,
            checked_sources: StringMap::new(),
        }, Err(kube_error()))
        .is_err());
}

fn with_last_run(trigger: &mut plain_trigger::Trigger, text: &str) {
    trigger.status = Some(TriggerStatus {
        state: TriggerState::Idle,
        last_run: Some(text.to_string()),
        checked_sources: StringMap::new(),
    });
}

#[test]
fn triggers_wait_for_the_rest_of_their_interval() {
    let mut trigger = plain(interval("1m"), &["a"]);
    with_last_run(&mut trigger, "2024-01-02T03:04:05Z");
    assert_eq!(trigger.last_run_time(), Ok(Some(at(1_704_164_645))));
    let mut state = PlainState::default();
    match trigger.reconcile_now(&mut state, ControllerType::Leader, at(1_704_164_665)) {
        Some(plain_trigger::TriggerStep::AddTask(TaskSchedule::IntervalDelayed(every, delay))) => {
            assert_eq!(every, Duration::from_secs(60));
            assert_eq!(delay, Duration::from_secs(40));
        }
        other => panic!("unexpected step {other:?}"),
    }
    assert_eq!(state.statuses.len(), 1);
    let mut state = PlainState::default();
    assert!(trigger.reconcile_now(&mut state, ControllerType::Leader, at(0)).is_none());
    with_last_run(&mut trigger, "yesterday");
    assert_eq!(trigger.last_run_time(), Err("yesterday".to_string()));
    assert!(trigger.reconcile_now(&mut state, ControllerType::Leader, at(0)).is_none());
    with_last_run(&mut trigger, "2016-12-31T23:59:60.5+01:00");
    assert_eq!(
        trigger.last_run_time(),
        Ok(Some(Timestamp {
            secs: 1_483_225_200,
            nanos: 500_000_000
        }))
    );
}

#[test]
fn recorded_runs_are_read_back() {
    let mut trigger = plain(interval("1m"), &["a"]);
    let state = PlainState::default();
    let now = Timestamp {
        secs: 1_700_000_000,
        nanos: 7,
    };
    let status = trigger.update_trigger_status(&state, Some(TriggerState::Running), None, Some(now));
    assert_eq!(status.state, TriggerState::Running);
    assert_eq!(status.last_run, Some("2023-11-14T22:13:20Z".to_string()));
    trigger.status = Some(status);
    assert_eq!(trigger.last_run_time(), Ok(Some(at(1_700_000_000))));
}

#[test]
fn webhooks_have_nothing_to_schedule() {
    let mut state = PlainState::default();
    let mut trigger = plain(webhook(), &["a"]);
    with_last_run(&mut trigger, "2024-01-02T03:04:05Z");
    assert!(matches!(
        trigger.reconcile_now(&mut state, ControllerType::Web, at(0)),
        Some(plain_trigger::TriggerStep::Done(Ok(())))
    ));
    assert_eq!(state.specs.len(), 1);
    assert!(matches!(trigger.get_task_schedule(None, at(0)), Some(TaskSchedule::Once)));
    assert!(matches!(
        trigger.cleanup(&mut state, ControllerType::Leader),
        plain_trigger::TriggerStep::Done(Ok(()))
    ));
    assert_eq!(state.specs.len(), 1);
    assert!(matches!(
        trigger.cleanup(&mut state, ControllerType::Web),
        plain_trigger::TriggerStep::Done(Ok(()))
    ));
    assert_eq!(state.specs.len(), 0);
}

#[test]
fn invalid_schedules_are_told_of() {
    let mut state = PlainState::default();
    let mut trigger = plain(interval("soon"), &["a"]);
    with_last_run(&mut trigger, "2024-01-02T03:04:05Z");
    assert!(matches!(
        trigger.reconcile_now(&mut state, ControllerType::Leader, at(0)),
        Some(plain_trigger::TriggerStep::Publish(_))
    ));
    assert!(matches!(
        trigger.event_published(&mut state, Err(kube_error())),
        plain_trigger::TriggerStep::Done(Err(ControllerError::KubeError(_)))
    ));
    assert!(matches!(
        trigger.event_published(&mut state, Ok(())),
        plain_trigger::TriggerStep::Done(Ok(()))
    ));
    assert_eq!(state.specs.len(), 1);
}

fn known_status(source: &str, commit: &str) -> TriggerStatus {
    let mut checked_sources = StringMap::new();
    checked_sources.insert(
        source.to_string(),
        CheckedSourceState {
            commit_hash: Some(commit.to_string()),
            file_hash: None,
            changed: Some("earlier".to_string()),
        },
    );
    checked_sources.insert("gone".to_string(), CheckedSourceState::unknown());
    TriggerStatus {
        state: TriggerState::Idle,
        last_run: None,
        checked_sources,
    }
}

#[test]
fn task_checks_sources_and_keeps_what_it_found() {
    let trigger = plain(interval("1m"), &["a", "b"]);
    let task = trigger.create_task(TaskSchedule::Once);
    let (run, request) = TaskRun::begin(&task, Some(&trigger), &known_status("a", "c1"), "s");
    let mut run = run.unwrap();
    assert!(matches!(
        request,
        TaskRequest::UpdateStatus { state: TriggerState::Running, checked_sources: None, set_last_run: false }
    ));
    assert_eq!(run.checked_sources.len(), 1);
    match run.step(TaskEvent::StatusUpdated) {
        TaskRequest::PrepareFolder { path } => assert_eq!(path, "/tmp/git-event-runner/ns/t/s/a"),
        other => panic!("unexpected request {other:?}"),
    }
    assert!(matches!(
        run.step(TaskEvent::FolderPrepared(true)),
        TaskRequest::FetchSource { .. }
    ));
    assert!(matches!(
        run.step(TaskEvent::SourceFetched(true)),
        TaskRequest::FindCommit { .. }
    ));
    assert!(matches!(
        run.step(TaskEvent::CommitFound(Some("c1".to_string()))),
        TaskRequest::RemoveFolder { .. }
    ));
    assert!(matches!(
        run.step(TaskEvent::FolderRemoved),
        TaskRequest::PrepareFolder { .. }
    ));
    run.step(TaskEvent::FolderPrepared(true));
    run.step(TaskEvent::SourceFetched(true));
    match run.step(TaskEvent::CommitFound(Some("c2".to_string()))) {
        TaskRequest::RunAction { name, namespace, source, commit, .. } => {
            assert_eq!((name.as_str(), namespace.as_str()), ("deploy", "ns"));
            assert_eq!((source.as_str(), commit.as_str()), ("b", "c2"));
        }
        other => panic!("unexpected request {other:?}"),
    }
    match run.step(TaskEvent::ActionRun { accepted: true, now: at(1_704_164_645) }) {
        TaskRequest::UpdateStatus { state, checked_sources, set_last_run } => {
            assert_eq!(state, TriggerState::Running);
            assert!(set_last_run);
            let map = checked_sources.unwrap();
            assert_eq!(map.len(), 2);
            assert_eq!(map.get("a").unwrap().changed, Some("earlier".to_string()));
            assert_eq!(map.get("b").unwrap().changed, Some("2024-01-02T03:04:05Z".to_string()));
        }
        other => panic!("unexpected request {other:?}"),
    }
    run.step(TaskEvent::StatusUpdated);
    match run.step(TaskEvent::FolderRemoved) {
        TaskRequest::UpdateStatus { state: TriggerState::Idle, checked_sources: Some(map), set_last_run: true } => {
            assert_eq!(map.len(), 2)
        }
        other => panic!("unexpected request {other:?}"),
    }
    assert!(matches!(run.step(TaskEvent::StatusUpdated), TaskRequest::Finish));
    assert_eq!(run.phase, TaskPhase::Finished);
}

#[test]
fn other_kinds_matter_only_where_they_are_used() {
    let mut trigger = plain(interval("1m"), &["a"]);
    trigger.spec.sources.kind = TriggerSourceKind::ClusterGitRepo;
    let task = trigger.create_task(TaskSchedule::Once);
    let (run, _) = TaskRun::begin(&task, Some(&trigger), &known_status("a", "c1"), "s");
    let mut run = run.unwrap();
    run.step(TaskEvent::StatusUpdated);
    assert!(matches!(
        run.step(TaskEvent::FolderPrepared(false)),
        TaskRequest::UpdateStatus { state: TriggerState::Idle, .. }
    ));

    trigger.spec.sources.kind = TriggerSourceKind::GitRepo;
    trigger.spec.action.kind = TriggerActionKind::ClusterAction;
    let (run, _) = TaskRun::begin(&task, Some(&trigger), &known_status("a", "c1"), "s");
    let mut run = run.unwrap();
    run.step(TaskEvent::StatusUpdated);
    run.step(TaskEvent::FolderPrepared(true));
    run.step(TaskEvent::SourceFetched(true));
    assert!(matches!(
        run.step(TaskEvent::CommitFound(Some("c1".to_string()))),
        TaskRequest::RemoveFolder { .. }
    ));
}

#[test]
fn task_watches_a_file() {
    let mut trigger = plain(interval("1m"), &["a"]);
    trigger.spec.sources.watch_on.file_ = Some("VERSION".to_string());
    let task = trigger.create_task(TaskSchedule::Once);
    let (run, _) = TaskRun::start(&task, Some(&trigger), &known_status("a", "c1"));
    let mut run = run.unwrap();
    run.step(TaskEvent::StatusUpdated);
    run.step(TaskEvent::FolderPrepared(true));
    run.step(TaskEvent::SourceFetched(true));
    match run.step(TaskEvent::CommitFound(Some("c1".to_string()))) {
        TaskRequest::HashFile { path } => assert!(path.ends_with("/a/VERSION")),
        other => panic!("unexpected request {other:?}"),
    }
    assert!(matches!(
        run.step(TaskEvent::FileHashed(Some(vec![0, 171]))),
        TaskRequest::RunAction { .. }
    ));
    assert_eq!(run.found.file_hash, Some("00ab".to_string()));
    assert!(matches!(
        run.step(TaskEvent::ActionRun { accepted: false, now: at(0) }),
        TaskRequest::RemoveFolder { .. }
    ));
    let (none, request) = TaskRun::start(&task, None, &known_status("a", "c1"));
    assert!(none.is_none());
    assert!(matches!(request, TaskRequest::Finish));
}

#[test]
fn plain_actions_create_jobs_in_their_namespace() {
    let mut metadata = ObjectMeta::named("deploy", Some("ns".to_string()));
    metadata.uid = Some("uid".to_string());
    let action = plain_action::Action {
        metadata,
        spec: plain_action::ActionSpec {
            source_override: None,
            action_job: plain_action::ActionJob::default(),
        },
        status: None,
    };
    let reference = TriggerGitRepoReference::Branch("main".to_string());
    let job = action.create_job_spec(&TriggerSourceKind::GitRepo, "repo", "c0", &reference);
    assert!(job.name.starts_with("deploy-"));
    assert_eq!(job.namespace, Some("ns".to_string()));
    assert_eq!(job.ttl_seconds_after_finished, 300);
    assert_eq!(job.active_deadline_seconds, None);
    assert_eq!(job.labels.get("git-events-runner.rs/job"), Some(&"true".to_string()));
    assert_eq!(
        job.pod.init_container.args.unwrap(),
        vec![
            "--kind",
            "GitRepo",
            "--source",
            "repo",
            "--destination",
            "/action_workdir",
            "--commit",
            "c0",
            "--namespace",
            "ns",
        ]
    );
    assert_eq!(job.pod.container.image, "docker.io/bash:latest");
    let envs = job.pod.container.env.unwrap();
    assert_eq!(envs.len(), 7);
    assert_eq!(envs[4].name, "ACTION_JOB_TRIGGER_SOURCE_REF_TYPE");
    assert_eq!(envs[4].value, "branch");
    assert_eq!(envs[6].name, "ACTION_JOB_TRIGGER_SOURCE_NAMESPACE");
    let named = action.named_job_spec(&TriggerSourceKind::ClusterGitRepo, "repo", "c0", &reference, "n".to_string());
    assert_eq!(named.name, "n");
    assert_eq!(named.pod.container.env.unwrap().len(), 6);
}
