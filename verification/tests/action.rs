//! Actions and their jobs.
use git_events_runner::config::RuntimeConfig;
use git_events_runner::resources::action::{
    format_action_job_env_var, format_job_name, Action, ActionExecutor, ActionJob, ActionSourceOverride, ActionSpec,
    ClusterAction, ClusterActionSourceOverride, ClusterActionSpec, Job, Occasion, TriggerClusterSourceKind,
};
use git_events_runner::resources::trigger::{TriggerGitRepoReference, TriggerSourceKind};
use git_events_runner::resources::ObjectMeta;
use git_events_runner::string_map::StringMap;
use git_events_runner::time::Duration;
use std::collections::BTreeMap;

const TEST_DEFAULT_ACTION_NAME: &str = "default-test-action";
const TEST_CUSTOMIZED_ACTION_NAME: &str = "customized-test-action";
const TEST_ACTION_NAMESPACE: &str = "actions-test";
const TEST_SOURCE_NAME: &str = "action-test-source";
const TEST_SOURCE_COMMIT: &str = "e03087d8f722a423bc13fd31542fb9545da784dd";
const TEST_TRIGGER_KIND: &str = "ScheduleTrigger";
const TEST_TRIGGER_NAME: &str = "test-schedule-trigger-name";

fn strings(values: &[&str]) -> Vec<String> {
    values.iter().map(|v| v.to_string()).collect()
}

fn map(entries: &[(&str, &str)]) -> StringMap<String> {
    let mut map = StringMap::new();
    for (key, value) in entries {
        map.insert(key.to_string(), value.to_string());
    }
    map
}

fn metadata(name: &str, namespace: Option<&str>) -> ObjectMeta {
    let mut meta = ObjectMeta::named(name, namespace.map(String::from));
    meta.uid = Some("uid-1".to_string());
    meta
}

fn occasion(source_kind: TriggerSourceKind, trigger_ref: TriggerGitRepoReference) -> Occasion {
    Occasion {
        source_kind,
        source_name: TEST_SOURCE_NAME.to_string(),
        source_commit: TEST_SOURCE_COMMIT.to_string(),
        trigger_ref,
        namespace: TEST_ACTION_NAMESPACE.to_string(),
        trigger_kind: TEST_TRIGGER_KIND.to_string(),
        trigger_name: TEST_TRIGGER_NAME.to_string(),
    }
}

fn references() -> Vec<TriggerGitRepoReference> {
    vec![
        TriggerGitRepoReference::Branch("main".to_string()),
        TriggerGitRepoReference::Tag("tag".to_string()),
        TriggerGitRepoReference::Commit(TEST_SOURCE_COMMIT.to_string()),
    ]
}

fn toleration(key: &str, seconds: i64, value: &str) -> k8s_openapi::api::core::v1::Toleration {
    k8s_openapi::api::core::v1::Toleration {
        effect: Some("NoSchedule".to_string()),
        key: Some(key.to_string()),
        operator: Some("In".to_string()),
        toleration_seconds: Some(seconds),
        value: Some(value.to_string()),
    }
}

fn tolerations() -> Vec<k8s_openapi::api::core::v1::Toleration> {
    vec![
        toleration("toleration-key-1", 234, "toleration-value-1"),
        toleration("toleration-key-2", 345, "toleration-value-2"),
    ]
}

fn affinity() -> k8s_openapi::api::core::v1::Affinity {
    k8s_openapi::api::core::v1::Affinity {
        node_affinity: None,
        pod_affinity: None,
        pod_anti_affinity: Some(k8s_openapi::api::core::v1::PodAntiAffinity {
            preferred_during_scheduling_ignored_during_execution: None,
            required_during_scheduling_ignored_during_execution: Some(vec![
                k8s_openapi::api::core::v1::PodAffinityTerm {
                    label_selector: Some(k8s_openapi::apimachinery::pkg::apis::meta::v1::LabelSelector {
                        match_expressions: Some(vec![
                            k8s_openapi::apimachinery::pkg::apis::meta::v1::LabelSelectorRequirement {
                                key: "selector-key".to_string(),
                                operator: "In".to_string(),
                                values: Some(strings(&["selector-value-1", "selector-value-2"])),
                            },
                        ]),
                        match_labels: Some(BTreeMap::from([
                            ("custom-label-key-3".to_string(), "custom-label-value-3".to_string()),
                            ("custom-label-key-4".to_string(), "custom-label-value-4".to_string()),
                        ])),
                    }),
                    namespace_selector: None,
                    namespaces: Some(strings(&["ns1", "ns2"])),
                    topology_key: "kubernetes.io/hostname".to_string(),
                    match_label_keys: None,
                    mismatch_label_keys: None,
                },
            ]),
        }),
    }
}

fn node_labels() -> StringMap<String> {
    map(&[
        ("custom-node-label-key-1", "custom-node-label-value-1"),
        ("custom-node-label-key-2", "custom-node-label-value-2"),
    ])
}

fn custom_labels() -> StringMap<String> {
    map(&[
        ("custom-label-key-1", "custom-label-value-1"),
        ("custom-label-key-2", "custom-label-value-2"),
    ])
}

fn custom_annotations() -> StringMap<String> {
    map(&[
        ("custom-annotation-key-1", "custom-annotation-value-1"),
        ("custom-annotation-key-2", "custom-annotation-value-2"),
    ])
}

fn sorted(map: &StringMap<String>) -> BTreeMap<String, String> {
    (0..map.len())
        .map(|i| (map.entry(i).0.clone(), map.entry(i).1.clone()))
        .collect()
}

fn opt_sorted(map: &Option<StringMap<String>>) -> Option<BTreeMap<String, String>> {
    map.as_ref().map(sorted)
}

fn customized_action_job_spec() -> ActionJob {
    ActionJob {
        workdir: Some("/custom-workdir".to_string()),
        cloner_image: Some("custom-cloner-image:latest".to_string()),
        action_image: Some("custom-action-image:latest".to_string()),
        args: Some(strings(&["arg1", "arg2"])),
        command: Some(strings(&["command1", "command2"])),
        service_account: Some("custom-service-account-name".to_string()),
        annotations: Some(custom_annotations()),
        labels: Some(custom_labels()),
        tolerations: Some(tolerations()),
        affinity: Some(affinity()),
        node_selector: Some(node_labels()),
        ttl_seconds_after_finished: Some(231),
        active_deadline_seconds: Some(321),
        job_waiting_timeout_seconds: Some(123),
        enable_cloner_debug: true,
        preserve_git_folder: true,
    }
}

fn label<'a>(job: &'a Job, name: &str) -> Option<&'a str> {
    job.labels.get(name).map(|v| v.as_str())
}

fn env(job: &Job, name: &str) -> Option<String> {
    let envs = job.pod.container.env.as_ref().unwrap();
    envs.iter()
        .find(|e| e.name == format!("ACTION_JOB_{name}"))
        .map(|e| e.value.clone())
}

fn assert_common(job: &Job, kind: &str, name: &str, source_kind: &str) {
    assert!(job.name.starts_with(&format!("{name}-")));
    assert_eq!(job.name, job.name.to_lowercase());
    assert_eq!(job.name.len(), name.len() + "-YYYYMMDD-HHMMSS-xx".len());
    let time = &job.name[name.len() + 1..job.name.len() - 3];
    assert_eq!(time.find('-'), Some(8));
    assert_eq!(time.chars().filter(|c| c.is_ascii_digit()).count(), 14);
    assert_eq!(label(job, "git-events-runner.rs/action-kind"), Some(kind));
    assert_eq!(label(job, "git-events-runner.rs/action-name"), Some(name));
    assert_eq!(label(job, "git-events-runner.rs/source-kind"), Some(source_kind));
    assert_eq!(label(job, "git-events-runner.rs/source-name"), Some(TEST_SOURCE_NAME));
    assert_eq!(label(job, "git-events-runner.rs/trigger-kind"), Some(TEST_TRIGGER_KIND));
    assert_eq!(label(job, "git-events-runner.rs/trigger-name"), Some(TEST_TRIGGER_NAME));
    assert_eq!(job.owner_reference.api_version, "git-events-runner.rs/v1alpha1");
    assert_eq!(job.owner_reference.kind, kind);
    assert_eq!(job.owner_reference.name, name);
    assert_eq!(job.owner_reference.uid, "uid-1");
    assert!(job.owner_reference.controller);
    assert_eq!(job.backoff_limit, 0);
    assert_eq!(job.parallelism, 1);
    assert_eq!(job.namespace, None);
    assert_eq!(job.pod.restart_policy, "Never");
    assert_eq!(job.pod.volume, "action_workdir");
    assert_eq!(env(job, "TRIGGER_SOURCE_KIND"), Some(source_kind.to_string()));
    assert_eq!(env(job, "TRIGGER_SOURCE_NAME"), Some(TEST_SOURCE_NAME.to_string()));
    assert_eq!(env(job, "TRIGGER_SOURCE_COMMIT"), Some(TEST_SOURCE_COMMIT.to_string()));
    assert_eq!(env(job, "TRIGGER_KIND"), Some(TEST_TRIGGER_KIND.to_string()));
    assert_eq!(env(job, "TRIGGER_NAME"), Some(TEST_TRIGGER_NAME.to_string()));
    let namespace = if source_kind == "GitRepo" {
        Some(TEST_ACTION_NAMESPACE.to_string())
    } else {
        None
    };
    assert_eq!(env(job, "TRIGGER_SOURCE_NAMESPACE"), namespace);
}

fn assert_default(job: &Job, source_kind: &str) {
    assert_eq!(job.ttl_seconds_after_finished, 7200);
    assert_eq!(job.active_deadline_seconds, Some(3600));
    assert!(job.annotations.is_none());
    assert!(job.pod_metadata.is_none());
    assert_eq!(job.labels.len(), 6);
    assert_eq!(job.pod.service_account_name, None);
    assert!(job.pod.node_selector.is_none());
    assert_eq!(job.pod.tolerations, None);
    assert_eq!(job.pod.affinity, None);
    assert_eq!(job.pod.container.args, None);
    assert_eq!(job.pod.container.command, None);
    let envs = job.pod.container.env.as_ref().unwrap().len();
    assert_eq!(envs, if source_kind == "GitRepo" { 9 } else { 8 });
    let cloner = &job.pod.init_container;
    assert_eq!(cloner.name, "gitrepo-cloner");
    assert_eq!(
        cloner.image,
        "ghcr.io/alex-karpenko/git-events-runner/gitrepo-cloner:v0.4.8"
    );
    assert_eq!(
        cloner.args,
        Some(strings(&[
            "--kind",
            source_kind,
            "--source",
            TEST_SOURCE_NAME,
            "--destination",
            "/action_workdir",
            "--commit",
            TEST_SOURCE_COMMIT,
        ]))
    );
    let worker = &job.pod.container;
    assert_eq!(worker.name, "action-worker");
    assert_eq!(
        worker.image,
        "ghcr.io/alex-karpenko/git-events-runner/action-worker:v0.4.8"
    );
    assert_eq!(worker.working_dir, Some("/action_workdir".to_string()));
    assert_eq!(worker.volume_mount.name, "action_workdir");
    assert_eq!(worker.volume_mount.mount_path, "/action_workdir");
    assert_eq!(env(job, "WORKDIR"), Some("/action_workdir".to_string()));
    assert_eq!(env(job, "ACTION_SOURCE_KIND"), None);
}

fn assert_customized(job: &Job, override_kind: &str) {
    assert_eq!(job.ttl_seconds_after_finished, 231);
    assert_eq!(job.active_deadline_seconds, Some(321));
    assert_eq!(label(job, "custom-label-key-1"), Some("custom-label-value-1"));
    assert_eq!(label(job, "custom-label-key-2"), Some("custom-label-value-2"));
    assert_eq!(job.labels.len(), 8);
    let metadata = job.pod_metadata.as_ref().unwrap();
    assert_eq!(opt_sorted(&metadata.labels), Some(sorted(&custom_labels())));
    assert_eq!(opt_sorted(&metadata.annotations), Some(sorted(&custom_annotations())));
    assert_eq!(opt_sorted(&job.annotations), Some(sorted(&custom_annotations())));
    assert_eq!(
        job.pod.service_account_name,
        Some("custom-service-account-name".to_string())
    );
    assert_eq!(job.pod.tolerations, Some(tolerations()));
    assert_eq!(job.pod.affinity, Some(affinity()));
    assert_eq!(opt_sorted(&job.pod.node_selector), Some(sorted(&node_labels())));
    assert_eq!(
        job.pod.init_container.args,
        Some(strings(&[
            "--kind",
            override_kind,
            "--source",
            "git-repo-override",
            "--destination",
            "/custom-workdir",
            "--branch",
            "overridden-branch",
            "--preserve-git-folder",
            "--debug",
        ]))
    );
    let envs = job.pod.container.env.as_ref().unwrap().len();
    let trigger_vars = if env(job, "TRIGGER_SOURCE_NAMESPACE").is_some() { 9 } else { 8 };
    let own_vars = if override_kind == "GitRepo" { 5 } else { 4 };
    assert_eq!(envs, trigger_vars + own_vars);
    assert_eq!(job.pod.init_container.name, "gitrepo-cloner");
    assert_eq!(job.pod.init_container.volume_mount.name, "action_workdir");
    assert_eq!(job.pod.init_container.volume_mount.mount_path, "/custom-workdir");
    assert_eq!(job.pod.container.name, "action-worker");
    assert_eq!(job.pod.container.working_dir, Some("/custom-workdir".to_string()));
    assert_eq!(job.pod.container.volume_mount.name, "action_workdir");
    assert_eq!(job.pod.container.volume_mount.mount_path, "/custom-workdir");
    assert_eq!(job.pod.init_container.image, "custom-cloner-image:latest");
    assert_eq!(job.pod.container.image, "custom-action-image:latest");
    assert_eq!(job.pod.container.args, Some(strings(&["arg1", "arg2"])));
    assert_eq!(job.pod.container.command, Some(strings(&["command1", "command2"])));
    assert_eq!(env(job, "WORKDIR"), Some("/custom-workdir".to_string()));
    assert_eq!(env(job, "ACTION_SOURCE_KIND"), Some(override_kind.to_string()));
    assert_eq!(env(job, "ACTION_SOURCE_NAME"), Some("git-repo-override".to_string()));
    assert_eq!(env(job, "ACTION_SOURCE_REF_TYPE"), Some("branch".to_string()));
    assert_eq!(env(job, "ACTION_SOURCE_REF_NAME"), Some("overridden-branch".to_string()));
    let namespace = if override_kind == "GitRepo" {
        Some(TEST_ACTION_NAMESPACE.to_string())
    } else {
        None
    };
    assert_eq!(env(job, "ACTION_SOURCE_NAMESPACE"), namespace);
}

#[test]
fn correct_env_var_prefix() {
    let config = RuntimeConfig::default();
    let var = format_action_job_env_var(&config, "TEST_VAR", "test_value");
    let prefix = config.action.containers.worker.variables_prefix.clone();
    assert_eq!(var.name, format!("{prefix}TEST_VAR"));
    assert_eq!(var.value, String::from("test_value"));
}

#[test]
fn default_action_job() {
    let config = RuntimeConfig::default();
    let action = Action {
        metadata: metadata(TEST_DEFAULT_ACTION_NAME, Some(TEST_ACTION_NAMESPACE)),
        spec: ActionSpec {
            source_override: None,
            action_job: ActionJob::default(),
        },
    };
    for reference in references() {
        let (ref_type, ref_name) = (reference.to_refname(None).0, reference.to_refname(None).1.clone());
        let job = action.create_job_spec(&config, &occasion(TriggerSourceKind::GitRepo, reference.clone()));
        assert_common(&job, "Action", TEST_DEFAULT_ACTION_NAME, "GitRepo");
        assert_default(&job, "GitRepo");
        assert_eq!(env(&job, "TRIGGER_SOURCE_REF_TYPE"), Some(ref_type));
        assert_eq!(env(&job, "TRIGGER_SOURCE_REF_NAME"), Some(ref_name));

        let job = action.create_job_spec(&config, &occasion(TriggerSourceKind::ClusterGitRepo, reference));
        assert_common(&job, "Action", TEST_DEFAULT_ACTION_NAME, "ClusterGitRepo");
        assert_default(&job, "ClusterGitRepo");
    }
}

#[test]
fn customized_action_job() {
    let config = RuntimeConfig::default();
    let action = Action {
        metadata: metadata(TEST_CUSTOMIZED_ACTION_NAME, Some(TEST_ACTION_NAMESPACE)),
        spec: ActionSpec {
            source_override: Some(ActionSourceOverride {
                kind: TriggerSourceKind::GitRepo,
                name: "git-repo-override".to_string(),
                reference: TriggerGitRepoReference::Branch("overridden-branch".to_string()),
            }),
            action_job: customized_action_job_spec(),
        },
    };
    for reference in references() {
        let job = action.create_job_spec(&config, &occasion(TriggerSourceKind::GitRepo, reference.clone()));
        assert_common(&job, "Action", TEST_CUSTOMIZED_ACTION_NAME, "GitRepo");
        assert_customized(&job, "GitRepo");
        let (job, timeout) = action.execute(&config, &occasion(TriggerSourceKind::ClusterGitRepo, reference));
        assert_common(&job, "Action", TEST_CUSTOMIZED_ACTION_NAME, "ClusterGitRepo");
        assert_customized(&job, "GitRepo");
        assert_eq!(timeout, Some(Duration::from_secs(123)));
    }
}

#[test]
fn default_cluster_action_job() {
    let config = RuntimeConfig::default();
    let action = ClusterAction {
        metadata: metadata(TEST_DEFAULT_ACTION_NAME, None),
        spec: ClusterActionSpec {
            source_override: None,
            action_job: ActionJob::default(),
        },
    };
    for reference in references() {
        let job = action.create_job_spec(&config, &occasion(TriggerSourceKind::GitRepo, reference.clone()));
        assert_common(&job, "ClusterAction", TEST_DEFAULT_ACTION_NAME, "GitRepo");
        assert_default(&job, "GitRepo");
        let job = action.create_job_spec(&config, &occasion(TriggerSourceKind::ClusterGitRepo, reference));
        assert_common(&job, "ClusterAction", TEST_DEFAULT_ACTION_NAME, "ClusterGitRepo");
        assert_default(&job, "ClusterGitRepo");
    }
}

#[test]
fn customized_cluster_action_job() {
    let config = RuntimeConfig::default();
    let action = ClusterAction {
        metadata: metadata(TEST_CUSTOMIZED_ACTION_NAME, None),
        spec: ClusterActionSpec {
            source_override: Some(ClusterActionSourceOverride {
                kind: TriggerClusterSourceKind::default(),
                name: "git-repo-override".to_string(),
                reference: TriggerGitRepoReference::Branch("overridden-branch".to_string()),
            }),
            action_job: customized_action_job_spec(),
        },
    };
    for reference in references() {
        let job = action.create_job_spec(&config, &occasion(TriggerSourceKind::GitRepo, reference.clone()));
        assert_common(&job, "ClusterAction", TEST_CUSTOMIZED_ACTION_NAME, "GitRepo");
        assert_customized(&job, "ClusterGitRepo");
        let job = action.create_job_spec(&config, &occasion(TriggerSourceKind::ClusterGitRepo, reference));
        assert_common(&job, "ClusterAction", TEST_CUSTOMIZED_ACTION_NAME, "ClusterGitRepo");
        assert_customized(&job, "ClusterGitRepo");
    }
}

#[test]
fn variables_come_in_their_order() {
    let config = RuntimeConfig::default();
    let action = Action {
        metadata: metadata("a", Some("ns")),
        spec: ActionSpec {
            source_override: None,
            action_job: ActionJob::default(),
        },
    };
    let envs = action.get_action_job_envs(
        &config,
        &occasion(TriggerSourceKind::GitRepo, TriggerGitRepoReference::Tag("v1".to_string())),
    );
    let names: Vec<&str> = envs.iter().map(|e| e.name.as_str()).collect();
    assert_eq!(
        names,
        vec![
            "ACTION_JOB_WORKDIR",
            "ACTION_JOB_TRIGGER_SOURCE_KIND",
            "ACTION_JOB_TRIGGER_SOURCE_NAME",
            "ACTION_JOB_TRIGGER_SOURCE_COMMIT",
            "ACTION_JOB_TRIGGER_SOURCE_REF_TYPE",
            "ACTION_JOB_TRIGGER_SOURCE_REF_NAME",
            "ACTION_JOB_TRIGGER_KIND",
            "ACTION_JOB_TRIGGER_NAME",
            "ACTION_JOB_TRIGGER_SOURCE_NAMESPACE",
        ]
    );
}

#[test]
fn job_names_are_lower_case() {
    assert_eq!(format_job_name("Deploy", "20240518-171917", "Ab"), "deploy-20240518-171917-ab");
}

#[test]
fn action_labels_win_over_own_labels() {
    let config = RuntimeConfig::default();
    let mut job = ActionJob::default();
    job.labels = Some(map(&[("git-events-runner.rs/source-name", "mine")]));
    let action = Action {
        metadata: metadata("a", Some("ns")),
        spec: ActionSpec {
            source_override: None,
            action_job: job,
        },
    };
    let spec = action.named_job_spec(
        &config,
        &occasion(TriggerSourceKind::GitRepo, TriggerGitRepoReference::default()),
        "name".to_string(),
    );
    assert_eq!(spec.name, "name");
    assert_eq!(label(&spec, "git-events-runner.rs/source-name"), Some("mine"));
    assert_eq!(label(&spec, "git-events-runner.rs/source-kind"), Some("GitRepo"));
    assert!(spec.pod_metadata.unwrap().annotations.is_none());
}
