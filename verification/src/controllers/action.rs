//! Actions whose jobs are created at once.
use crate::resources::action::{
    env_views, format_job_name, is_job_name, is_job_suffix, job_name_of, local_timestamp,
    ActionSourceOverride, Container, EnvVar, Job, OwnerReference, PodSpec, VolumeMount,
};
use crate::resources::trigger::{TriggerGitRepoReference, TriggerSourceKind};
use crate::resources::{random_string, ObjectMeta, API_GROUP, CURRENT_API_VERSION};
use crate::string_map::StringMap;
use crate::text::{copy_opt, copy_opt_strings, opt_list_view, text_map, views};
use vstd::prelude::*;

verus! {

/// Folder to work in.
pub const DEFAULT_ACTION_WORKDIR: &'static str = "/action_workdir";

/// Image of the cloner.
pub const DEFAULT_CLONER_IMAGE: &'static str = "ghcr.io/alex-karpenko/git-events-runner/gitrepo-cloner:latest";

/// Image of the worker.
pub const DEFAULT_ACTION_IMAGE: &'static str = "docker.io/bash:latest";

/// Volume of the folder.
pub const DEFAULT_ACTION_WORKDIR_VOLUME_NAME: &'static str = "action-workdir";

/// Container of the cloner.
pub const DEFAULT_ACTION_INIT_CONTAINER_NAME: &'static str = "action-init";

/// Container of the worker.
pub const DEFAULT_ACTION_WORKER_CONTAINER_NAME: &'static str = "action-worker";

/// What the names of the worker's variables begin with.
pub const DEFAULT_ACTION_JOB_ENV_VARS_PREFIX: &'static str = "ACTION_JOB_";

/// Action of a namespace.
#[derive(Debug)]
pub struct Action {
    /// Metadata.
    pub metadata: ObjectMeta,
    /// What to run.
    pub spec: ActionSpec,
    /// Status.
    pub status: Option<ActionStatus>,
}

/// What an action runs.
#[derive(Debug)]
pub struct ActionSpec {
    /// Source to work on in place of the trigger's.
    pub source_override: Option<ActionSourceOverride>,
    /// Job to run.
    pub action_job: ActionJob,
}

/// Status of an action: nothing.
#[derive(Clone, Copy, Debug, PartialEq, Eq, Structural)]
pub struct ActionStatus {}

/// Job of an action.
#[derive(Debug)]
pub struct ActionJob {
    /// Folder to work in.
    pub workdir: String,
    /// Image of the cloner.
    pub cloner_image: String,
    /// Image of the worker.
    pub action_image: String,
    /// Arguments of the worker's command.
    pub args: Option<Vec<String>>,
    /// Command of the worker.
    pub command: Option<Vec<String>>,
    /// Service account of the job.
    pub service_account: Option<String>,
    /// The cloner writes more to its log.
    pub enable_cloner_debug: bool,
    /// The cloner leaves the folder of Git.
    pub preserve_git_folder: bool,
}

impl Default for ActionJob {
    fn default() -> (r: Self)
        ensures
            r.workdir@ == "/action_workdir"@,
            r.cloner_image@ == "ghcr.io/alex-karpenko/git-events-runner/gitrepo-cloner:latest"@,
            r.action_image@ == "docker.io/bash:latest"@,
            r.args is None,
            r.command is None,
            r.service_account is None,
            !r.enable_cloner_debug,
            !r.preserve_git_folder,
    {
        ActionJob {
            workdir: DEFAULT_ACTION_WORKDIR.to_owned(),
            cloner_image: DEFAULT_CLONER_IMAGE.to_owned(),
            action_image: DEFAULT_ACTION_IMAGE.to_owned(),
            args: None,
            command: None,
            service_account: None,
            enable_cloner_debug: false,
            preserve_git_folder: false,
        }
    }
}

/// Arguments of the cloner for a source.
pub open spec fn cloner_args(
    job: ActionJob,
    namespace: Seq<char>,
    kind: TriggerSourceKind,
    name: Seq<char>,
    reference: TriggerGitRepoReference,
) -> Seq<Seq<char>> {
    seq![
        "--kind"@,
        kind.name(),
        "--source"@,
        name,
        "--destination"@,
        job.workdir@,
        "--"@ + reference.ref_type(),
        reference.ref_name(),
    ] + (if kind == TriggerSourceKind::GitRepo {
        seq!["--namespace"@, namespace]
    } else {
        seq![]
    }) + (if job.preserve_git_folder {
        seq!["--preserve-git-folder"@]
    } else {
        seq![]
    }) + (if job.enable_cloner_debug {
        seq!["--debug"@]
    } else {
        seq![]
    })
}

/// Variables of the worker, without the prefix of their names.
pub open spec fn worker_vars(
    spec_: ActionSpec,
    namespace: Seq<char>,
    kind: TriggerSourceKind,
    name: Seq<char>,
    commit: Seq<char>,
    trigger_ref: TriggerGitRepoReference,
) -> Seq<(Seq<char>, Seq<char>)> {
    seq![
        ("WORKDIR"@, spec_.action_job.workdir@),
        ("TRIGGER_SOURCE_KIND"@, kind.name()),
        ("TRIGGER_SOURCE_NAME"@, name),
        ("TRIGGER_SOURCE_COMMIT"@, commit),
        ("TRIGGER_SOURCE_REF_TYPE"@, trigger_ref.ref_type()),
        ("TRIGGER_SOURCE_REF_NAME"@, trigger_ref.ref_name()),
    ] + (if kind == TriggerSourceKind::GitRepo {
        seq![("TRIGGER_SOURCE_NAMESPACE"@, namespace)]
    } else {
        seq![]
    }) + (match spec_.source_override {
        Some(s) => seq![
            ("ACTION_SOURCE_KIND"@, s.kind.name()),
            ("ACTION_SOURCE_NAME"@, s.name@),
            ("ACTION_SOURCE_REF_TYPE"@, s.reference.ref_type()),
            ("ACTION_SOURCE_REF_NAME"@, s.reference.ref_name()),
        ] + (if s.kind == TriggerSourceKind::GitRepo {
            seq![("ACTION_SOURCE_NAMESPACE"@, namespace)]
        } else {
            seq![]
        }),
        None => seq![],
    })
}

/// Variables with the prefix before their names.
pub open spec fn prefixed(vars: Seq<(Seq<char>, Seq<char>)>) -> Seq<(Seq<char>, Seq<char>)> {
    vars.map_values(|var: (Seq<char>, Seq<char>)| ("ACTION_JOB_"@ + var.0, var.1))
}

/// Labels of a job.
pub open spec fn job_labels(action: Seq<char>, kind: TriggerSourceKind, name: Seq<char>) -> Map<
    Seq<char>,
    Seq<char>,
> {
    Map::<Seq<char>, Seq<char>>::empty().insert("git-events-runner.rs/job"@, "true"@).insert(
        "git-events-runner.rs/action-kind"@,
        "Action"@,
    ).insert("git-events-runner.rs/action-name"@, action).insert(
        "git-events-runner.rs/source-kind"@,
        kind.name(),
    ).insert("git-events-runner.rs/source-name"@, name)
}

/// The job is what the action runs for a source, whatever its name.
pub open spec fn is_job(
    job: Job,
    action: Action,
    kind: TriggerSourceKind,
    name: Seq<char>,
    commit: Seq<char>,
    trigger_ref: TriggerGitRepoReference,
) -> bool {
    let spec_job = action.spec.action_job;
    let namespace = action.metadata.namespace->0;
    let cloner = job.pod.init_container;
    let worker = job.pod.container;
    &&& job.namespace == action.metadata.namespace
    &&& text_map(job.labels@) == job_labels(action.metadata.any_name(), kind, name)
    &&& job.annotations is None
    &&& job.owner_reference.api_version@ == "git-events-runner.rs"@ + "/"@ + "v1alpha1"@
    &&& job.owner_reference.kind@ == "Action"@
    &&& Some(job.owner_reference.name) == action.metadata.name
    &&& Some(job.owner_reference.uid) == action.metadata.uid
    &&& job.owner_reference.controller
    &&& job.backoff_limit == 0
    &&& job.parallelism == 1
    &&& job.ttl_seconds_after_finished == 300
    &&& job.active_deadline_seconds is None
    &&& job.pod_metadata is None
    &&& job.pod.service_account_name == spec_job.service_account
    &&& job.pod.node_selector is None
    &&& job.pod.affinity is None
    &&& job.pod.tolerations is None
    &&& job.pod.restart_policy@ == "Never"@
    &&& job.pod.volume@ == "action-workdir"@
    &&& cloner.name@ == "action-init"@
    &&& cloner.image == spec_job.cloner_image
    &&& cloner.working_dir is None
    &&& cloner.command is None
    &&& cloner.env is None
    &&& cloner.args matches Some(args) && views(args@) == (match action.spec.source_override {
        Some(s) => cloner_args(spec_job, namespace@, s.kind, s.name@, s.reference),
        None => cloner_args_of_commit(spec_job, namespace@, kind, name, commit),
    })
    &&& cloner.volume_mount.name@ == "action-workdir"@
    &&& cloner.volume_mount.mount_path == spec_job.workdir
    &&& worker.name@ == "action-worker"@
    &&& worker.image == spec_job.action_image
    &&& worker.working_dir == Some(spec_job.workdir)
    &&& opt_list_view(worker.command) == opt_list_view(spec_job.command)
    &&& opt_list_view(worker.args) == opt_list_view(spec_job.args)
    &&& worker.env matches Some(envs) && env_views(envs@) == prefixed(
        worker_vars(action.spec, namespace@, kind, name, commit, trigger_ref),
    )
    &&& worker.volume_mount.name@ == "action-workdir"@
    &&& worker.volume_mount.mount_path == spec_job.workdir
}

/// Arguments of the cloner for a commit of a source.
pub open spec fn cloner_args_of_commit(
    job: ActionJob,
    namespace: Seq<char>,
    kind: TriggerSourceKind,
    name: Seq<char>,
    commit: Seq<char>,
) -> Seq<Seq<char>> {
    seq![
        "--kind"@,
        kind.name(),
        "--source"@,
        name,
        "--destination"@,
        job.workdir@,
        "--"@ + "commit"@,
        commit,
    ] + (if kind == TriggerSourceKind::GitRepo {
        seq!["--namespace"@, namespace]
    } else {
        seq![]
    }) + (if job.preserve_git_folder {
        seq!["--preserve-git-folder"@]
    } else {
        seq![]
    }) + (if job.enable_cloner_debug {
        seq!["--debug"@]
    } else {
        seq![]
    })
}

impl Action {
    fn namespace(&self) -> (r: String)
        requires
            self.metadata.namespace is Some,
        ensures
            Some(r) == self.metadata.namespace,
    {
        match &self.metadata.namespace {
            Some(namespace) => namespace.clone(),
            None => String::new(),
        }
    }

    /// Arguments of the cloner for a source.
    pub fn get_gitrepo_cloner_args(
        &self,
        source_kind: &TriggerSourceKind,
        source_name: &str,
        source_ref: &TriggerGitRepoReference,
    ) -> (r: Vec<String>)
        requires
            self.metadata.namespace is Some,
        ensures
            views(r@) == cloner_args(
                self.spec.action_job,
                self.metadata.namespace->0@,
                *source_kind,
                source_name@,
                *source_ref,
            ),
    {
        let mut args: Vec<String> = Vec::new();
        args.push("--kind".to_owned());
        args.push(source_kind.to_string());
        args.push("--source".to_owned());
        args.push(source_name.to_owned());
        args.push("--destination".to_owned());
        args.push(self.spec.action_job.workdir.clone());
        let (ref_type, ref_name) = source_ref.to_refname(Some("--"));
        args.push(ref_type);
        args.push(ref_name.clone());
        if *source_kind == TriggerSourceKind::GitRepo {
            args.push("--namespace".to_owned());
            args.push(self.namespace());
        }
        if self.spec.action_job.preserve_git_folder {
            args.push("--preserve-git-folder".to_owned());
        }
        if self.spec.action_job.enable_cloner_debug {
            args.push("--debug".to_owned());
        }
        assert(views(args@) =~= cloner_args(
            self.spec.action_job,
            self.metadata.namespace->0@,
            *source_kind,
            source_name@,
            *source_ref,
        ));
        args
    }

    /// Makes an environment variable. The name begins with the prefix.
    pub fn create_action_job_env_var(name: &str, value: &str) -> (r: EnvVar)
        ensures
            r@ == ("ACTION_JOB_"@ + name@, value@),
    {
        EnvVar {
            name: DEFAULT_ACTION_JOB_ENV_VARS_PREFIX.to_owned().concat(name),
            value: value.to_owned(),
        }
    }

    /// Environment variables of the worker.
    pub fn get_action_job_envs(
        &self,
        source_kind: &TriggerSourceKind,
        source_name: &str,
        source_commit: &str,
        trigger_ref: &TriggerGitRepoReference,
    ) -> (r: Vec<EnvVar>)
        requires
            self.metadata.namespace is Some,
        ensures
            env_views(r@) == prefixed(
                worker_vars(
                    self.spec,
                    self.metadata.namespace->0@,
                    *source_kind,
                    source_name@,
                    source_commit@,
                    *trigger_ref,
                ),
            ),
    {
        let namespace = self.namespace();
        let kind = source_kind.to_string();
        let (trigger_ref_type, trigger_ref_name) = trigger_ref.to_refname(None);
        let mut envs: Vec<EnvVar> = Vec::new();
        envs.push(Self::create_action_job_env_var("WORKDIR", self.spec.action_job.workdir.as_str()));
        envs.push(Self::create_action_job_env_var("TRIGGER_SOURCE_KIND", kind.as_str()));
        envs.push(Self::create_action_job_env_var("TRIGGER_SOURCE_NAME", source_name));
        envs.push(Self::create_action_job_env_var("TRIGGER_SOURCE_COMMIT", source_commit));
        envs.push(
            Self::create_action_job_env_var("TRIGGER_SOURCE_REF_TYPE", trigger_ref_type.as_str()),
        );
        envs.push(
            Self::create_action_job_env_var("TRIGGER_SOURCE_REF_NAME", trigger_ref_name.as_str()),
        );
        if *source_kind == TriggerSourceKind::GitRepo {
            envs.push(
                Self::create_action_job_env_var("TRIGGER_SOURCE_NAMESPACE", namespace.as_str()),
            );
        }
        if let Some(source) = &self.spec.source_override {
            let (ref_type, ref_name) = source.reference.to_refname(None);
            let override_kind = source.kind.to_string();
            envs.push(Self::create_action_job_env_var("ACTION_SOURCE_KIND", override_kind.as_str()));
            envs.push(Self::create_action_job_env_var("ACTION_SOURCE_NAME", source.name.as_str()));
            envs.push(Self::create_action_job_env_var("ACTION_SOURCE_REF_TYPE", ref_type.as_str()));
            envs.push(Self::create_action_job_env_var("ACTION_SOURCE_REF_NAME", ref_name.as_str()));
            if source.kind == TriggerSourceKind::GitRepo {
                envs.push(
                    Self::create_action_job_env_var("ACTION_SOURCE_NAMESPACE", namespace.as_str()),
                );
            }
        }
        assert(env_views(envs@) =~= prefixed(
            worker_vars(
                self.spec,
                self.metadata.namespace->0@,
                *source_kind,
                source_name@,
                source_commit@,
                *trigger_ref,
            ),
        ));
        envs
    }

    /// Name of a new job: the name of the action, the present and two random characters, in lower
    /// case.
    pub fn job_name(&self) -> (r: String)
        ensures
            is_job_name(r@, self.metadata.any_name()),
    {
        let timestamp = local_timestamp();
        let suffix = random_string(2);
        let r = format_job_name(
            self.metadata.name_any().as_str(),
            timestamp.as_str(),
            suffix.as_str(),
        );
        proof {
            assert(is_job_suffix(suffix@));
            assert(r@ == job_name_of(self.metadata.any_name(), timestamp@, suffix@));
        }
        r
    }

    fn job_labels(&self, source_kind: &TriggerSourceKind, source_name: &str) -> (r: StringMap<String>)
        ensures
            text_map(r@) == job_labels(self.metadata.any_name(), *source_kind, source_name@),
    {
        let mut labels: StringMap<String> = StringMap::new();
        labels.insert("git-events-runner.rs/job".to_owned(), "true".to_owned());
        labels.insert("git-events-runner.rs/action-kind".to_owned(), "Action".to_owned());
        labels.insert("git-events-runner.rs/action-name".to_owned(), self.metadata.name_any());
        labels.insert("git-events-runner.rs/source-kind".to_owned(), source_kind.to_string());
        labels.insert("git-events-runner.rs/source-name".to_owned(), source_name.to_owned());
        assert(text_map(labels@) =~= job_labels(
            self.metadata.any_name(),
            *source_kind,
            source_name@,
        ));
        labels
    }

    /// Job that the action runs for a commit of a source, under the given name.
    pub fn named_job_spec(
        &self,
        source_kind: &TriggerSourceKind,
        source_name: &str,
        source_commit: &str,
        trigger_ref: &TriggerGitRepoReference,
        name: String,
    ) -> (r: Job)
        requires
            self.metadata.namespace is Some,
            self.metadata.name is Some,
            self.metadata.uid is Some,
        ensures
            r.name == name,
            is_job(r, *self, *source_kind, source_name@, source_commit@, *trigger_ref),
    {
        let action_job = &self.spec.action_job;
        let args: Vec<String> = match &self.spec.source_override {
            Some(source) => self.get_gitrepo_cloner_args(
                &source.kind,
                source.name.as_str(),
                &source.reference,
            ),
            None => {
                let commit = TriggerGitRepoReference::Commit(source_commit.to_owned());
                let args = self.get_gitrepo_cloner_args(source_kind, source_name, &commit);
                assert(views(args@) =~= cloner_args_of_commit(
                    self.spec.action_job,
                    self.metadata.namespace->0@,
                    *source_kind,
                    source_name@,
                    source_commit@,
                ));
                args
            },
        };
        let init_container = Container {
            name: DEFAULT_ACTION_INIT_CONTAINER_NAME.to_owned(),
            image: action_job.cloner_image.clone(),
            working_dir: None,
            command: None,
            args: Some(args),
            env: None,
            volume_mount: VolumeMount {
                name: DEFAULT_ACTION_WORKDIR_VOLUME_NAME.to_owned(),
                mount_path: action_job.workdir.clone(),
            },
        };
        let container = Container {
            name: DEFAULT_ACTION_WORKER_CONTAINER_NAME.to_owned(),
            image: action_job.action_image.clone(),
            working_dir: Some(action_job.workdir.clone()),
            command: copy_opt_strings(&action_job.command),
            args: copy_opt_strings(&action_job.args),
            env: Some(
                self.get_action_job_envs(source_kind, source_name, source_commit, trigger_ref),
            ),
            volume_mount: VolumeMount {
                name: DEFAULT_ACTION_WORKDIR_VOLUME_NAME.to_owned(),
                mount_path: action_job.workdir.clone(),
            },
        };
        let owner_name: String = match &self.metadata.name {
            Some(owner) => owner.clone(),
            None => String::new(),
        };
        let owner_uid: String = match &self.metadata.uid {
            Some(uid) => uid.clone(),
            None => String::new(),
        };
        Job {
            name,
            namespace: Some(self.namespace()),
            labels: self.job_labels(source_kind, source_name),
            annotations: None,
            owner_reference: OwnerReference {
                api_version: API_GROUP.to_owned().concat("/").concat(CURRENT_API_VERSION),
                kind: "Action".to_owned(),
                name: owner_name,
                uid: owner_uid,
                controller: true,
            },
            backoff_limit: 0,
            parallelism: 1,
            ttl_seconds_after_finished: 300,
            active_deadline_seconds: None,
            pod_metadata: None,
            pod: PodSpec {
                service_account_name: copy_opt(&action_job.service_account),
                node_selector: None,
                affinity: None,
                tolerations: None,
                init_container,
                container,
                restart_policy: "Never".to_owned(),
                volume: DEFAULT_ACTION_WORKDIR_VOLUME_NAME.to_owned(),
            },
        }
    }

    /// Job that the action runs for a commit of a source. It is created in the action's namespace.
    pub fn create_job_spec(
        &self,
        source_kind: &TriggerSourceKind,
        source_name: &str,
        source_commit: &str,
        trigger_ref: &TriggerGitRepoReference,
    ) -> (r: Job)
        requires
            self.metadata.namespace is Some,
            self.metadata.name is Some,
            self.metadata.uid is Some,
        ensures
            is_job_name(r.name@, self.metadata.any_name()),
            is_job(r, *self, *source_kind, source_name@, source_commit@, *trigger_ref),
    {
        self.named_job_spec(source_kind, source_name, source_commit, trigger_ref, self.job_name())
    }
}

} // verus!
