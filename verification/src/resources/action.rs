//! Actions: what triggers run.
use super::trigger::{TriggerGitRepoReference, TriggerSourceKind};
use super::{is_alphanumeric, random_string, CustomApiResource, ObjectMeta, API_GROUP, CURRENT_API_VERSION};
use crate::config::RuntimeConfig;
use crate::string_map::{copy_opt_map, copy_text_map, opt_map_view, StringMap};
use crate::text::{
    copy_opt, copy_opt_strings, copy_or, is_digit, opt_list_view, opt_view, text_map, text_or, views,
};
use crate::time::Duration;
use vstd::prelude::*;

verus! {

/// Label of a job with the kind of its action.
pub const ACTION_JOB_ACTION_KIND_LABEL: &'static str = "git-events-runner.rs/action-kind";

/// Label of a job with the name of its action.
pub const ACTION_JOB_ACTION_NAME_LABEL: &'static str = "git-events-runner.rs/action-name";

/// Label of a job with the kind of its source.
pub const ACTION_JOB_SOURCE_KIND_LABEL: &'static str = "git-events-runner.rs/source-kind";

/// Label of a job with the name of its source.
pub const ACTION_JOB_SOURCE_NAME_LABEL: &'static str = "git-events-runner.rs/source-name";

/// Label of a job with the kind of its trigger.
pub const ACTION_JOB_TRIGGER_KIND_LABEL: &'static str = "git-events-runner.rs/trigger-kind";

/// Label of a job with the name of its trigger.
pub const ACTION_JOB_TRIGGER_NAME_LABEL: &'static str = "git-events-runner.rs/trigger-name";

/// Rules on where pods run, as `k8s_openapi` has them. Nothing here looks inside.
#[verifier::external_type_specification]
#[verifier::external_body]
pub struct ExAffinity(k8s_openapi::api::core::v1::Affinity);

/// Taint of a node that pods put up with, as `k8s_openapi` has it. Nothing here looks inside.
#[verifier::external_type_specification]
#[verifier::external_body]
pub struct ExToleration(k8s_openapi::api::core::v1::Toleration);

/// `k8s_openapi`'s derived `clone` of `Affinity` gives the same rules.
pub assume_specification[ <k8s_openapi::api::core::v1::Affinity as Clone>::clone ](
    value: &k8s_openapi::api::core::v1::Affinity,
) -> (r: k8s_openapi::api::core::v1::Affinity)
    ensures
        r == *value,
;

/// `k8s_openapi`'s derived `clone` of `Toleration` gives the same taint.
pub assume_specification[ <k8s_openapi::api::core::v1::Toleration as Clone>::clone ](
    value: &k8s_openapi::api::core::v1::Toleration,
) -> (r: k8s_openapi::api::core::v1::Toleration)
    ensures
        r == *value,
;

/// Action of a namespace.
#[derive(Debug)]
pub struct Action {
    /// Metadata.
    pub metadata: ObjectMeta,
    /// What to run.
    pub spec: ActionSpec,
}

/// What an action runs.
#[derive(Debug)]
pub struct ActionSpec {
    /// Source to work on in place of the trigger's.
    pub source_override: Option<ActionSourceOverride>,
    /// Job to run.
    pub action_job: ActionJob,
}

/// Action of the whole cluster.
#[derive(Debug)]
pub struct ClusterAction {
    /// Metadata.
    pub metadata: ObjectMeta,
    /// What to run.
    pub spec: ClusterActionSpec,
}

/// What an action of the cluster runs.
#[derive(Debug)]
pub struct ClusterActionSpec {
    /// Source to work on in place of the trigger's.
    pub source_override: Option<ClusterActionSourceOverride>,
    /// Job to run.
    pub action_job: ActionJob,
}

/// Source to work on in place of the trigger's.
#[derive(Debug)]
pub struct ActionSourceOverride {
    /// Kind of the source.
    pub kind: TriggerSourceKind,
    /// Name of the source.
    pub name: String,
    /// Reference of the source.
    pub reference: TriggerGitRepoReference,
}

/// Source that an action of the cluster works on in place of the trigger's.
#[derive(Debug)]
pub struct ClusterActionSourceOverride {
    /// Kind of the source.
    pub kind: TriggerClusterSourceKind,
    /// Name of the source.
    pub name: String,
    /// Reference of the source.
    pub reference: TriggerGitRepoReference,
}

/// Kind of a source that an action of the cluster can work on.
#[derive(Clone, Copy, Debug, PartialEq, Eq, Structural)]
pub enum TriggerClusterSourceKind {
    /// Repository of the whole cluster.
    ClusterGitRepo,
}

impl Default for TriggerClusterSourceKind {
    fn default() -> (r: Self)
        ensures
            r == TriggerClusterSourceKind::ClusterGitRepo,
    {
        TriggerClusterSourceKind::ClusterGitRepo
    }
}

/// Job of an action. What it doesn't say comes from the configuration.
#[derive(Debug)]
pub struct ActionJob {
    /// Folder to work in.
    pub workdir: Option<String>,
    /// Image of the cloner.
    pub cloner_image: Option<String>,
    /// Image of the worker.
    pub action_image: Option<String>,
    /// Arguments of the worker's command.
    pub args: Option<Vec<String>>,
    /// Command of the worker.
    pub command: Option<Vec<String>>,
    /// Service account of the job.
    pub service_account: Option<String>,
    /// Annotations of the job.
    pub annotations: Option<StringMap<String>>,
    /// Labels of the job.
    pub labels: Option<StringMap<String>>,
    /// Taints that the job puts up with.
    pub tolerations: Option<Vec<k8s_openapi::api::core::v1::Toleration>>,
    /// Rules on where the job runs.
    pub affinity: Option<k8s_openapi::api::core::v1::Affinity>,
    /// Labels of nodes that the job runs on.
    pub node_selector: Option<StringMap<String>>,
    /// Seconds that the finished job is kept.
    pub ttl_seconds_after_finished: Option<i32>,
    /// Seconds that the job may take.
    pub active_deadline_seconds: Option<i64>,
    /// Seconds that the job waits for its turn.
    pub job_waiting_timeout_seconds: Option<u64>,
    /// The cloner writes more to its log.
    pub enable_cloner_debug: bool,
    /// The cloner leaves the folder of Git.
    pub preserve_git_folder: bool,
}

impl Default for ActionJob {
    fn default() -> (r: Self)
        ensures
            r.workdir is None,
            r.cloner_image is None,
            r.action_image is None,
            r.args is None,
            r.command is None,
            r.service_account is None,
            r.annotations is None,
            r.labels is None,
            r.tolerations is None,
            r.affinity is None,
            r.node_selector is None,
            r.ttl_seconds_after_finished is None,
            r.active_deadline_seconds is None,
            r.job_waiting_timeout_seconds is None,
            !r.enable_cloner_debug,
            !r.preserve_git_folder,
    {
        ActionJob {
            workdir: None,
            cloner_image: None,
            action_image: None,
            args: None,
            command: None,
            service_account: None,
            annotations: None,
            labels: None,
            tolerations: None,
            affinity: None,
            node_selector: None,
            ttl_seconds_after_finished: None,
            active_deadline_seconds: None,
            job_waiting_timeout_seconds: None,
            enable_cloner_debug: false,
            preserve_git_folder: false,
        }
    }
}

/// Job to be created in the cluster.
#[derive(Debug)]
pub struct Job {
    /// Name of the job.
    pub name: String,
    /// Namespace of the job.
    pub namespace: Option<String>,
    /// Labels of the job.
    pub labels: StringMap<String>,
    /// Annotations of the job.
    pub annotations: Option<StringMap<String>>,
    /// Owner of the job: it goes when its owner goes.
    pub owner_reference: OwnerReference,
    /// Number of retries.
    pub backoff_limit: i32,
    /// Number of pods at the same time.
    pub parallelism: i32,
    /// Seconds that the finished job is kept.
    pub ttl_seconds_after_finished: i32,
    /// Seconds that the job may take, if that is limited.
    pub active_deadline_seconds: Option<i64>,
    /// Metadata of the job's pods.
    pub pod_metadata: Option<PodMetadata>,
    /// The job's pods.
    pub pod: PodSpec,
}

/// Owner of a resource.
#[derive(Debug)]
pub struct OwnerReference {
    /// API group and version of the owner.
    pub api_version: String,
    /// Kind of the owner.
    pub kind: String,
    /// Name of the owner.
    pub name: String,
    /// Unique identifier of the owner.
    pub uid: String,
    /// The owner controls the resource.
    pub controller: bool,
}

/// Metadata of a job's pods.
#[derive(Debug)]
pub struct PodMetadata {
    /// Labels of the pods.
    pub labels: Option<StringMap<String>>,
    /// Annotations of the pods.
    pub annotations: Option<StringMap<String>>,
}

/// Pods of a job.
#[derive(Debug)]
pub struct PodSpec {
    /// Service account.
    pub service_account_name: Option<String>,
    /// Labels of nodes that the pods run on.
    pub node_selector: Option<StringMap<String>>,
    /// Rules on where the pods run.
    pub affinity: Option<k8s_openapi::api::core::v1::Affinity>,
    /// Taints that the pods put up with.
    pub tolerations: Option<Vec<k8s_openapi::api::core::v1::Toleration>>,
    /// Container that runs first.
    pub init_container: Container,
    /// Container that runs then.
    pub container: Container,
    /// When a container is run again.
    pub restart_policy: String,
    /// Empty volume of the pods.
    pub volume: String,
}

/// Container of a pod.
#[derive(Debug)]
pub struct Container {
    /// Name of the container.
    pub name: String,
    /// Image of the container.
    pub image: String,
    /// Folder to start in.
    pub working_dir: Option<String>,
    /// Command to run in place of the image's.
    pub command: Option<Vec<String>>,
    /// Arguments of the command.
    pub args: Option<Vec<String>>,
    /// Environment variables.
    pub env: Option<Vec<EnvVar>>,
    /// Volume of the container.
    pub volume_mount: VolumeMount,
}

/// Volume of a container.
#[derive(Debug)]
pub struct VolumeMount {
    /// Name of the volume.
    pub name: String,
    /// Path of the volume.
    pub mount_path: String,
}

/// Environment variable.
#[derive(Debug)]
pub struct EnvVar {
    /// Name of the variable.
    pub name: String,
    /// Value of the variable.
    pub value: String,
}

impl View for EnvVar {
    type V = (Seq<char>, Seq<char>);

    /// Name and value.
    open spec fn view(&self) -> (Seq<char>, Seq<char>) {
        (self.name@, self.value@)
    }
}

/// Names and values of variables.
pub open spec fn env_views(envs: Seq<EnvVar>) -> Seq<(Seq<char>, Seq<char>)> {
    envs.map_values(|env: EnvVar| env@)
}

/// Makes an environment variable. The name begins with the configured prefix.
pub fn format_action_job_env_var(config: &RuntimeConfig, name: &str, value: &str) -> (r: EnvVar)
    ensures
        r@ == (config.action.containers.worker.variables_prefix@ + name@, value@),
{
    EnvVar {
        name: config.action.containers.worker.variables_prefix.clone().concat(name),
        value: value.to_owned(),
    }
}

/// Text in lower case, by the rules of Unicode.
pub uninterp spec fn lowercase(text: Seq<char>) -> Seq<char>;

/// Makes a text lower case with `std`'s `str::to_lowercase`. The result depends on the text alone.
#[verifier::external_body]
fn to_lowercase(text: &str) -> (r: String)
    ensures
        r@ == lowercase(text@),
{
    text.to_lowercase()
}

/// The text has the form of a time: a year of at least four digits, which may have a sign, two digits
/// each for the month and the day, a dash, and two digits each for the hour, the minute and the second.
pub open spec fn is_timestamp(text: Seq<char>) -> bool {
    &&& text.len() >= 15
    &&& is_digit(text[0]) || text[0] == '+' || text[0] == '-'
    &&& text[text.len() - 7] == '-'
    &&& forall|i: int|
        1 <= i < text.len() && i != text.len() - 7 ==> is_digit(#[trigger] text[i])
}

/// Writes the present in the machine's time zone with `chrono`: `DateTime::<Local>` of
/// `SystemTime::now`, in the format `%Y%m%d-%H%M%S`. A year before 0 or after 9999 has a sign. Which
/// time it is depends on the clock and on the time zone, so only the form is said of it.
#[verifier::external_body]
pub(crate) fn local_timestamp() -> (r: String)
    ensures
        is_timestamp(r@),
{
    chrono::DateTime::<chrono::Local>::from(std::time::SystemTime::now()).format("%Y%m%d-%H%M%S").to_string()
}

/// Name of a job from the name of its action, a time and a suffix.
pub open spec fn job_name_of(action: Seq<char>, timestamp: Seq<char>, suffix: Seq<char>) -> Seq<char> {
    lowercase(action + "-"@ + timestamp + "-"@ + suffix)
}

/// Makes the name of a job from the name of its action, a time and a suffix.
pub fn format_job_name(action: &str, timestamp: &str, suffix: &str) -> (r: String)
    ensures
        r@ == job_name_of(action@, timestamp@, suffix@),
{
    let name = action.to_owned().concat("-").concat(timestamp).concat("-").concat(suffix);
    to_lowercase(name.as_str())
}

/// The suffix is two letters or digits.
pub open spec fn is_job_suffix(suffix: Seq<char>) -> bool {
    suffix.len() == 2 && is_alphanumeric(suffix[0]) && is_alphanumeric(suffix[1])
}

/// The name is one that a job of the action gets at some time.
pub open spec fn is_job_name(name: Seq<char>, action: Seq<char>) -> bool {
    exists|timestamp: Seq<char>, suffix: Seq<char>|
        is_timestamp(timestamp) && is_job_suffix(suffix) && name == #[trigger] job_name_of(
            action,
            timestamp,
            suffix,
        )
}

/// Occasion on which an action runs.
#[derive(Debug)]
pub struct Occasion {
    /// Kind of the source.
    pub source_kind: TriggerSourceKind,
    /// Name of the source.
    pub source_name: String,
    /// Commit of the source.
    pub source_commit: String,
    /// Reference of the source that the trigger watches.
    pub trigger_ref: TriggerGitRepoReference,
    /// Namespace of the trigger.
    pub namespace: String,
    /// Kind of the trigger.
    pub trigger_kind: String,
    /// Name of the trigger.
    pub trigger_name: String,
}

/// What all kinds of actions have.
pub trait ActionInternals: CustomApiResource + Sized {
    /// Metadata of the action.
    spec fn the_meta(&self) -> ObjectMeta;

    /// Job of the action.
    spec fn the_job(&self) -> ActionJob;

    /// Source to work on in place of the trigger's.
    spec fn the_override(&self) -> Option<ActionSourceOverride>;

    /// Metadata of the action.
    fn meta(&self) -> (r: &ObjectMeta)
        ensures
            *r == self.the_meta(),
    ;

    /// Job of the action.
    fn action_job_spec(&self) -> (r: &ActionJob)
        ensures
            *r == self.the_job(),
    ;

    /// Source to work on in place of the trigger's.
    fn source_override_spec(&self) -> (r: Option<ActionSourceOverride>)
        ensures
            r == self.the_override(),
    ;
}

/// Folder that an action works in.
pub open spec fn workdir_of(job: ActionJob, config: RuntimeConfig) -> Seq<char> {
    text_or(job.workdir, config.action.workdir.mount_path@)
}

/// Arguments of the cloner for a source.
pub open spec fn cloner_args(
    job: ActionJob,
    config: RuntimeConfig,
    kind: TriggerSourceKind,
    name: Seq<char>,
    reference: TriggerGitRepoReference,
) -> Seq<Seq<char>> {
    seq![
        "--kind"@,
        kind.name(),
        "--source"@,
        name,
        "--destination"@,
        workdir_of(job, config),
        "--"@ + reference.ref_type(),
        reference.ref_name(),
    ] + (if job.preserve_git_folder {
        seq!["--preserve-git-folder"@]
    } else {
        seq![]
    }) + (if job.enable_cloner_debug {
        seq!["--debug"@]
    } else {
        seq![]
    })
}

/// Variables of the worker, without the prefix of their names.
pub open spec fn worker_vars(
    job: ActionJob,
    source: Option<ActionSourceOverride>,
    config: RuntimeConfig,
    occasion: Occasion,
) -> Seq<(Seq<char>, Seq<char>)> {
    seq![
        ("WORKDIR"@, workdir_of(job, config)),
        ("TRIGGER_SOURCE_KIND"@, occasion.source_kind.name()),
        ("TRIGGER_SOURCE_NAME"@, occasion.source_name@),
        ("TRIGGER_SOURCE_COMMIT"@, occasion.source_commit@),
        ("TRIGGER_SOURCE_REF_TYPE"@, occasion.trigger_ref.ref_type()),
        ("TRIGGER_SOURCE_REF_NAME"@, occasion.trigger_ref.ref_name()),
        ("TRIGGER_KIND"@, occasion.trigger_kind@),
        ("TRIGGER_NAME"@, occasion.trigger_name@),
    ] + (if occasion.source_kind == TriggerSourceKind::GitRepo {
        seq![("TRIGGER_SOURCE_NAMESPACE"@, occasion.namespace@)]
    } else {
        seq![]
    }) + (match source {
        Some(s) => seq![
            ("ACTION_SOURCE_KIND"@, s.kind.name()),
            ("ACTION_SOURCE_NAME"@, s.name@),
            ("ACTION_SOURCE_REF_TYPE"@, s.reference.ref_type()),
            ("ACTION_SOURCE_REF_NAME"@, s.reference.ref_name()),
        ] + (if s.kind == TriggerSourceKind::GitRepo {
            seq![("ACTION_SOURCE_NAMESPACE"@, occasion.namespace@)]
        } else {
            seq![]
        }),
        None => seq![],
    })
}

/// Variables with the configured prefix before their names.
pub open spec fn prefixed(vars: Seq<(Seq<char>, Seq<char>)>, config: RuntimeConfig) -> Seq<
    (Seq<char>, Seq<char>),
> {
    vars.map_values(
        |var: (Seq<char>, Seq<char>)| (config.action.containers.worker.variables_prefix@ + var.0, var.1),
    )
}

/// Labels of every job of an action.
pub open spec fn own_labels(kind: Seq<char>, name: Seq<char>, occasion: Occasion) -> Map<
    Seq<char>,
    Seq<char>,
> {
    Map::<Seq<char>, Seq<char>>::empty().insert("git-events-runner.rs/action-kind"@, kind).insert(
        "git-events-runner.rs/action-name"@,
        name,
    ).insert("git-events-runner.rs/source-kind"@, occasion.source_kind.name()).insert(
        "git-events-runner.rs/source-name"@,
        occasion.source_name@,
    ).insert("git-events-runner.rs/trigger-kind"@, occasion.trigger_kind@).insert(
        "git-events-runner.rs/trigger-name"@,
        occasion.trigger_name@,
    )
}

/// Labels of a job: those of every job, and those that the action adds, which win.
pub open spec fn job_labels(
    kind: Seq<char>,
    name: Seq<char>,
    occasion: Occasion,
    added: Option<StringMap<String>>,
) -> Map<Seq<char>, Seq<char>> {
    match added {
        Some(labels) => own_labels(kind, name, occasion).union_prefer_right(text_map(labels@)),
        None => own_labels(kind, name, occasion),
    }
}

/// Taints that an optional list holds.
pub open spec fn tolerations_view(
    list: Option<Vec<k8s_openapi::api::core::v1::Toleration>>,
) -> Option<Seq<k8s_openapi::api::core::v1::Toleration>> {
    match list {
        Some(l) => Some(l@),
        None => None,
    }
}

fn copy_tolerations(list: &Option<Vec<k8s_openapi::api::core::v1::Toleration>>) -> (r: Option<
    Vec<k8s_openapi::api::core::v1::Toleration>,
>)
    ensures
        tolerations_view(r) == tolerations_view(*list),
{
    match list {
        Some(l) => {
            let mut copy: Vec<k8s_openapi::api::core::v1::Toleration> = Vec::new();
            for i in 0..l.len()
                invariant
                    copy@ == l@.take(i as int),
            {
                copy.push(l[i].clone());
                assert(l@.take(i + 1) == l@.take(i as int).push(l@[i as int]));
            }
            assert(l@.take(l.len() as int) == l@);
            Some(copy)
        },
        None => None,
    }
}

/// The reference names the action as the owner.
pub open spec fn is_owner(owner: OwnerReference, kind: Seq<char>, meta: ObjectMeta) -> bool {
    &&& owner.api_version@ == "git-events-runner.rs"@ + "/"@ + "v1alpha1"@
    &&& owner.kind@ == kind
    &&& Some(owner.name) == meta.name
    &&& Some(owner.uid) == meta.uid
    &&& owner.controller
}

/// The container clones the source that the action works on.
pub open spec fn is_cloner(
    container: Container,
    job: ActionJob,
    source: Option<ActionSourceOverride>,
    config: RuntimeConfig,
    occasion: Occasion,
) -> bool {
    &&& container.name@ == config.action.containers.cloner.name@
    &&& container.image@ == text_or(job.cloner_image, config.action.containers.cloner.image@)
    &&& container.working_dir is None
    &&& container.command is None
    &&& container.env is None
    &&& container.args matches Some(args) && views(args@) == (match source {
        Some(s) => cloner_args(job, config, s.kind, s.name@, s.reference),
        None => cloner_args(
            job,
            config,
            occasion.source_kind,
            occasion.source_name@,
            TriggerGitRepoReference::Commit(occasion.source_commit),
        ),
    })
    &&& container.volume_mount.name@ == config.action.workdir.volume_name@
    &&& container.volume_mount.mount_path@ == workdir_of(job, config)
}

/// The container does the action's work.
pub open spec fn is_worker(
    container: Container,
    job: ActionJob,
    source: Option<ActionSourceOverride>,
    config: RuntimeConfig,
    occasion: Occasion,
) -> bool {
    &&& container.name@ == config.action.containers.worker.name@
    &&& container.image@ == text_or(job.action_image, config.action.containers.worker.image@)
    &&& opt_view(container.working_dir) == Some(workdir_of(job, config))
    &&& opt_list_view(container.command) == opt_list_view(job.command)
    &&& opt_list_view(container.args) == opt_list_view(job.args)
    &&& container.env matches Some(envs) && env_views(envs@) == prefixed(
        worker_vars(job, source, config, occasion),
        config,
    )
    &&& container.volume_mount.name@ == config.action.workdir.volume_name@
    &&& container.volume_mount.mount_path@ == workdir_of(job, config)
}

/// The pod clones the source and then does the action's work.
pub open spec fn is_pod(
    pod: PodSpec,
    job: ActionJob,
    source: Option<ActionSourceOverride>,
    config: RuntimeConfig,
    occasion: Occasion,
) -> bool {
    &&& opt_view(pod.service_account_name) == match job.service_account {
        Some(account) => Some(account@),
        None => opt_view(config.action.default_service_account),
    }
    &&& opt_map_view(pod.node_selector) == opt_map_view(job.node_selector)
    &&& pod.affinity == job.affinity
    &&& tolerations_view(pod.tolerations) == tolerations_view(job.tolerations)
    &&& is_cloner(pod.init_container, job, source, config, occasion)
    &&& is_worker(pod.container, job, source, config, occasion)
    &&& pod.restart_policy@ == "Never"@
    &&& pod.volume@ == config.action.workdir.volume_name@
}

/// The job is what the action runs on the occasion, whatever its name.
pub open spec fn is_job<A: ActionInternals>(
    job: Job,
    action: A,
    config: RuntimeConfig,
    occasion: Occasion,
) -> bool {
    let spec_job = action.the_job();
    &&& job.namespace is None
    &&& text_map(job.labels@) == job_labels(
        A::kind_name(),
        action.the_meta().any_name(),
        occasion,
        spec_job.labels,
    )
    &&& opt_map_view(job.annotations) == opt_map_view(spec_job.annotations)
    &&& is_owner(job.owner_reference, A::kind_name(), action.the_meta())
    &&& job.backoff_limit == 0
    &&& job.parallelism == 1
    &&& job.ttl_seconds_after_finished == match spec_job.ttl_seconds_after_finished {
        Some(seconds) => seconds,
        None => config.action.ttl_seconds_after_finished,
    }
    &&& job.active_deadline_seconds == Some(
        match spec_job.active_deadline_seconds {
            Some(seconds) => seconds,
            None => config.action.active_deadline_seconds,
        },
    )
    &&& if spec_job.labels is Some || spec_job.annotations is Some {
        job.pod_metadata matches Some(metadata) && opt_map_view(metadata.labels) == opt_map_view(
            spec_job.labels,
        ) && opt_map_view(metadata.annotations) == opt_map_view(spec_job.annotations)
    } else {
        job.pod_metadata is None
    }
    &&& is_pod(job.pod, spec_job, action.the_override(), config, occasion)
}

/// Action that can be run.
pub trait ActionExecutor: ActionInternals {
    /// Name of a new job: the name of the action, the present and two random characters, in lower
    /// case.
    fn job_name(&self) -> (r: String)
        ensures
            is_job_name(r@, self.the_meta().any_name()),
    {
        let timestamp = local_timestamp();
        let suffix = random_string(2);
        let r = format_job_name(self.meta().name_any().as_str(), timestamp.as_str(), suffix.as_str());
        proof {
            assert(is_job_suffix(suffix@));
            assert(r@ == job_name_of(self.the_meta().any_name(), timestamp@, suffix@));
        }
        r
    }

    /// Owner of the action's jobs: the action.
    fn get_owner_reference(&self) -> (r: OwnerReference)
        requires
            self.the_meta().name is Some,
            self.the_meta().uid is Some,
        ensures
            is_owner(r, Self::kind_name(), self.the_meta()),
    {
        let meta = self.meta();
        let name: String = match &meta.name {
            Some(name) => name.clone(),
            None => String::new(),
        };
        let uid: String = match &meta.uid {
            Some(uid) => uid.clone(),
            None => String::new(),
        };
        OwnerReference {
            api_version: API_GROUP.to_owned().concat("/").concat(CURRENT_API_VERSION),
            kind: Self::crd_kind().to_owned(),
            name,
            uid,
            controller: true,
        }
    }

    /// Arguments of the cloner for a source.
    fn get_gitrepo_cloner_args(
        &self,
        config: &RuntimeConfig,
        source_kind: &TriggerSourceKind,
        source_name: &str,
        source_ref: &TriggerGitRepoReference,
    ) -> (r: Vec<String>)
        ensures
            views(r@) == cloner_args(self.the_job(), *config, *source_kind, source_name@, *source_ref),
    {
        let action_job = self.action_job_spec();
        let mut args: Vec<String> = Vec::new();
        args.push("--kind".to_owned());
        args.push(source_kind.to_string());
        args.push("--source".to_owned());
        args.push(source_name.to_owned());
        args.push("--destination".to_owned());
        args.push(copy_or(&action_job.workdir, &config.action.workdir.mount_path));
        let (ref_type, ref_name) = source_ref.to_refname(Some("--"));
        args.push(ref_type);
        args.push(ref_name.clone());
        if action_job.preserve_git_folder {
            args.push("--preserve-git-folder".to_owned());
        }
        if action_job.enable_cloner_debug {
            args.push("--debug".to_owned());
        }
        assert(views(args@) =~= cloner_args(
            self.the_job(),
            *config,
            *source_kind,
            source_name@,
            *source_ref,
        ));
        args
    }

    /// Environment variables of the worker.
    fn get_action_job_envs(&self, config: &RuntimeConfig, occasion: &Occasion) -> (r: Vec<EnvVar>)
        ensures
            env_views(r@) == prefixed(
                worker_vars(self.the_job(), self.the_override(), *config, *occasion),
                *config,
            ),
    {
        let action_job = self.action_job_spec();
        let source_override = self.source_override_spec();
        let workdir = copy_or(&action_job.workdir, &config.action.workdir.mount_path);
        let source_kind = occasion.source_kind.to_string();
        let (trigger_ref_type, trigger_ref_name) = occasion.trigger_ref.to_refname(None);
        let mut envs: Vec<EnvVar> = Vec::new();
        envs.push(format_action_job_env_var(config, "WORKDIR", workdir.as_str()));
        envs.push(format_action_job_env_var(config, "TRIGGER_SOURCE_KIND", source_kind.as_str()));
        envs.push(
            format_action_job_env_var(config, "TRIGGER_SOURCE_NAME", occasion.source_name.as_str()),
        );
        envs.push(
            format_action_job_env_var(config, "TRIGGER_SOURCE_COMMIT", occasion.source_commit.as_str()),
        );
        envs.push(
            format_action_job_env_var(config, "TRIGGER_SOURCE_REF_TYPE", trigger_ref_type.as_str()),
        );
        envs.push(
            format_action_job_env_var(config, "TRIGGER_SOURCE_REF_NAME", trigger_ref_name.as_str()),
        );
        envs.push(format_action_job_env_var(config, "TRIGGER_KIND", occasion.trigger_kind.as_str()));
        envs.push(format_action_job_env_var(config, "TRIGGER_NAME", occasion.trigger_name.as_str()));
        if occasion.source_kind == TriggerSourceKind::GitRepo {
            envs.push(
                format_action_job_env_var(
                    config,
                    "TRIGGER_SOURCE_NAMESPACE",
                    occasion.namespace.as_str(),
                ),
            );
        }
        if let Some(source) = &source_override {
            let (ref_type, ref_name) = source.reference.to_refname(None);
            let kind = source.kind.to_string();
            envs.push(format_action_job_env_var(config, "ACTION_SOURCE_KIND", kind.as_str()));
            envs.push(format_action_job_env_var(config, "ACTION_SOURCE_NAME", source.name.as_str()));
            envs.push(format_action_job_env_var(config, "ACTION_SOURCE_REF_TYPE", ref_type.as_str()));
            envs.push(format_action_job_env_var(config, "ACTION_SOURCE_REF_NAME", ref_name.as_str()));
            if source.kind == TriggerSourceKind::GitRepo {
                envs.push(
                    format_action_job_env_var(
                        config,
                        "ACTION_SOURCE_NAMESPACE",
                        occasion.namespace.as_str(),
                    ),
                );
            }
        }
        assert(env_views(envs@) =~= prefixed(
            worker_vars(self.the_job(), self.the_override(), *config, *occasion),
            *config,
        ));
        envs
    }

    /// Labels of the action's job.
    fn get_job_labels(&self, occasion: &Occasion) -> (r: StringMap<String>)
        ensures
            text_map(r@) == job_labels(
                Self::kind_name(),
                self.the_meta().any_name(),
                *occasion,
                self.the_job().labels,
            ),
    {
        let mut labels: StringMap<String> = StringMap::new();
        labels.insert(ACTION_JOB_ACTION_KIND_LABEL.to_owned(), Self::crd_kind().to_owned());
        labels.insert(ACTION_JOB_ACTION_NAME_LABEL.to_owned(), self.meta().name_any());
        labels.insert(ACTION_JOB_SOURCE_KIND_LABEL.to_owned(), occasion.source_kind.to_string());
        labels.insert(ACTION_JOB_SOURCE_NAME_LABEL.to_owned(), occasion.source_name.clone());
        labels.insert(ACTION_JOB_TRIGGER_KIND_LABEL.to_owned(), occasion.trigger_kind.clone());
        labels.insert(ACTION_JOB_TRIGGER_NAME_LABEL.to_owned(), occasion.trigger_name.clone());
        assert(text_map(labels@) =~= own_labels(
            Self::kind_name(),
            self.the_meta().any_name(),
            *occasion,
        ));
        if let Some(added) = &self.action_job_spec().labels {
            let ghost own = labels@;
            labels.extend(copy_text_map(added));
            assert(text_map(labels@) =~= text_map(own).union_prefer_right(text_map(added@)));
        }
        labels
    }

    /// Job that the action runs on an occasion, under the given name.
    fn named_job_spec(&self, config: &RuntimeConfig, occasion: &Occasion, name: String) -> (r: Job)
        requires
            self.the_meta().name is Some,
            self.the_meta().uid is Some,
        ensures
            r.name == name,
            is_job(r, *self, *config, *occasion),
    {
        let action_job = self.action_job_spec();
        let source_override = self.source_override_spec();
        let args: Vec<String> = match &source_override {
            Some(source) => self.get_gitrepo_cloner_args(
                config,
                &source.kind,
                source.name.as_str(),
                &source.reference,
            ),
            None => self.get_gitrepo_cloner_args(
                config,
                &occasion.source_kind,
                occasion.source_name.as_str(),
                &TriggerGitRepoReference::Commit(occasion.source_commit.clone()),
            ),
        };
        let pod_metadata: Option<PodMetadata> = if action_job.labels.is_some()
            || action_job.annotations.is_some() {
            Some(
                PodMetadata {
                    labels: copy_opt_map(&action_job.labels),
                    annotations: copy_opt_map(&action_job.annotations),
                },
            )
        } else {
            None
        };
        let service_account_name: Option<String> = match &action_job.service_account {
            Some(account) => Some(account.clone()),
            None => copy_opt(&config.action.default_service_account),
        };
        let affinity: Option<k8s_openapi::api::core::v1::Affinity> = match &action_job.affinity {
            Some(rules) => Some(rules.clone()),
            None => None,
        };
        let workdir = copy_or(&action_job.workdir, &config.action.workdir.mount_path);
        let init_container = Container {
            name: config.action.containers.cloner.name.clone(),
            image: copy_or(&action_job.cloner_image, &config.action.containers.cloner.image),
            working_dir: None,
            command: None,
            args: Some(args),
            env: None,
            volume_mount: VolumeMount {
                name: config.action.workdir.volume_name.clone(),
                mount_path: workdir.clone(),
            },
        };
        let container = Container {
            name: config.action.containers.worker.name.clone(),
            image: copy_or(&action_job.action_image, &config.action.containers.worker.image),
            working_dir: Some(workdir.clone()),
            command: copy_opt_strings(&action_job.command),
            args: copy_opt_strings(&action_job.args),
            env: Some(self.get_action_job_envs(config, occasion)),
            volume_mount: VolumeMount {
                name: config.action.workdir.volume_name.clone(),
                mount_path: workdir,
            },
        };
        let pod = PodSpec {
            service_account_name,
            node_selector: copy_opt_map(&action_job.node_selector),
            affinity,
            tolerations: copy_tolerations(&action_job.tolerations),
            init_container,
            container,
            restart_policy: "Never".to_owned(),
            volume: config.action.workdir.volume_name.clone(),
        };
        Job {
            name,
            namespace: None,
            labels: self.get_job_labels(occasion),
            annotations: copy_opt_map(&action_job.annotations),
            owner_reference: self.get_owner_reference(),
            backoff_limit: 0,
            parallelism: 1,
            ttl_seconds_after_finished: match action_job.ttl_seconds_after_finished {
                Some(seconds) => seconds,
                None => config.action.ttl_seconds_after_finished,
            },
            active_deadline_seconds: Some(
                match action_job.active_deadline_seconds {
                    Some(seconds) => seconds,
                    None => config.action.active_deadline_seconds,
                },
            ),
            pod_metadata,
            pod,
        }
    }

    /// Job that the action runs on an occasion.
    fn create_job_spec(&self, config: &RuntimeConfig, occasion: &Occasion) -> (r: Job)
        requires
            self.the_meta().name is Some,
            self.the_meta().uid is Some,
        ensures
            is_job_name(r.name@, self.the_meta().any_name()),
            is_job(r, *self, *config, *occasion),
    {
        self.named_job_spec(config, occasion, self.job_name())
    }

    /// Runs the action on an occasion: the job to put in the queue, and how long it may wait there if
    /// the action says so.
    fn execute(&self, config: &RuntimeConfig, occasion: &Occasion) -> (r: (Job, Option<Duration>))
        requires
            self.the_meta().name is Some,
            self.the_meta().uid is Some,
        ensures
            is_job_name(r.0.name@, self.the_meta().any_name()),
            is_job(r.0, *self, *config, *occasion),
            r.1 == match self.the_job().job_waiting_timeout_seconds {
                Some(seconds) => Some(Duration { secs: seconds, nanos: 0 }),
                None => None,
            },
    {
        let timeout: Option<Duration> = match self.action_job_spec().job_waiting_timeout_seconds {
            Some(seconds) => Some(Duration::from_secs(seconds)),
            None => None,
        };
        (self.create_job_spec(config, occasion), timeout)
    }
}

impl CustomApiResource for Action {
    open spec fn kind_name() -> Seq<char> {
        "Action"@
    }

    fn crd_kind() -> (r: &'static str) {
        "Action"
    }
}

impl CustomApiResource for ClusterAction {
    open spec fn kind_name() -> Seq<char> {
        "ClusterAction"@
    }

    fn crd_kind() -> (r: &'static str) {
        "ClusterAction"
    }
}

impl ActionInternals for Action {
    open spec fn the_meta(&self) -> ObjectMeta {
        self.metadata
    }

    open spec fn the_job(&self) -> ActionJob {
        self.spec.action_job
    }

    open spec fn the_override(&self) -> Option<ActionSourceOverride> {
        self.spec.source_override
    }

    fn meta(&self) -> (r: &ObjectMeta) {
        &self.metadata
    }

    fn action_job_spec(&self) -> (r: &ActionJob) {
        &self.spec.action_job
    }

    fn source_override_spec(&self) -> (r: Option<ActionSourceOverride>) {
        match &self.spec.source_override {
            Some(source) => Some(
                ActionSourceOverride {
                    kind: source.kind,
                    name: source.name.clone(),
                    reference: source.reference.clone(),
                },
            ),
            None => None,
        }
    }
}

impl ActionInternals for ClusterAction {
    open spec fn the_meta(&self) -> ObjectMeta {
        self.metadata
    }

    open spec fn the_job(&self) -> ActionJob {
        self.spec.action_job
    }

    /// Repositories of the cluster are the only sources that an action of the cluster can name.
    open spec fn the_override(&self) -> Option<ActionSourceOverride> {
        match self.spec.source_override {
            Some(source) => Some(
                ActionSourceOverride {
                    kind: TriggerSourceKind::ClusterGitRepo,
                    name: source.name,
                    reference: source.reference,
                },
            ),
            None => None,
        }
    }

    fn meta(&self) -> (r: &ObjectMeta) {
        &self.metadata
    }

    fn action_job_spec(&self) -> (r: &ActionJob) {
        &self.spec.action_job
    }

    fn source_override_spec(&self) -> (r: Option<ActionSourceOverride>) {
        match &self.spec.source_override {
            Some(source) => Some(
                ActionSourceOverride {
                    kind: TriggerSourceKind::ClusterGitRepo,
                    name: source.name.clone(),
                    reference: source.reference.clone(),
                },
            ),
            None => None,
        }
    }
}

impl ActionExecutor for Action {

}

impl ActionExecutor for ClusterAction {

}

/// The cloner and the worker of a job share a folder, which the worker starts in and finds in its
/// variables.
pub proof fn law_containers_share_workdir<A: ActionInternals>(
    job: Job,
    action: A,
    config: RuntimeConfig,
    occasion: Occasion,
)
    requires
        is_job(job, action, config, occasion),
    ensures
        job.pod.init_container.volume_mount.name@ == job.pod.container.volume_mount.name@,
        job.pod.init_container.volume_mount.name@ == job.pod.volume@,
        job.pod.init_container.volume_mount.mount_path@ == job.pod.container.volume_mount.mount_path@,
        opt_view(job.pod.container.working_dir) == Some(job.pod.container.volume_mount.mount_path@),
        job.pod.container.env->0@.len() > 0,
        job.pod.container.env->0@[0]@ == (
            config.action.containers.worker.variables_prefix@ + "WORKDIR"@,
            job.pod.container.volume_mount.mount_path@,
        ),
{
    let envs = job.pod.container.env->0@;
    let vars = worker_vars(action.the_job(), action.the_override(), config, occasion);
    assert(vars[0] == ("WORKDIR"@, workdir_of(action.the_job(), config)));
    assert(env_views(envs).len() == vars.len());
    assert(env_views(envs)[0] == envs[0]@);
    assert(prefixed(vars, config)[0] == env_views(envs)[0]);
}

/// Unless the action overrides them, the labels of its jobs say what started the job, what it works
/// on and what it does.
pub proof fn law_own_labels_stay(
    kind: Seq<char>,
    name: Seq<char>,
    occasion: Occasion,
    added: Option<StringMap<String>>,
    label: Seq<char>,
)
    requires
        own_labels(kind, name, occasion).contains_key(label),
        added matches Some(labels) ==> !labels@.contains_key(label),
    ensures
        job_labels(kind, name, occasion, added).contains_key(label),
        job_labels(kind, name, occasion, added)[label] == own_labels(kind, name, occasion)[label],
{
}

/// An action of the cluster works on sources of the cluster, where it names one of its own.
pub proof fn law_cluster_action_names_cluster_sources(action: ClusterAction)
    ensures
        action.the_override() matches Some(source) ==> source.kind == TriggerSourceKind::ClusterGitRepo,
{
}

} // verus!
