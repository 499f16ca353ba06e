//! What resources are where nothing is said, copies of them, and their kinds.
use crate::config::{
    ActionConfig, ActionContainersClonerConfig, ActionContainersConfig, ActionContainersWorkerConfig,
    ActionWorkdirConfig, TriggerConfig, TriggerWebhookConfig,
};
use crate::error::Error;
use crate::jobs::JobCompletionStatus;
use crate::resources::action::{Action, ActionJob, ClusterAction, TriggerClusterSourceKind};
use crate::resources::git_repo::{
    ClusterGitRepo, GitAuthSecretKeys, GitAuthType, GitRepo, TlsCaConfig, TlsConfig,
};
use crate::resources::trigger::{
    copy_sources, CheckedSourceState, ScheduleTrigger, Trigger, TriggerActionKind, TriggerGitRepoReference,
    TriggerSchedule,
    TriggerSourceKind, TriggerSources, TriggerState, TriggerWatchOn, TriggerWebhook, WebhookTrigger,
};
use crate::resources::{random_string, CustomApiResource, ObjectMeta};
use crate::string_map::{copy_opt_map, copy_text_map, StringMap};
use crate::text::{chars_of, copy_bytes, copy_opt, copy_opt_strings, copy_or, copy_strings, text_map};
use crate::web::rate_limit::{
    is_limit_in_range, GovernorError, RateLimiterKey, RequestsRateLimitParams, RequestsRateLimiter,
};
use vstd::prelude::*;

use super::actions::{same_opt_lists, same_opt_maps, same_opt_texts};
use super::runs::is_letter_or_digit;
use super::schedules::key_of;
use super::settings::image_of;

verus! {

/// Containers of an action where nothing is said of them.
pub proof fn law_containers_have_defaults(
    cloner: ActionContainersClonerConfig,
    worker: ActionContainersWorkerConfig,
    both: ActionContainersConfig,
    workdir: ActionWorkdirConfig,
)
    requires
        call_ensures(<ActionContainersClonerConfig as Default>::default, (), cloner),
        call_ensures(<ActionContainersWorkerConfig as Default>::default, (), worker),
        call_ensures(<ActionContainersConfig as Default>::default, (), both),
        call_ensures(<ActionWorkdirConfig as Default>::default, (), workdir),
    ensures
        cloner.name@ == "gitrepo-cloner"@ && both.cloner.name@ == "gitrepo-cloner"@,
        cloner.image@ == image_of("gitrepo-cloner"@, "v"@ + "0.4.8"@) && both.cloner.image@ == cloner.image@,
        worker.name@ == "action-worker"@ && both.worker.name@ == "action-worker"@,
        worker.image@ == image_of("action-worker"@, "v"@ + "0.4.8"@) && both.worker.image@ == worker.image@,
        worker.variables_prefix@ == "ACTION_JOB_"@ && both.worker.variables_prefix@ == "ACTION_JOB_"@,
        workdir.mount_path@ == "/action_workdir"@ && workdir.volume_name@ == "action_workdir"@,
{
}

/// Actions and triggers where nothing is said of them.
pub proof fn law_actions_and_triggers_have_defaults(
    action: ActionConfig,
    trigger: TriggerConfig,
    webhook: TriggerWebhookConfig,
)
    requires
        call_ensures(<ActionConfig as Default>::default, (), action),
        call_ensures(<TriggerConfig as Default>::default, (), trigger),
        call_ensures(<TriggerWebhookConfig as Default>::default, (), webhook),
    ensures
        action.max_running_jobs == 16 && action.job_waiting_timeout_seconds == 300,
        action.active_deadline_seconds == 3600 && action.ttl_seconds_after_finished == 7200,
        action.default_service_account is None,
        action.workdir.mount_path@ == "/action_workdir"@ && action.workdir.volume_name@ == "action_workdir"@,
        trigger.webhook.default_auth_header@ == "x-trigger-auth"@,
        webhook.default_auth_header@ == "x-trigger-auth"@,
{
}

/// A repository is fetched with certificates checked where nothing is said, and looks for its login under
/// these keys.
pub proof fn law_repositories_have_defaults(tls: TlsConfig, keys: GitAuthSecretKeys, ca_key: String)
    requires
        call_ensures(<TlsConfig as Default>::default, (), tls),
        call_ensures(<GitAuthSecretKeys as Default>::default, (), keys),
        call_ensures(TlsCaConfig::default_ca_data_key, (), ca_key),
    ensures
        !tls.no_verify_ssl && tls.ca_cert is None,
        keys.username@ == "username"@ && keys.password@ == "password"@,
        keys.token@ == "token"@ && keys.private_key@ == "ssh-privatekey"@,
        ca_key@ == "ca.crt"@,
{
}

/// Ways to log in have names.
pub proof fn law_logins_are_named(auth_type: &GitAuthType, r: String)
    requires
        call_ensures(GitAuthType::to_string, (auth_type,), r),
    ensures
        *auth_type == GitAuthType::Basic ==> r@ == "basic"@,
        *auth_type == GitAuthType::Token ==> r@ == "token"@,
        *auth_type == GitAuthType::Ssh ==> r@ == "ssh"@,
{
}

/// A trigger is idle at first, watches the main branch of repositories of its namespace for changes, runs
/// actions of its namespace, and lets no request check all sources, where nothing is said. Nothing is known
/// of a new source.
pub proof fn law_triggers_have_defaults(
    state: TriggerState,
    sources: TriggerSources,
    kind: TriggerSourceKind,
    reference: TriggerGitRepoReference,
    watch_on: TriggerWatchOn,
    webhook: TriggerWebhook,
    action_kind: TriggerActionKind,
    cluster_kind: TriggerClusterSourceKind,
    source: CheckedSourceState,
)
    requires
        call_ensures(<TriggerState as Default>::default, (), state),
        call_ensures(<TriggerSources as Default>::default, (), sources),
        call_ensures(<TriggerSourceKind as Default>::default, (), kind),
        call_ensures(<TriggerGitRepoReference as Default>::default, (), reference),
        call_ensures(<TriggerWatchOn as Default>::default, (), watch_on),
        call_ensures(<TriggerWebhook as Default>::default, (), webhook),
        call_ensures(<TriggerActionKind as Default>::default, (), action_kind),
        call_ensures(<TriggerClusterSourceKind as Default>::default, (), cluster_kind),
        call_ensures(CheckedSourceState::unknown, (), source),
    ensures
        state == TriggerState::Idle,
        sources.kind == TriggerSourceKind::GitRepo && sources.names@.len() == 0,
        sources.watch_on.on_change_only && sources.watch_on.files is None,
        sources.watch_on.reference matches TriggerGitRepoReference::Branch(name) && name@ == "main"@,
        kind == TriggerSourceKind::GitRepo,
        reference matches TriggerGitRepoReference::Branch(name) && name@ == "main"@,
        watch_on.on_change_only && watch_on.files is None,
        watch_on.reference matches TriggerGitRepoReference::Branch(name) && name@ == "main"@,
        !webhook.multi_source && webhook.auth_config is None,
        action_kind == TriggerActionKind::Action,
        cluster_kind == TriggerClusterSourceKind::ClusterGitRepo,
        source.commit_hash is None && source.file_hash is None && source.changed is None,
{
}

/// A job of an action says nothing where nothing is said of it.
pub proof fn law_jobs_have_defaults(r: ActionJob)
    requires
        call_ensures(<ActionJob as Default>::default, (), r),
    ensures
        r.workdir is None && r.cloner_image is None && r.action_image is None,
        r.args is None && r.command is None && r.service_account is None,
        r.annotations is None && r.labels is None && r.tolerations is None && r.affinity is None,
        r.node_selector is None && r.ttl_seconds_after_finished is None && r.active_deadline_seconds is None,
        r.job_waiting_timeout_seconds is None,
        !r.enable_cloner_debug && !r.preserve_git_folder,
{
}

/// The key of a trigger is its namespace and its name.
pub proof fn law_triggers_have_keys<T: Trigger>(trigger: &T, r: String)
    requires
        call_ensures(T::trigger_hash_key, (trigger,), r),
        trigger.the_meta().namespace is Some,
    ensures
        r@ == key_of(trigger.the_meta()),
{
}

/// A copy of a trigger's sources is the same.
pub proof fn law_copies_of_sources_are_the_same(sources: &TriggerSources, r: TriggerSources)
    requires
        call_ensures(TriggerSources::copy, (sources,), r),
    ensures
        r.kind == sources.kind,
        r.names@ == sources.names@,
        r.watch_on.on_change_only == sources.watch_on.on_change_only,
        r.watch_on.reference == sources.watch_on.reference,
        same_opt_lists(r.watch_on.files, sources.watch_on.files),
{
}

/// Resources have kinds.
pub proof fn law_resources_have_kinds(
    action: &'static str,
    cluster_action: &'static str,
    repo: &'static str,
    cluster_repo: &'static str,
    schedule: &'static str,
    webhook: &'static str,
)
    requires
        call_ensures(<Action as CustomApiResource>::crd_kind, (), action),
        call_ensures(<ClusterAction as CustomApiResource>::crd_kind, (), cluster_action),
        call_ensures(<GitRepo as CustomApiResource>::crd_kind, (), repo),
        call_ensures(<ClusterGitRepo as CustomApiResource>::crd_kind, (), cluster_repo),
        call_ensures(<ScheduleTrigger as CustomApiResource>::crd_kind, (), schedule),
        call_ensures(<WebhookTrigger as CustomApiResource>::crd_kind, (), webhook),
    ensures
        action@ == "Action"@,
        cluster_action@ == "ClusterAction"@,
        repo@ == "GitRepo"@,
        cluster_repo@ == "ClusterGitRepo"@,
        schedule@ == "ScheduleTrigger"@,
        webhook@ == "WebhookTrigger"@,
{
}

/// Ends of jobs have names.
pub proof fn law_ends_of_jobs_are_named(status: &JobCompletionStatus, r: String)
    requires
        call_ensures(JobCompletionStatus::to_string, (status,), r),
    ensures
        *status == JobCompletionStatus::Succeed ==> r@ == "Succeed"@,
        *status == JobCompletionStatus::Failed ==> r@ == "Failed"@,
        *status == JobCompletionStatus::Expired ==> r@ == "Expired"@,
        *status == JobCompletionStatus::Deleted ==> r@ == "Deleted"@,
        *status == JobCompletionStatus::CreateError ==> r@ == "CreateError"@,
{
}

/// Copies of resources are the same.
pub proof fn law_copies_of_resources_are_the_same(
    meta: &ObjectMeta,
    meta_copy: ObjectMeta,
    state: &CheckedSourceState,
    state_copy: CheckedSourceState,
    reference: &TriggerGitRepoReference,
    reference_copy: TriggerGitRepoReference,
    schedule: &TriggerSchedule,
    schedule_copy: TriggerSchedule,
    key: &RateLimiterKey,
    key_copy: RateLimiterKey,
    sources: &StringMap<CheckedSourceState>,
    sources_copy: StringMap<CheckedSourceState>,
)
    requires
        call_ensures(<ObjectMeta as Clone>::clone, (meta,), meta_copy),
        call_ensures(<CheckedSourceState as Clone>::clone, (state,), state_copy),
        call_ensures(<TriggerGitRepoReference as Clone>::clone, (reference,), reference_copy),
        call_ensures(<TriggerSchedule as Clone>::clone, (schedule,), schedule_copy),
        call_ensures(<RateLimiterKey as Clone>::clone, (key,), key_copy),
        call_ensures(copy_sources, (sources,), sources_copy),
    ensures
        meta_copy == *meta,
        state_copy == *state,
        reference_copy == *reference,
        schedule_copy == *schedule,
        key_copy == *key,
        sources_copy@ == sources@,
{
}

/// Copies of texts are the same.
pub proof fn law_copies_of_texts_are_the_same(
    text: &Option<String>,
    text_copy: Option<String>,
    list: &Vec<String>,
    list_copy: Vec<String>,
    lists: &Option<Vec<String>>,
    lists_copy: Option<Vec<String>>,
    bytes: &Vec<u8>,
    bytes_copy: Vec<u8>,
    map: &StringMap<String>,
    map_copy: StringMap<String>,
    maps: &Option<StringMap<String>>,
    maps_copy: Option<StringMap<String>>,
    other: &String,
    given: String,
    plain: &str,
    chars: Vec<char>,
)
    requires
        call_ensures(copy_opt, (text,), text_copy),
        call_ensures(copy_strings, (list,), list_copy),
        call_ensures(copy_opt_strings, (lists,), lists_copy),
        call_ensures(copy_bytes, (bytes,), bytes_copy),
        call_ensures(copy_text_map, (map,), map_copy),
        call_ensures(copy_opt_map, (maps,), maps_copy),
        call_ensures(copy_or, (text, other), given),
        call_ensures(chars_of, (plain,), chars),
    ensures
        text_copy == *text,
        list_copy@ == list@,
        same_opt_lists(lists_copy, *lists),
        bytes_copy@ == bytes@,
        text_map(map_copy@) == text_map(map@),
        same_opt_maps(maps_copy, *maps),
        text is Some ==> given@ == text->0@,
        text is None ==> given@ == other@,
        chars@ == plain@,
{
}

/// A resource that is made up has its name and namespace.
pub proof fn law_resource_is_named(name: &str, namespace: Option<String>, r: ObjectMeta, named: String)
    requires
        call_ensures(ObjectMeta::named, (name, namespace), r),
        call_ensures(ObjectMeta::name_any, (&r,), named),
    ensures
        r.name matches Some(text) && text@ == name@,
        r.namespace == namespace,
        r.generate_name is None && r.uid is None,
        named@ == name@,
{
}

/// A random text has as many letters and digits as were asked for.
pub proof fn law_random_texts_have_letters_and_digits(len: usize, r: String)
    requires
        call_ensures(random_string, (len,), r),
    ensures
        r@.len() == len,
        forall|i: int| 0 <= i < len ==> is_letter_or_digit(#[trigger] r@[i]),
{
}

/// Without a source, a made-up identifier of 36 characters stands for it in the key, so that it is left
/// out of the key's text. In all else the key is the same.
pub proof fn law_key_of_a_request(
    limiter: &RequestsRateLimiter,
    path: &str,
    other: &String,
    key: Result<RateLimiterKey, GovernorError>,
    r: Result<RateLimiterKey, GovernorError>,
    default: RateLimiterKey,
)
    requires
        call_ensures(RequestsRateLimiter::path_key, (limiter, path, other), key),
        call_ensures(RequestsRateLimiter::extract_path_key, (limiter, path), r),
        call_ensures(<RateLimiterKey as Default>::default, (), default),
    ensures
        default.ns is None && default.trigger is None && default.source is None && !default.strip_source,
        r is Ok == key is Ok,
        r is Err ==> r->Err_0 == key->Err_0,
        r is Ok ==> {
            let a = r->Ok_0;
            let b = key->Ok_0;
            &&& same_opt_texts(a.ns, b.ns)
            &&& same_opt_texts(a.trigger, b.trigger)
            &&& a.strip_source == b.strip_source
            &&& if a.strip_source {
                a.source matches Some(text) && text@.len() == 36
            } else {
                same_opt_texts(a.source, b.source)
            }
        },
{
}

/// The number of entries of a map is that of its keys, and every entry is one of a key.
pub proof fn law_maps_have_entries(
    map: &StringMap<String>,
    len: usize,
    i: usize,
    entry: (&String, &String),
    key: &str,
    found: bool,
    empty: StringMap<String>,
)
    requires
        call_ensures(StringMap::<String>::len, (map,), len),
        call_ensures(StringMap::<String>::entry, (map, i), entry),
        call_ensures(StringMap::<String>::contains_key, (map, key), found),
        call_ensures(StringMap::<String>::new, (), empty),
    ensures
        len == map@.dom().len(),
        map@.contains_key(entry.0@) && map@[entry.0@] == *entry.1,
        found == map@.contains_key(key@),
        !empty@.contains_key(key@),
{
}

/// A limit is in range if the time between requests that it stands for can be kept, which takes its
/// seconds to fit in 64 bits. What isn't a limit is in range.
pub proof fn law_limits_are_in_range(value: &str, r: bool, params: Result<RequestsRateLimitParams, Error>)
    requires
        call_ensures(is_limit_in_range, (value,), r),
        call_ensures(RequestsRateLimitParams::try_from, (value,), params),
    ensures
        params is Err ==> r,
        params matches Ok(p) ==> r == (p.period.secs * 1_000_000_000 + p.period.nanos
            <= 18_446_744_073_709_551_615_999_999_999),
{
}

} // verus!
