//! Jobs of actions: what an action says wins over the configuration, and the job knows what started it
//! and what it works on.
use crate::config::RuntimeConfig;
use crate::resources::action::{
    cloner_args, env_views, format_action_job_env_var, format_job_name, is_timestamp, lowercase, prefixed,
    worker_vars, Action,
    ActionExecutor, ActionInternals, ActionSourceOverride, ClusterAction, Container, EnvVar, Job, Occasion,
    OwnerReference,
};
use crate::resources::trigger::{TriggerGitRepoReference, TriggerSourceKind};
use crate::resources::CustomApiResource;
use crate::string_map::StringMap;
use crate::text::{text_map, views};
use crate::time::Duration;
use vstd::prelude::*;

use super::runs::is_letter_or_digit;

verus! {

/// Name of the kind of a source.
pub open spec fn source_kind_text(kind: TriggerSourceKind) -> Seq<char> {
    match kind {
        TriggerSourceKind::GitRepo => "GitRepo"@,
        TriggerSourceKind::ClusterGitRepo => "ClusterGitRepo"@,
    }
}

/// Type and name of a reference.
pub open spec fn reference_texts(reference: TriggerGitRepoReference) -> (Seq<char>, Seq<char>) {
    match reference {
        TriggerGitRepoReference::Branch(name) => ("branch"@, name@),
        TriggerGitRepoReference::Tag(name) => ("tag"@, name@),
        TriggerGitRepoReference::Commit(name) => ("commit"@, name@),
    }
}

/// Both optional maps are absent, or have the same texts.
pub open spec fn same_opt_maps(a: Option<StringMap<String>>, b: Option<StringMap<String>>) -> bool {
    match (a, b) {
        (Some(x), Some(y)) => text_map(x@) == text_map(y@),
        (None, None) => true,
        _ => false,
    }
}

/// Both optional lists are absent, or have the same strings.
pub open spec fn same_opt_lists(a: Option<Vec<String>>, b: Option<Vec<String>>) -> bool {
    match (a, b) {
        (Some(x), Some(y)) => x@ == y@,
        (None, None) => true,
        _ => false,
    }
}

/// The text is the action's, or the configuration's where the action has none.
pub open spec fn is_own_or(text: Seq<char>, own: Option<String>, configured: Seq<char>) -> bool {
    match own {
        Some(t) => text == t@,
        None => text == configured,
    }
}

/// What an action says wins over the configuration: its service account, images, folder, and limits of
/// time. The configuration fills in what the action leaves out.
pub proof fn law_action_wins_over_config<A: ActionExecutor>(
    action: &A,
    config: &RuntimeConfig,
    occasion: &Occasion,
    name: String,
    r: Job,
)
    requires
        call_ensures(A::named_job_spec, (action, config, occasion, name), r),
    ensures
        r.name == name,
        match action.the_job().service_account {
            Some(account) => r.pod.service_account_name matches Some(n) && n@ == account@,
            None => match config.action.default_service_account {
                Some(account) => r.pod.service_account_name matches Some(n) && n@ == account@,
                None => r.pod.service_account_name is None,
            },
        },
        is_own_or(
            r.pod.init_container.image@,
            action.the_job().cloner_image,
            config.action.containers.cloner.image@,
        ),
        is_own_or(
            r.pod.container.image@,
            action.the_job().action_image,
            config.action.containers.worker.image@,
        ),
        is_own_or(
            r.pod.container.volume_mount.mount_path@,
            action.the_job().workdir,
            config.action.workdir.mount_path@,
        ),
        match action.the_job().ttl_seconds_after_finished {
            Some(seconds) => r.ttl_seconds_after_finished == seconds,
            None => r.ttl_seconds_after_finished == config.action.ttl_seconds_after_finished,
        },
        match action.the_job().active_deadline_seconds {
            Some(seconds) => r.active_deadline_seconds == Some(seconds),
            None => r.active_deadline_seconds == Some(config.action.active_deadline_seconds),
        },
{
}

/// The pod is placed, labelled and started as the action says: its command, arguments, node selector,
/// affinity and tolerations, and labels and annotations of its own.
pub proof fn law_pod_is_as_the_action_says<A: ActionExecutor>(
    action: &A,
    config: &RuntimeConfig,
    occasion: &Occasion,
    name: String,
    r: Job,
)
    requires
        call_ensures(A::named_job_spec, (action, config, occasion, name), r),
    ensures
        same_opt_lists(r.pod.container.command, action.the_job().command),
        same_opt_lists(r.pod.container.args, action.the_job().args),
        same_opt_maps(r.pod.node_selector, action.the_job().node_selector),
        r.pod.affinity == action.the_job().affinity,
        match action.the_job().tolerations {
            Some(list) => r.pod.tolerations matches Some(l) && l@ == list@,
            None => r.pod.tolerations is None,
        },
        same_opt_maps(r.annotations, action.the_job().annotations),
        r.pod_metadata is Some == (action.the_job().labels is Some || action.the_job().annotations is Some),
        r.pod_metadata matches Some(metadata) ==> same_opt_maps(metadata.labels, action.the_job().labels)
            && same_opt_maps(metadata.annotations, action.the_job().annotations),
        r.pod.restart_policy@ == "Never"@,
        r.backoff_limit == 0,
        r.parallelism == 1,
        r.namespace is None,
{
}

/// The cloner and the worker share the volume and the folder, under the configured names. The worker
/// starts in the folder, and the cloner has neither a command nor variables.
pub proof fn law_containers_are_the_configured_ones<A: ActionExecutor>(
    action: &A,
    config: &RuntimeConfig,
    occasion: &Occasion,
    name: String,
    r: Job,
)
    requires
        call_ensures(A::named_job_spec, (action, config, occasion, name), r),
    ensures
        r.pod.init_container.name@ == config.action.containers.cloner.name@,
        r.pod.container.name@ == config.action.containers.worker.name@,
        r.pod.volume@ == config.action.workdir.volume_name@,
        r.pod.init_container.volume_mount.name@ == r.pod.volume@,
        r.pod.container.volume_mount.name@ == r.pod.volume@,
        r.pod.init_container.volume_mount.mount_path@ == r.pod.container.volume_mount.mount_path@,
        r.pod.container.working_dir matches Some(dir) && dir@ == r.pod.container.volume_mount.mount_path@,
        r.pod.init_container.working_dir is None,
        r.pod.init_container.command is None,
        r.pod.init_container.env is None,
{
}

/// The job belongs to its action.
pub proof fn law_job_belongs_to_its_action<A: ActionExecutor>(
    action: &A,
    config: &RuntimeConfig,
    occasion: &Occasion,
    name: String,
    r: Job,
    owner: OwnerReference,
)
    requires
        call_ensures(A::named_job_spec, (action, config, occasion, name), r),
        call_ensures(A::get_owner_reference, (action,), owner),
    ensures
        r.owner_reference.api_version@ == "git-events-runner.rs"@ + "/"@ + "v1alpha1"@,
        r.owner_reference.kind@ == A::kind_name(),
        Some(r.owner_reference.name) == action.the_meta().name,
        Some(r.owner_reference.uid) == action.the_meta().uid,
        r.owner_reference.controller,
        owner.api_version@ == r.owner_reference.api_version@,
        owner.kind@ == r.owner_reference.kind@,
        owner.name == r.owner_reference.name,
        owner.uid == r.owner_reference.uid,
        owner.controller,
{
}

/// The arguments tell the cloner to fetch a reference of a source to a folder.
pub open spec fn tell_to_clone(
    args: Seq<String>,
    kind: TriggerSourceKind,
    name: Seq<char>,
    reference: TriggerGitRepoReference,
    folder: Seq<char>,
    preserve: bool,
    debug: bool,
) -> bool {
    &&& args.len() == 8 + (if preserve {
        1int
    } else {
        0
    }) + (if debug {
        1int
    } else {
        0
    })
    &&& args[0]@ == "--kind"@
    &&& args[1]@ == source_kind_text(kind)
    &&& args[2]@ == "--source"@
    &&& args[3]@ == name
    &&& args[4]@ == "--destination"@
    &&& args[5]@ == folder
    &&& args[6]@ == "--"@ + reference_texts(reference).0
    &&& args[7]@ == reference_texts(reference).1
    &&& preserve ==> args[8]@ == "--preserve-git-folder"@
    &&& debug ==> args[args.len() - 1]@ == "--debug"@
}

/// Strings with these texts, one by one.
pub proof fn lemma_views_at(strings: Seq<String>, texts: Seq<Seq<char>>)
    requires
        views(strings) == texts,
    ensures
        strings.len() == texts.len(),
        forall|i: int| 0 <= i < strings.len() ==> (#[trigger] strings[i])@ == texts[i],
{
    assert forall|i: int| 0 <= i < strings.len() implies (#[trigger] strings[i])@ == texts[i] by {
        assert(views(strings)[i] == strings[i]@);
    }
}

/// The cloner is told to fetch the given reference of the given source to the job's folder.
pub proof fn law_cloner_is_told_what_to_fetch<A: ActionExecutor>(
    action: &A,
    config: &RuntimeConfig,
    kind: &TriggerSourceKind,
    name: &str,
    reference: &TriggerGitRepoReference,
    r: Vec<String>,
)
    requires
        call_ensures(A::get_gitrepo_cloner_args, (action, config, kind, name, reference), r),
    ensures
        exists|folder: Seq<char>|
            is_own_or(folder, action.the_job().workdir, config.action.workdir.mount_path@)
                && #[trigger] tell_to_clone(
                r@,
                *kind,
                name@,
                *reference,
                folder,
                action.the_job().preserve_git_folder,
                action.the_job().enable_cloner_debug,
            ),
{
    lemma_views_at(r@, cloner_args(action.the_job(), *config, *kind, name@, *reference));
    let folder = r@[5]@;
    assert(tell_to_clone(
        r@,
        *kind,
        name@,
        *reference,
        folder,
        action.the_job().preserve_git_folder,
        action.the_job().enable_cloner_debug,
    ));
}

/// A job clones the commit that was found in the trigger's source. An action with a source of its own
/// clones that source at its reference instead.
pub proof fn law_job_clones_the_found_commit<A: ActionExecutor>(
    action: &A,
    config: &RuntimeConfig,
    occasion: &Occasion,
    name: String,
    r: Job,
)
    requires
        call_ensures(A::named_job_spec, (action, config, occasion, name), r),
    ensures
        r.pod.init_container.args matches Some(args) && (match action.the_override() {
            Some(source) => tell_to_clone(
                args@,
                source.kind,
                source.name@,
                source.reference,
                r.pod.container.volume_mount.mount_path@,
                action.the_job().preserve_git_folder,
                action.the_job().enable_cloner_debug,
            ),
            None => tell_to_clone(
                args@,
                occasion.source_kind,
                occasion.source_name@,
                TriggerGitRepoReference::Commit(occasion.source_commit),
                r.pod.container.volume_mount.mount_path@,
                action.the_job().preserve_git_folder,
                action.the_job().enable_cloner_debug,
            ),
        }),
{
    let args = r.pod.init_container.args->0@;
    match action.the_override() {
        Some(source) => {
            lemma_views_at(
                args,
                cloner_args(action.the_job(), *config, source.kind, source.name@, source.reference),
            );
        },
        None => {
            lemma_views_at(
                args,
                cloner_args(
                    action.the_job(),
                    *config,
                    occasion.source_kind,
                    occasion.source_name@,
                    TriggerGitRepoReference::Commit(occasion.source_commit),
                ),
            );
        },
    }
}

/// The variable at a position has the name, behind the configured prefix, and the value.
pub open spec fn is_var(envs: Seq<EnvVar>, i: int, config: RuntimeConfig, name: Seq<char>, value: Seq<char>) -> bool {
    &&& 0 <= i < envs.len()
    &&& envs[i].name@ == config.action.containers.worker.variables_prefix@ + name
    &&& envs[i].value@ == value
}

/// The variables say where the worker works, what started the job, and what source it works on.
pub open spec fn tell_the_worker(
    envs: Seq<EnvVar>,
    config: RuntimeConfig,
    occasion: Occasion,
    source: Option<ActionSourceOverride>,
) -> bool {
    let own = if occasion.source_kind == TriggerSourceKind::GitRepo {
        9int
    } else {
        8
    };
    &&& is_var(envs, 1, config, "TRIGGER_SOURCE_KIND"@, source_kind_text(occasion.source_kind))
    &&& is_var(envs, 2, config, "TRIGGER_SOURCE_NAME"@, occasion.source_name@)
    &&& is_var(envs, 3, config, "TRIGGER_SOURCE_COMMIT"@, occasion.source_commit@)
    &&& is_var(envs, 4, config, "TRIGGER_SOURCE_REF_TYPE"@, reference_texts(occasion.trigger_ref).0)
    &&& is_var(envs, 5, config, "TRIGGER_SOURCE_REF_NAME"@, reference_texts(occasion.trigger_ref).1)
    &&& is_var(envs, 6, config, "TRIGGER_KIND"@, occasion.trigger_kind@)
    &&& is_var(envs, 7, config, "TRIGGER_NAME"@, occasion.trigger_name@)
    &&& occasion.source_kind == TriggerSourceKind::GitRepo ==> is_var(
        envs,
        8,
        config,
        "TRIGGER_SOURCE_NAMESPACE"@,
        occasion.namespace@,
    )
    &&& match source {
        None => envs.len() == own,
        Some(s) => {
            &&& is_var(envs, own, config, "ACTION_SOURCE_KIND"@, source_kind_text(s.kind))
            &&& is_var(envs, own + 1, config, "ACTION_SOURCE_NAME"@, s.name@)
            &&& is_var(envs, own + 2, config, "ACTION_SOURCE_REF_TYPE"@, reference_texts(s.reference).0)
            &&& is_var(envs, own + 3, config, "ACTION_SOURCE_REF_NAME"@, reference_texts(s.reference).1)
            &&& if s.kind == TriggerSourceKind::GitRepo {
                envs.len() == own + 5 && is_var(
                    envs,
                    own + 4,
                    config,
                    "ACTION_SOURCE_NAMESPACE"@,
                    occasion.namespace@,
                )
            } else {
                envs.len() == own + 4
            }
        },
    }
}

proof fn lemma_envs_at(envs: Seq<EnvVar>, vars: Seq<(Seq<char>, Seq<char>)>, config: RuntimeConfig)
    requires
        crate::resources::action::env_views(envs) == prefixed(vars, config),
    ensures
        envs.len() == vars.len(),
        forall|i: int|
            0 <= i < envs.len() ==> (#[trigger] envs[i]).name@
                == config.action.containers.worker.variables_prefix@ + vars[i].0 && envs[i].value@ == vars[i].1,
{
    assert(crate::resources::action::env_views(envs).len() == envs.len());
    assert forall|i: int| 0 <= i < envs.len() implies (#[trigger] envs[i]).name@
        == config.action.containers.worker.variables_prefix@ + vars[i].0 && envs[i].value@ == vars[i].1 by {
        assert(crate::resources::action::env_views(envs)[i] == envs[i]@);
        assert(prefixed(vars, config)[i] == (
            config.action.containers.worker.variables_prefix@ + vars[i].0,
            vars[i].1,
        ));
    }
}

/// The worker is told where it works, what started it and what it works on.
pub proof fn law_worker_is_told_what_it_works_on<A: ActionExecutor>(
    action: &A,
    config: &RuntimeConfig,
    occasion: &Occasion,
    r: Vec<EnvVar>,
)
    requires
        call_ensures(A::get_action_job_envs, (action, config, occasion), r),
    ensures
        r@.len() > 0,
        r@[0].name@ == config.action.containers.worker.variables_prefix@ + "WORKDIR"@,
        is_own_or(r@[0].value@, action.the_job().workdir, config.action.workdir.mount_path@),
        tell_the_worker(r@, *config, *occasion, action.the_override()),
{
    lemma_envs_at(r@, worker_vars(action.the_job(), action.the_override(), *config, *occasion), *config);
}

/// The worker of a job has these variables, with the job's folder among them.
pub proof fn law_job_tells_the_worker<A: ActionExecutor>(
    action: &A,
    config: &RuntimeConfig,
    occasion: &Occasion,
    name: String,
    r: Job,
)
    requires
        call_ensures(A::named_job_spec, (action, config, occasion, name), r),
    ensures
        r.pod.container.env matches Some(envs) && is_var(
            envs@,
            0,
            *config,
            "WORKDIR"@,
            r.pod.container.volume_mount.mount_path@,
        ) && tell_the_worker(envs@, *config, *occasion, action.the_override()),
{
    lemma_envs_at(
        r.pod.container.env->0@,
        worker_vars(action.the_job(), action.the_override(), *config, *occasion),
        *config,
    );
}

/// The name of a variable begins with the configured prefix.
pub proof fn law_variables_have_the_prefix(config: &RuntimeConfig, name: &str, value: &str, r: EnvVar)
    requires
        call_ensures(format_action_job_env_var, (config, name, value), r),
    ensures
        r.name@ == config.action.containers.worker.variables_prefix@ + name@,
        r.value@ == value@,
{
}

/// The label is what the action says, if it says anything of it. Otherwise it is there if it is one of
/// those that say what started the job, what it works on and what it does, and says that.
pub open spec fn is_label(
    labels: Map<Seq<char>, String>,
    added: Option<StringMap<String>>,
    kind: Seq<char>,
    name: Seq<char>,
    occasion: Occasion,
    key: Seq<char>,
) -> bool {
    if added is Some && added->0@.contains_key(key) {
        labels.contains_key(key) && labels[key]@ == added->0@[key]@
    } else if key == "git-events-runner.rs/action-kind"@ {
        labels.contains_key(key) && labels[key]@ == kind
    } else if key == "git-events-runner.rs/action-name"@ {
        labels.contains_key(key) && labels[key]@ == name
    } else if key == "git-events-runner.rs/source-kind"@ {
        labels.contains_key(key) && labels[key]@ == source_kind_text(occasion.source_kind)
    } else if key == "git-events-runner.rs/source-name"@ {
        labels.contains_key(key) && labels[key]@ == occasion.source_name@
    } else if key == "git-events-runner.rs/trigger-kind"@ {
        labels.contains_key(key) && labels[key]@ == occasion.trigger_kind@
    } else if key == "git-events-runner.rs/trigger-name"@ {
        labels.contains_key(key) && labels[key]@ == occasion.trigger_name@
    } else {
        !labels.contains_key(key)
    }
}

/// All labels are that.
pub open spec fn are_labels(
    labels: Map<Seq<char>, String>,
    added: Option<StringMap<String>>,
    kind: Seq<char>,
    name: Seq<char>,
    occasion: Occasion,
) -> bool {
    forall|key: Seq<char>| #[trigger] is_label(labels, added, kind, name, occasion, key)
}

proof fn lemma_label_names_differ()
    ensures
        "git-events-runner.rs/action-kind"@ != "git-events-runner.rs/action-name"@,
        "git-events-runner.rs/action-kind"@ != "git-events-runner.rs/source-kind"@,
        "git-events-runner.rs/action-kind"@ != "git-events-runner.rs/source-name"@,
        "git-events-runner.rs/action-kind"@ != "git-events-runner.rs/trigger-kind"@,
        "git-events-runner.rs/action-kind"@ != "git-events-runner.rs/trigger-name"@,
        "git-events-runner.rs/action-name"@ != "git-events-runner.rs/source-kind"@,
        "git-events-runner.rs/action-name"@ != "git-events-runner.rs/source-name"@,
        "git-events-runner.rs/action-name"@ != "git-events-runner.rs/trigger-kind"@,
        "git-events-runner.rs/action-name"@ != "git-events-runner.rs/trigger-name"@,
        "git-events-runner.rs/source-kind"@ != "git-events-runner.rs/source-name"@,
        "git-events-runner.rs/source-kind"@ != "git-events-runner.rs/trigger-kind"@,
        "git-events-runner.rs/source-kind"@ != "git-events-runner.rs/trigger-name"@,
        "git-events-runner.rs/source-name"@ != "git-events-runner.rs/trigger-kind"@,
        "git-events-runner.rs/source-name"@ != "git-events-runner.rs/trigger-name"@,
        "git-events-runner.rs/trigger-kind"@ != "git-events-runner.rs/trigger-name"@,
{
    reveal_strlit("git-events-runner.rs/action-kind");
    reveal_strlit("git-events-runner.rs/action-name");
    reveal_strlit("git-events-runner.rs/source-kind");
    reveal_strlit("git-events-runner.rs/source-name");
    reveal_strlit("git-events-runner.rs/trigger-kind");
    reveal_strlit("git-events-runner.rs/trigger-name");
    let ak = "git-events-runner.rs/action-kind"@;
    let an = "git-events-runner.rs/action-name"@;
    let sk = "git-events-runner.rs/source-kind"@;
    let sn = "git-events-runner.rs/source-name"@;
    let tk = "git-events-runner.rs/trigger-kind"@;
    let tn = "git-events-runner.rs/trigger-name"@;
    assert(ak[21] == 'a' && an[21] == 'a' && sk[21] == 's' && sn[21] == 's' && tk[21] == 't' && tn[21] == 't');
    assert(ak[28] == 'k' && an[28] == 'n' && sk[28] == 'k' && sn[28] == 'n' && tk[29] == 'k' && tn[29] == 'n');
}

proof fn lemma_labels(
    labels: StringMap<String>,
    added: Option<StringMap<String>>,
    kind: Seq<char>,
    name: Seq<char>,
    occasion: Occasion,
)
    requires
        text_map(labels@) == crate::resources::action::job_labels(kind, name, occasion, added),
    ensures
        are_labels(labels@, added, kind, name, occasion),
{
    lemma_label_names_differ();
    assert forall|key: Seq<char>| #[trigger] is_label(labels@, added, kind, name, occasion, key) by {
        let texts = text_map(labels@);
        assert(texts.contains_key(key) == labels@.contains_key(key));
        assert(texts.contains_key(key) ==> texts[key] == labels@[key]@);
        if let Some(a) = added {
            assert(text_map(a@).contains_key(key) == a@.contains_key(key));
            assert(a@.contains_key(key) ==> text_map(a@)[key] == a@[key]@);
        }
    }
}

/// A job is labelled with what started it, what it works on and what it does, unless the action sets
/// these labels itself.
pub proof fn law_job_is_labelled<A: ActionExecutor>(
    action: &A,
    config: &RuntimeConfig,
    occasion: &Occasion,
    name: String,
    r: Job,
)
    requires
        call_ensures(A::named_job_spec, (action, config, occasion, name), r),
        action.the_meta().name is Some,
    ensures
        are_labels(
            r.labels@,
            action.the_job().labels,
            A::kind_name(),
            action.the_meta().name->0@,
            *occasion,
        ),
{
    lemma_labels(r.labels, action.the_job().labels, A::kind_name(), action.the_meta().name->0@, *occasion);
}

/// The labels of an action's job are those.
pub proof fn law_labels_of_an_action<A: ActionExecutor>(action: &A, occasion: &Occasion, r: StringMap<String>)
    requires
        call_ensures(A::get_job_labels, (action, occasion), r),
        action.the_meta().name is Some,
    ensures
        are_labels(r@, action.the_job().labels, A::kind_name(), action.the_meta().name->0@, *occasion),
{
    lemma_labels(r, action.the_job().labels, A::kind_name(), action.the_meta().name->0@, *occasion);
}

/// The name is the action's, a time and two letters or digits, with dashes between, in lower case.
pub open spec fn is_name_for_a_job(text: Seq<char>, action: Seq<char>) -> bool {
    exists|time: Seq<char>, suffix: Seq<char>|
        is_timestamp(time) && suffix.len() == 2 && is_letter_or_digit(suffix[0]) && is_letter_or_digit(suffix[1])
            && text == #[trigger] lowercase(
            action + "-"@ + time + "-"@ + suffix,
        )
}

/// The name of a job has this form.
pub proof fn lemma_name_for_a_job(text: Seq<char>, action: Seq<char>)
    requires
        crate::resources::action::is_job_name(text, action),
    ensures
        is_name_for_a_job(text, action),
{
    let (time, suffix) = choose|time: Seq<char>, suffix: Seq<char>|
        is_timestamp(time) && crate::resources::action::is_job_suffix(suffix) && text
            == #[trigger] crate::resources::action::job_name_of(action, time, suffix);
    assert(text == lowercase(action + "-"@ + time + "-"@ + suffix));
}

/// A job is named after its action, the time and two random characters.
pub proof fn law_job_is_named_after_its_action<A: ActionExecutor>(action: &A, r: String)
    requires
        call_ensures(A::job_name, (action,), r),
        action.the_meta().name is Some,
    ensures
        is_name_for_a_job(r@, action.the_meta().name->0@),
{
    lemma_name_for_a_job(r@, action.the_meta().name->0@);
}

/// The parts of a job's name stand in their order, in lower case.
pub proof fn law_job_name_has_its_parts(action: &str, time: &str, suffix: &str, r: String)
    requires
        call_ensures(format_job_name, (action, time, suffix), r),
    ensures
        r@ == lowercase(action@ + "-"@ + time@ + "-"@ + suffix@),
{
}

/// A new job is one of those that the action runs under some name, and waits as long as the action says,
/// if it says so.
pub proof fn law_action_is_executed<A: ActionExecutor>(
    action: &A,
    config: &RuntimeConfig,
    occasion: &Occasion,
    r: (Job, Option<Duration>),
    created: Job,
)
    requires
        call_ensures(A::execute, (action, config, occasion), r),
        call_ensures(A::create_job_spec, (action, config, occasion), created),
        action.the_meta().name is Some,
    ensures
        match action.the_job().job_waiting_timeout_seconds {
            Some(seconds) => r.1 matches Some(length) && length.secs == seconds && length.nanos == 0,
            None => r.1 is None,
        },
        is_name_for_a_job(r.0.name@, action.the_meta().name->0@),
        is_name_for_a_job(created.name@, action.the_meta().name->0@),
        same_job(r.0, created),
{
    lemma_name_for_a_job(r.0.name@, action.the_meta().name->0@);
    lemma_name_for_a_job(created.name@, action.the_meta().name->0@);
}

/// Both optional texts are absent, or the same.
pub open spec fn same_opt_texts(a: Option<String>, b: Option<String>) -> bool {
    match (a, b) {
        (Some(x), Some(y)) => x@ == y@,
        (None, None) => true,
        _ => false,
    }
}

/// Both containers are the same.
pub open spec fn same_container(a: Container, b: Container) -> bool {
    &&& a.name@ == b.name@
    &&& a.image@ == b.image@
    &&& same_opt_texts(a.working_dir, b.working_dir)
    &&& same_opt_lists(a.command, b.command)
    &&& a.volume_mount.name@ == b.volume_mount.name@
    &&& a.volume_mount.mount_path@ == b.volume_mount.mount_path@
}

/// Both owners are the same.
pub open spec fn same_owner(a: OwnerReference, b: OwnerReference) -> bool {
    &&& a.api_version@ == b.api_version@
    &&& a.kind@ == b.kind@
    &&& a.name@ == b.name@
    &&& a.uid@ == b.uid@
    &&& a.controller == b.controller
}

/// Both jobs do the same, and have the same labels and namespace.
pub open spec fn same_job(a: Job, b: Job) -> bool {
    &&& text_map(a.labels@) == text_map(b.labels@)
    &&& same_opt_texts(a.namespace, b.namespace)
    &&& same_work(a, b)
}

/// Both jobs do the same.
pub open spec fn same_work(a: Job, b: Job) -> bool {
    &&& same_opt_maps(a.annotations, b.annotations)
    &&& same_owner(a.owner_reference, b.owner_reference)
    &&& a.backoff_limit == b.backoff_limit
    &&& a.parallelism == b.parallelism
    &&& a.ttl_seconds_after_finished == b.ttl_seconds_after_finished
    &&& a.active_deadline_seconds == b.active_deadline_seconds
    &&& match (a.pod_metadata, b.pod_metadata) {
        (Some(x), Some(y)) => same_opt_maps(x.labels, y.labels) && same_opt_maps(x.annotations, y.annotations),
        (None, None) => true,
        _ => false,
    }
    &&& same_opt_texts(a.pod.service_account_name, b.pod.service_account_name)
    &&& same_opt_maps(a.pod.node_selector, b.pod.node_selector)
    &&& a.pod.affinity == b.pod.affinity
    &&& match (a.pod.tolerations, b.pod.tolerations) {
        (Some(x), Some(y)) => x@ == y@,
        (None, None) => true,
        _ => false,
    }
    &&& a.pod.restart_policy@ == b.pod.restart_policy@
    &&& a.pod.volume@ == b.pod.volume@
    &&& same_container(a.pod.init_container, b.pod.init_container)
    &&& same_container(a.pod.container, b.pod.container)
    &&& views(a.pod.init_container.args->0@) == views(b.pod.init_container.args->0@)
    &&& same_opt_lists(a.pod.container.args, b.pod.container.args)
    &&& a.pod.init_container.env is Some == b.pod.init_container.env is Some
    &&& env_views(a.pod.container.env->0@) == env_views(b.pod.container.env->0@)
}

/// What a job does doesn't depend on its name: two jobs of an action on an occasion do the same, and a
/// job that was created is like one that is named.
pub proof fn law_created_job_is_like_a_named_one<A: ActionExecutor>(
    action: &A,
    config: &RuntimeConfig,
    occasion: &Occasion,
    name: String,
    named: Job,
    created: Job,
)
    requires
        call_ensures(A::named_job_spec, (action, config, occasion, name), named),
        call_ensures(A::create_job_spec, (action, config, occasion), created),
    ensures
        same_job(named, created),
{
}

/// Parts of an action of a namespace.
pub proof fn law_parts_of_an_action(action: Action)
    ensures
        action.the_meta() == action.metadata,
        action.the_job() == action.spec.action_job,
        action.the_override() == action.spec.source_override,
        Action::kind_name() == "Action"@,
{
}

/// Parts of an action of the cluster: its own source is one of the cluster.
pub proof fn law_parts_of_a_cluster_action(action: ClusterAction)
    ensures
        action.the_meta() == action.metadata,
        action.the_job() == action.spec.action_job,
        match action.spec.source_override {
            Some(source) => action.the_override() matches Some(o) && o.kind == TriggerSourceKind::ClusterGitRepo
                && o.name == source.name && o.reference == source.reference,
            None => action.the_override() is None,
        },
        ClusterAction::kind_name() == "ClusterAction"@,
{
}

} // verus!
