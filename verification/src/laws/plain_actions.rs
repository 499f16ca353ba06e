//! Jobs of actions that are created at once.
use crate::controllers::action::{
    cloner_args, cloner_args_of_commit, prefixed, worker_vars, Action, ActionJob, ActionSpec,
};
use crate::resources::action::{env_views, EnvVar, Job};
use crate::resources::trigger::{TriggerGitRepoReference, TriggerSourceKind};
use crate::text::text_map;
use vstd::prelude::*;

use super::actions::{
    is_name_for_a_job, lemma_name_for_a_job, lemma_views_at, reference_texts, same_opt_lists,
    source_kind_text,
};

verus! {

/// The arguments tell the cloner to fetch a reference of a source to the job's folder.
pub open spec fn plainly_tell_to_clone(
    args: Seq<String>,
    job: ActionJob,
    namespace: Seq<char>,
    kind: TriggerSourceKind,
    name: Seq<char>,
    reference: TriggerGitRepoReference,
) -> bool {
    let named: int = if kind == TriggerSourceKind::GitRepo {
        10
    } else {
        8
    };
    let preserved: int = if job.preserve_git_folder {
        1
    } else {
        0
    };
    let debugged: int = if job.enable_cloner_debug {
        1
    } else {
        0
    };
    &&& args.len() == named + preserved + debugged
    &&& args[0]@ == "--kind"@
    &&& args[1]@ == source_kind_text(kind)
    &&& args[2]@ == "--source"@
    &&& args[3]@ == name
    &&& args[4]@ == "--destination"@
    &&& args[5]@ == job.workdir@
    &&& args[6]@ == "--"@ + reference_texts(reference).0
    &&& args[7]@ == reference_texts(reference).1
    &&& kind == TriggerSourceKind::GitRepo ==> args[8]@ == "--namespace"@ && args[9]@ == namespace
    &&& job.preserve_git_folder ==> args[named]@ == "--preserve-git-folder"@
    &&& job.enable_cloner_debug ==> args[named + preserved]@ == "--debug"@
}

/// The cloner is told to fetch the given reference of the given source.
pub proof fn law_plain_cloner_is_told_what_to_fetch(
    action: &Action,
    kind: &TriggerSourceKind,
    name: &str,
    reference: &TriggerGitRepoReference,
    r: Vec<String>,
)
    requires
        call_ensures(Action::get_gitrepo_cloner_args, (action, kind, name, reference), r),
    ensures
        plainly_tell_to_clone(
            r@,
            action.spec.action_job,
            action.metadata.namespace->0@,
            *kind,
            name@,
            *reference,
        ),
{
    lemma_views_at(
        r@,
        cloner_args(action.spec.action_job, action.metadata.namespace->0@, *kind, name@, *reference),
    );
}

/// The variable at a position has the name, behind the prefix, and the value.
pub open spec fn is_plain_var(envs: Seq<EnvVar>, i: int, name: Seq<char>, value: Seq<char>) -> bool {
    &&& 0 <= i < envs.len()
    &&& envs[i].name@ == "ACTION_JOB_"@ + name
    &&& envs[i].value@ == value
}

/// The variables say where the worker works, what started the job, and what source it works on.
pub open spec fn plainly_tell_the_worker(
    envs: Seq<EnvVar>,
    spec_: ActionSpec,
    namespace: Seq<char>,
    kind: TriggerSourceKind,
    name: Seq<char>,
    commit: Seq<char>,
    reference: TriggerGitRepoReference,
) -> bool {
    let own: int = if kind == TriggerSourceKind::GitRepo {
        7
    } else {
        6
    };
    &&& is_plain_var(envs, 0, "WORKDIR"@, spec_.action_job.workdir@)
    &&& is_plain_var(envs, 1, "TRIGGER_SOURCE_KIND"@, source_kind_text(kind))
    &&& is_plain_var(envs, 2, "TRIGGER_SOURCE_NAME"@, name)
    &&& is_plain_var(envs, 3, "TRIGGER_SOURCE_COMMIT"@, commit)
    &&& is_plain_var(envs, 4, "TRIGGER_SOURCE_REF_TYPE"@, reference_texts(reference).0)
    &&& is_plain_var(envs, 5, "TRIGGER_SOURCE_REF_NAME"@, reference_texts(reference).1)
    &&& kind == TriggerSourceKind::GitRepo ==> is_plain_var(envs, 6, "TRIGGER_SOURCE_NAMESPACE"@, namespace)
    &&& match spec_.source_override {
        None => envs.len() == own,
        Some(s) => {
            &&& is_plain_var(envs, own, "ACTION_SOURCE_KIND"@, source_kind_text(s.kind))
            &&& is_plain_var(envs, own + 1, "ACTION_SOURCE_NAME"@, s.name@)
            &&& is_plain_var(envs, own + 2, "ACTION_SOURCE_REF_TYPE"@, reference_texts(s.reference).0)
            &&& is_plain_var(envs, own + 3, "ACTION_SOURCE_REF_NAME"@, reference_texts(s.reference).1)
            &&& if s.kind == TriggerSourceKind::GitRepo {
                envs.len() == own + 5 && is_plain_var(envs, own + 4, "ACTION_SOURCE_NAMESPACE"@, namespace)
            } else {
                envs.len() == own + 4
            }
        },
    }
}

proof fn lemma_plain_envs_at(envs: Seq<EnvVar>, vars: Seq<(Seq<char>, Seq<char>)>)
    requires
        env_views(envs) == prefixed(vars),
    ensures
        envs.len() == vars.len(),
        forall|i: int|
            0 <= i < envs.len() ==> (#[trigger] envs[i]).name@ == "ACTION_JOB_"@ + vars[i].0 && envs[i].value@
                == vars[i].1,
{
    assert(env_views(envs).len() == envs.len());
    assert forall|i: int| 0 <= i < envs.len() implies (#[trigger] envs[i]).name@ == "ACTION_JOB_"@ + vars[i].0
        && envs[i].value@ == vars[i].1 by {
        assert(env_views(envs)[i] == envs[i]@);
        assert(prefixed(vars)[i] == ("ACTION_JOB_"@ + vars[i].0, vars[i].1));
    }
}

/// The name of a variable begins with the prefix.
pub proof fn law_plain_variables_have_the_prefix(name: &str, value: &str, r: EnvVar)
    requires
        call_ensures(Action::create_action_job_env_var, (name, value), r),
    ensures
        r.name@ == "ACTION_JOB_"@ + name@,
        r.value@ == value@,
{
}

/// The worker is told where it works, what started it and what it works on.
pub proof fn law_plain_worker_is_told_what_it_works_on(
    action: &Action,
    kind: &TriggerSourceKind,
    name: &str,
    commit: &str,
    reference: &TriggerGitRepoReference,
    r: Vec<EnvVar>,
)
    requires
        call_ensures(Action::get_action_job_envs, (action, kind, name, commit, reference), r),
    ensures
        plainly_tell_the_worker(
            r@,
            action.spec,
            action.metadata.namespace->0@,
            *kind,
            name@,
            commit@,
            *reference,
        ),
{
    lemma_plain_envs_at(
        r@,
        worker_vars(action.spec, action.metadata.namespace->0@, *kind, name@, commit@, *reference),
    );
}

/// The label says what runs or what it works on, or isn't there.
pub open spec fn is_plain_label(
    labels: Map<Seq<char>, String>,
    key: Seq<char>,
    action: Seq<char>,
    kind: TriggerSourceKind,
    name: Seq<char>,
) -> bool {
    let text = if key == "git-events-runner.rs/job"@ {
        Some("true"@)
    } else if key == "git-events-runner.rs/action-kind"@ {
        Some("Action"@)
    } else if key == "git-events-runner.rs/action-name"@ {
        Some(action)
    } else if key == "git-events-runner.rs/source-kind"@ {
        Some(source_kind_text(kind))
    } else if key == "git-events-runner.rs/source-name"@ {
        Some(name)
    } else {
        None
    };
    &&& labels.contains_key(key) == text is Some
    &&& text is Some ==> labels[key]@ == text->0
}

proof fn lemma_plain_labels(
    labels: Map<Seq<char>, String>,
    key: Seq<char>,
    action: Seq<char>,
    kind: TriggerSourceKind,
    name: Seq<char>,
)
    requires
        text_map(labels) == crate::controllers::action::job_labels(action, kind, name),
    ensures
        is_plain_label(labels, key, action, kind, name),
{
    reveal_strlit("git-events-runner.rs/job");
    reveal_strlit("git-events-runner.rs/action-kind");
    reveal_strlit("git-events-runner.rs/action-name");
    reveal_strlit("git-events-runner.rs/source-kind");
    reveal_strlit("git-events-runner.rs/source-name");
    assert("git-events-runner.rs/job"@.len() == 24);
    assert("git-events-runner.rs/action-kind"@.len() == 32 && "git-events-runner.rs/action-kind"@[21] == 'a'
        && "git-events-runner.rs/action-kind"@[28] == 'k');
    assert("git-events-runner.rs/action-name"@.len() == 32 && "git-events-runner.rs/action-name"@[21] == 'a'
        && "git-events-runner.rs/action-name"@[28] == 'n');
    assert("git-events-runner.rs/source-kind"@.len() == 32 && "git-events-runner.rs/source-kind"@[21] == 's'
        && "git-events-runner.rs/source-kind"@[28] == 'k');
    assert("git-events-runner.rs/source-name"@.len() == 32 && "git-events-runner.rs/source-name"@[21] == 's'
        && "git-events-runner.rs/source-name"@[28] == 'n');
    let texts = text_map(labels);
    assert(texts.contains_key(key) == labels.contains_key(key));
    assert(labels.contains_key(key) ==> texts[key] == labels[key]@);
    assert(kind.name() == source_kind_text(kind));
    if key == "git-events-runner.rs/job"@ {
        assert(texts[key] == "true"@);
    } else if key == "git-events-runner.rs/action-kind"@ {
        assert(texts[key] == "Action"@);
    } else if key == "git-events-runner.rs/action-name"@ {
        assert(texts[key] == action);
    } else if key == "git-events-runner.rs/source-kind"@ {
        assert(texts[key] == source_kind_text(kind));
    } else if key == "git-events-runner.rs/source-name"@ {
        assert(texts[key] == name);
    } else {
        assert(!texts.contains_key(key));
    }
}

/// The job is that of an action for a commit of a source.
pub open spec fn is_plain_job(
    job: Job,
    action: Action,
    kind: TriggerSourceKind,
    name: Seq<char>,
    commit: String,
    reference: TriggerGitRepoReference,
) -> bool {
    let own = action.spec.action_job;
    let namespace = action.metadata.namespace->0@;
    let cloner = job.pod.init_container;
    let worker = job.pod.container;
    &&& job.namespace matches Some(ns) && ns@ == namespace
    &&& forall|key: Seq<char>| #[trigger]
        is_plain_label(job.labels@, key, action.metadata.name->0@, kind, name)
    &&& job.annotations is None && job.pod_metadata is None && job.active_deadline_seconds is None
    &&& job.owner_reference.api_version@ == "git-events-runner.rs"@ + "/"@ + "v1alpha1"@
    &&& job.owner_reference.kind@ == "Action"@
    &&& job.owner_reference.name@ == action.metadata.name->0@
    &&& job.owner_reference.uid@ == action.metadata.uid->0@
    &&& job.owner_reference.controller
    &&& job.backoff_limit == 0 && job.parallelism == 1 && job.ttl_seconds_after_finished == 300
    &&& match own.service_account {
        Some(account) => job.pod.service_account_name matches Some(text) && text@ == account@,
        None => job.pod.service_account_name is None,
    }
    &&& job.pod.node_selector is None && job.pod.affinity is None && job.pod.tolerations is None
    &&& job.pod.restart_policy@ == "Never"@
    &&& job.pod.volume@ == "action-workdir"@
    &&& cloner.volume_mount.name@ == job.pod.volume@ && worker.volume_mount.name@ == job.pod.volume@
    &&& cloner.volume_mount.mount_path@ == own.workdir@ && worker.volume_mount.mount_path@ == own.workdir@
    &&& worker.working_dir matches Some(folder) && folder@ == own.workdir@
    &&& cloner.name@ == "action-init"@ && worker.name@ == "action-worker"@
    &&& cloner.image@ == own.cloner_image@ && worker.image@ == own.action_image@
    &&& cloner.working_dir is None && cloner.command is None && cloner.env is None
    &&& same_opt_lists(worker.command, own.command)
    &&& same_opt_lists(worker.args, own.args)
    &&& cloner.args matches Some(args) && (match action.spec.source_override {
        Some(s) => plainly_tell_to_clone(args@, own, namespace, s.kind, s.name@, s.reference),
        None => plainly_tell_to_clone(
            args@,
            own,
            namespace,
            kind,
            name,
            TriggerGitRepoReference::Commit(commit),
        ),
    })
    &&& worker.env matches Some(envs) && plainly_tell_the_worker(
        envs@,
        action.spec,
        namespace,
        kind,
        name,
        commit@,
        reference,
    )
}

proof fn lemma_plain_job(
    job: Job,
    action: Action,
    kind: TriggerSourceKind,
    name: Seq<char>,
    commit: String,
    reference: TriggerGitRepoReference,
)
    requires
        crate::controllers::action::is_job(job, action, kind, name, commit@, reference),
        action.metadata.name is Some,
        action.metadata.namespace is Some,
    ensures
        is_plain_job(job, action, kind, name, commit, reference),
{
    let own = action.spec.action_job;
    let namespace = action.metadata.namespace->0@;
    assert forall|key: Seq<char>| #[trigger]
        is_plain_label(job.labels@, key, action.metadata.name->0@, kind, name) by {
        lemma_plain_labels(job.labels@, key, action.metadata.name->0@, kind, name);
    }
    match action.spec.source_override {
        Some(s) => {
            lemma_views_at(
                job.pod.init_container.args->0@,
                cloner_args(own, namespace, s.kind, s.name@, s.reference),
            );
        },
        None => {
            lemma_views_at(
                job.pod.init_container.args->0@,
                cloner_args_of_commit(own, namespace, kind, name, commit@),
            );
        },
    }
    lemma_plain_envs_at(
        job.pod.container.env->0@,
        worker_vars(action.spec, namespace, kind, name, commit@, reference),
    );
}

/// A job clones the commit that was found, or the action's own source, and does what the action says, for
/// the action and in its namespace.
pub proof fn law_plain_job_does_what_the_action_says(
    action: &Action,
    kind: &TriggerSourceKind,
    source: &str,
    commit: &str,
    reference: &TriggerGitRepoReference,
    name: String,
    text: String,
    r: Job,
)
    requires
        call_ensures(Action::named_job_spec, (action, kind, source, commit, reference, name), r),
        action.metadata.name is Some,
        action.metadata.namespace is Some,
        text@ == commit@,
    ensures
        r.name@ == name@,
        is_plain_job(r, *action, *kind, source@, text, *reference),
{
    lemma_plain_job(r, *action, *kind, source@, text, *reference);
}

/// A job that is created is the same, under a name that is made up for it.
pub proof fn law_plain_job_is_created(
    action: &Action,
    kind: &TriggerSourceKind,
    source: &str,
    commit: &str,
    reference: &TriggerGitRepoReference,
    text: String,
    r: Job,
    name: String,
)
    requires
        call_ensures(Action::create_job_spec, (action, kind, source, commit, reference), r),
        call_ensures(Action::job_name, (action,), name),
        action.metadata.name is Some,
        action.metadata.namespace is Some,
        text@ == commit@,
    ensures
        is_plain_job(r, *action, *kind, source@, text, *reference),
        is_name_for_a_job(r.name@, action.metadata.name->0@),
        is_name_for_a_job(name@, action.metadata.name->0@),
{
    lemma_plain_job(r, *action, *kind, source@, text, *reference);
    lemma_name_for_a_job(r.name@, action.metadata.name->0@);
    lemma_name_for_a_job(name@, action.metadata.name->0@);
}

/// Where an action doesn't say, its job has these images and this folder.
pub proof fn law_plain_job_has_defaults(r: ActionJob)
    requires
        call_ensures(<ActionJob as Default>::default, (), r),
    ensures
        r.workdir@ == "/action_workdir"@,
        r.cloner_image@ == "ghcr.io/alex-karpenko/git-events-runner/gitrepo-cloner:latest"@,
        r.action_image@ == "docker.io/bash:latest"@,
        r.args is None && r.command is None && r.service_account is None,
        !r.enable_cloner_debug && !r.preserve_git_folder,
{
}

} // verus!
