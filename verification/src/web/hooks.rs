//! Requests to webhooks and probes.
use super::response::{is_web_error, WebError, WebResponseJson, WebResponseStatus};
use crate::config::RuntimeConfig;
use crate::error::Error;
use crate::resources::trigger::{
    TaskSchedule, Trigger, TriggerTaskSources, TriggerWebhookAuthConfig, WebhookTrigger,
};
use crate::resources::trigger_task::{create_trigger_task, TriggerTask};
use crate::text::{contains_string, copy_or, has_string, text_or};
use vstd::prelude::*;
use vstd::utf8::encode_utf8;

verus! {

/// Headers of a request, as `http` has them.
#[verifier::external_type_specification]
#[verifier::external_body]
#[verifier::reject_recursive_types(T)]
pub struct ExHeaderMap<T>(axum::http::HeaderMap<T>);

/// Value of a header, as `http` has it.
#[verifier::external_type_specification]
#[verifier::external_body]
pub struct ExHeaderValue(axum::http::HeaderValue);

/// Bytes of the value that a lookup in the headers finds, for each name under which it finds one.
pub uninterp spec fn header_values(headers: axum::http::HeaderMap<axum::http::HeaderValue>) -> Map<
    Seq<char>,
    Seq<u8>,
>;

/// Looks a header up with `http`'s `HeaderMap::get`, and takes the bytes of the value that it finds.
/// It finds none under a name that isn't one of a header.
#[verifier::external_body]
fn header_value(headers: &axum::http::HeaderMap<axum::http::HeaderValue>, name: &str) -> (r: Option<
    Vec<u8>,
>)
    ensures
        match r {
            Some(value) => header_values(*headers).contains_key(name@) && header_values(*headers)[name@]
                == value@,
            None => !header_values(*headers).contains_key(name@),
        },
{
    headers.get(name).map(|value| value.as_bytes().to_vec())
}

/// Value of a secret to look up.
#[derive(Debug)]
pub struct SecretLookup {
    /// Namespace of the secret.
    pub namespace: String,
    /// Name of the secret.
    pub name: String,
    /// Key of the value in the secret.
    pub key: String,
}

/// Whether a request may go on.
#[derive(Debug)]
pub enum AuthStep {
    /// It may.
    Granted,
    /// It may if the secret has the value that the request shows.
    CompareSecret(SecretLookup, Vec<u8>),
    /// It may not.
    Refused(WebError),
}

/// Header that a request has to show its secret in.
pub open spec fn auth_header(auth: TriggerWebhookAuthConfig, config: RuntimeConfig) -> Seq<char> {
    text_or(auth.header, config.trigger.webhook.default_auth_header@)
}

/// The lookup is the one that the authorization asks for.
pub open spec fn is_lookup(lookup: SecretLookup, auth: TriggerWebhookAuthConfig, namespace: Seq<char>) -> bool {
    &&& lookup.namespace@ == namespace
    &&& lookup.name == auth.secret_ref.name
    &&& lookup.key == auth.key
}

/// The step is what the authorization asks for, by the values of the request's headers.
pub open spec fn is_auth_step(
    step: AuthStep,
    auth: Option<TriggerWebhookAuthConfig>,
    namespace: Seq<char>,
    headers: Map<Seq<char>, Seq<u8>>,
    config: RuntimeConfig,
) -> bool {
    match auth {
        None => step is Granted,
        Some(a) => if headers.contains_key(auth_header(a, config)) {
            step matches AuthStep::CompareSecret(lookup, shown) && is_lookup(lookup, a, namespace)
                && shown@ == headers[auth_header(a, config)]
        } else {
            step == AuthStep::Refused(WebError::Unauthorized)
        },
    }
}

/// Step of the authorization, from the value of its header in the request.
pub fn authorization_step(auth: &Option<TriggerWebhookAuthConfig>, namespace: &str, shown: Option<Vec<u8>>) -> (r:
    AuthStep)
    ensures
        match *auth {
            None => r is Granted,
            Some(a) => match shown {
                Some(value) => r matches AuthStep::CompareSecret(lookup, bytes) && is_lookup(
                    lookup,
                    a,
                    namespace@,
                ) && bytes == value,
                None => r == AuthStep::Refused(WebError::Unauthorized),
            },
        },
{
    match auth {
        None => AuthStep::Granted,
        Some(a) => match shown {
            Some(value) => AuthStep::CompareSecret(
                SecretLookup {
                    namespace: namespace.to_owned(),
                    name: a.secret_ref.name.clone(),
                    key: a.key.clone(),
                },
                value,
            ),
            None => AuthStep::Refused(WebError::Unauthorized),
        },
    }
}

/// Checks whether a request to a webhook may go on. Without a configuration every request may.
/// Otherwise it has to have the header, whose value is then compared with the secret.
pub fn check_hook_authorization(
    request_headers: &axum::http::HeaderMap<axum::http::HeaderValue>,
    auth: &Option<TriggerWebhookAuthConfig>,
    namespace: &str,
    config: &RuntimeConfig,
) -> (r: AuthStep)
    ensures
        is_auth_step(r, *auth, namespace@, header_values(*request_headers), *config),
{
    let shown: Option<Vec<u8>> = match auth {
        Some(a) => {
            let header = copy_or(&a.header, &config.trigger.webhook.default_auth_header);
            header_value(request_headers, header.as_str())
        },
        None => None,
    };
    authorization_step(auth, namespace, shown)
}

/// Compares the value that a request shows with the secret, or refuses where the secret couldn't be
/// had.
pub fn compare_secret(shown: &Vec<u8>, secret: Result<String, Error>) -> (r: Result<(), WebError>)
    ensures
        match secret {
            Ok(value) => if shown@ == encode_utf8(value@) {
                r is Ok
            } else {
                r == Err::<(), WebError>(WebError::Forbidden)
            },
            Err(_) => r == Err::<(), WebError>(WebError::AuthorizationError),
        },
{
    match secret {
        Ok(value) => if same_bytes(shown, value.as_str().as_bytes()) {
            Ok(())
        } else {
            Err(WebError::Forbidden)
        },
        Err(_) => Err(WebError::AuthorizationError),
    }
}

fn same_bytes(a: &Vec<u8>, b: &[u8]) -> (r: bool)
    ensures
        r == (a@ == b@),
{
    if a.len() != b.len() {
        return false;
    }
    for i in 0..a.len()
        invariant
            a.len() == b@.len(),
            forall|j: int| 0 <= j < i ==> a@[j] == b@[j],
    {
        if a[i] != b[i] {
            return false;
        }
    }
    assert(a@ =~= b@);
    true
}

/// What to do next with a request to a webhook.
#[derive(Debug)]
pub enum HookStep {
    /// Look a secret up and compare it with the value that the request shows.
    CompareSecret(SecretLookup, Vec<u8>),
    /// Schedule a task.
    Schedule(TriggerTask),
    /// Answer.
    Respond(Result<WebResponseJson, WebError>),
}

/// Reason why a trigger can't be run on the sources by a webhook, if there is one: all sources are
/// run only where the trigger allows it, and one source only if it is the trigger's.
pub open spec fn sources_refused(trigger: WebhookTrigger, sources: TriggerTaskSources) -> Option<WebError> {
    match sources {
        TriggerTaskSources::All => if trigger.spec.webhook.multi_source {
            None
        } else {
            Some(WebError::ForbiddenMultiSource)
        },
        TriggerTaskSources::Single(source) => if has_string(trigger.spec.sources.names@, source@) {
            None
        } else {
            Some(WebError::SourceNotFound)
        },
    }
}

/// The task runs the trigger on the sources, once.
pub open spec fn is_hook_task(
    task: TriggerTask,
    trigger: WebhookTrigger,
    sources: TriggerTaskSources,
    folder: String,
) -> bool {
    &&& task.schedule is Once
    &&& Some(task.namespace) == trigger.metadata.namespace
    &&& task.name@ == trigger.metadata.any_name()
    &&& task.kind@ == "WebhookTrigger"@
    &&& task.task_sources == sources
    &&& task.source_clone_folder == folder
}

/// The step is what a request that may go on leads to.
pub open spec fn is_granted_step(
    step: HookStep,
    trigger: WebhookTrigger,
    sources: TriggerTaskSources,
    folder: String,
) -> bool {
    match sources_refused(trigger, sources) {
        Some(error) => step == HookStep::Respond(Err(error)),
        None => step matches HookStep::Schedule(task) && is_hook_task(task, trigger, sources, folder),
    }
}

/// The step is what a request leads to.
pub open spec fn is_hook_step(
    step: HookStep,
    namespace: Seq<char>,
    trigger: Result<&WebhookTrigger, Error>,
    sources: TriggerTaskSources,
    headers: Map<Seq<char>, Seq<u8>>,
    config: RuntimeConfig,
    folder: String,
) -> bool {
    match trigger {
        Err(error) => step matches HookStep::Respond(Err(e)) && is_web_error(error, e),
        Ok(t) => match t.spec.webhook.auth_config {
            None => is_granted_step(step, *t, sources, folder),
            Some(auth) => if headers.contains_key(auth_header(auth, config)) {
                step matches HookStep::CompareSecret(lookup, shown) && is_lookup(lookup, auth, namespace)
                    && shown@ == headers[auth_header(auth, config)]
            } else {
                step == HookStep::Respond(Err(WebError::Unauthorized))
            },
        },
    }
}

/// The step is what a request leads to that shows a value, once the secret is known or can't be had.
pub open spec fn is_secret_step(
    step: HookStep,
    trigger: WebhookTrigger,
    sources: TriggerTaskSources,
    folder: String,
    shown: Seq<u8>,
    secret: Option<Seq<char>>,
) -> bool {
    match secret {
        Some(value) => if shown == encode_utf8(value) {
            is_granted_step(step, trigger, sources, folder)
        } else {
            step == HookStep::Respond(Err(WebError::Forbidden))
        },
        None => step == HookStep::Respond(Err(WebError::AuthorizationError)),
    }
}

fn granted_step(trigger: &WebhookTrigger, sources: TriggerTaskSources, folder: String) -> (r: HookStep)
    requires
        trigger.metadata.namespace is Some,
    ensures
        is_granted_step(r, *trigger, sources, folder),
{
    match &sources {
        TriggerTaskSources::All => {
            if !trigger.spec.webhook.multi_source {
                return HookStep::Respond(Err(WebError::ForbiddenMultiSource));
            }
        },
        TriggerTaskSources::Single(source) => {
            if !contains_string(&trigger.spec.sources.names, source) {
                return HookStep::Respond(Err(WebError::SourceNotFound));
            }
        },
    }
    HookStep::Schedule(create_trigger_task(trigger, TaskSchedule::Once, sources, folder))
}

/// Takes up a request to run a trigger on some of its sources. `trigger` is the trigger as the
/// cluster has it now, or the reason why it can't be had.
pub fn handle_webhook(
    namespace: &str,
    trigger: Result<&WebhookTrigger, Error>,
    sources: TriggerTaskSources,
    headers: &axum::http::HeaderMap<axum::http::HeaderValue>,
    config: &RuntimeConfig,
    folder: String,
) -> (r: HookStep)
    requires
        trigger matches Ok(t) ==> t.metadata.namespace is Some,
    ensures
        is_hook_step(r, namespace@, trigger, sources, header_values(*headers), *config, folder),
{
    match trigger {
        Err(error) => HookStep::Respond(Err(WebError::from_error(error))),
        Ok(t) => match check_hook_authorization(headers, &t.spec.webhook.auth_config, namespace, config) {
            AuthStep::Granted => granted_step(t, sources, folder),
            AuthStep::CompareSecret(lookup, shown) => HookStep::CompareSecret(lookup, shown),
            AuthStep::Refused(error) => HookStep::Respond(Err(error)),
        },
    }
}

/// Takes up a request to run a trigger on all its sources.
pub fn handle_post_trigger_webhook(
    namespace: &str,
    trigger: Result<&WebhookTrigger, Error>,
    headers: &axum::http::HeaderMap<axum::http::HeaderValue>,
    config: &RuntimeConfig,
    folder: String,
) -> (r: HookStep)
    requires
        trigger matches Ok(t) ==> t.metadata.namespace is Some,
    ensures
        is_hook_step(
            r,
            namespace@,
            trigger,
            TriggerTaskSources::All,
            header_values(*headers),
            *config,
            folder,
        ),
{
    handle_webhook(namespace, trigger, TriggerTaskSources::All, headers, config, folder)
}

/// Takes up a request to run a trigger on one source.
pub fn handle_post_source_webhook(
    namespace: &str,
    trigger: Result<&WebhookTrigger, Error>,
    source: String,
    headers: &axum::http::HeaderMap<axum::http::HeaderValue>,
    config: &RuntimeConfig,
    folder: String,
) -> (r: HookStep)
    requires
        trigger matches Ok(t) ==> t.metadata.namespace is Some,
    ensures
        is_hook_step(
            r,
            namespace@,
            trigger,
            TriggerTaskSources::Single(source),
            header_values(*headers),
            *config,
            folder,
        ),
{
    handle_webhook(namespace, trigger, TriggerTaskSources::Single(source), headers, config, folder)
}

/// Goes on with a request after the secret was looked up, or couldn't be had.
pub fn handle_secret(
    trigger: &WebhookTrigger,
    sources: TriggerTaskSources,
    folder: String,
    shown: &Vec<u8>,
    secret: Result<String, Error>,
) -> (r: HookStep)
    requires
        trigger.metadata.namespace is Some,
    ensures
        is_secret_step(
            r,
            *trigger,
            sources,
            folder,
            shown@,
            match secret {
                Ok(value) => Some(value@),
                Err(_) => None,
            },
        ),
{
    match compare_secret(shown, secret) {
        Ok(_) => granted_step(trigger, sources, folder),
        Err(error) => HookStep::Respond(Err(error)),
    }
}

/// Answers a request for which a task was scheduled under an identifier, or couldn't be.
pub fn handle_scheduled(scheduled: Result<String, String>) -> (r: HookStep)
    ensures
        match scheduled {
            Ok(task_id) => r matches HookStep::Respond(Ok(response)) && response.status
                == WebResponseStatus::Success && response.message@ == "job has been scheduled"@
                && response.task_id == Some(task_id),
            Err(msg) => r == HookStep::Respond(Err(WebError::SchedulerError { msg })),
        },
{
    match scheduled {
        Ok(task_id) => HookStep::Respond(Ok(WebResponseJson::from_task_id(task_id))),
        Err(msg) => HookStep::Respond(Err(WebError::SchedulerError { msg })),
    }
}

/// Answers the question whether the controller is ready.
pub fn handle_ready(ready: bool) -> (r: (u16, &'static str))
    ensures
        ready ==> r.0 == 200 && r.1@ == "Ready"@,
        !ready ==> r.0 == 500 && r.1@ == "Not ready"@,
{
    if ready {
        (200, "Ready")
    } else {
        (500, "Not ready")
    }
}

/// A trigger that asks for a secret isn't run before the secret is compared, and a request without
/// the header is answered with 401.
pub proof fn law_header_is_needed(
    namespace: Seq<char>,
    trigger: &WebhookTrigger,
    auth: TriggerWebhookAuthConfig,
    sources: TriggerTaskSources,
    headers: Map<Seq<char>, Seq<u8>>,
    config: RuntimeConfig,
    folder: String,
    step: HookStep,
)
    requires
        trigger.spec.webhook.auth_config == Some(auth),
        is_hook_step(step, namespace, Ok(trigger), sources, headers, config, folder),
    ensures
        !(step is Schedule),
        !headers.contains_key(auth_header(auth, config)) ==> (step matches HookStep::Respond(Err(e))
            && e.code() == 401),
{
}

/// A request is served only if the value that it shows is the secret's. One that shows another value
/// is answered with 403, and one whose secret can't be had with 500.
pub proof fn law_secret_is_needed(
    trigger: WebhookTrigger,
    sources: TriggerTaskSources,
    folder: String,
    shown: Seq<u8>,
    secret: Option<Seq<char>>,
    step: HookStep,
)
    requires
        is_secret_step(step, trigger, sources, folder, shown, secret),
    ensures
        step is Schedule ==> (secret matches Some(value) && shown == encode_utf8(value)),
        (secret matches Some(value) && shown != encode_utf8(value)) ==> (step matches HookStep::Respond(
            Err(e),
        ) && e.code() == 403),
        secret is None ==> (step matches HookStep::Respond(Err(e)) && e.code() == 500),
{
}

/// A request that is refused for its sources schedules nothing, whether it had to show a secret or
/// not: all sources of a trigger that doesn't allow it are answered with 400, a source that the
/// trigger doesn't have with 404.
pub proof fn law_refused_sources_run_nothing(
    trigger: WebhookTrigger,
    sources: TriggerTaskSources,
    folder: String,
    step: HookStep,
)
    requires
        is_granted_step(step, trigger, sources, folder),
    ensures
        step is Schedule == sources_refused(trigger, sources) is None,
        sources is All && !trigger.spec.webhook.multi_source ==> (step matches HookStep::Respond(Err(e))
            && e.code() == 400),
        sources is Single && !has_string(trigger.spec.sources.names@, sources->Single_0@) ==> (step
            matches HookStep::Respond(Err(e)) && e.code() == 404),
{
}

/// A trigger that asks for no secret is run on every request for sources that it allows.
pub proof fn law_open_trigger_runs(
    namespace: Seq<char>,
    trigger: &WebhookTrigger,
    sources: TriggerTaskSources,
    headers: Map<Seq<char>, Seq<u8>>,
    config: RuntimeConfig,
    folder: String,
    step: HookStep,
)
    requires
        trigger.spec.webhook.auth_config is None,
        sources_refused(*trigger, sources) is None,
        is_hook_step(step, namespace, Ok(trigger), sources, headers, config, folder),
    ensures
        step is Schedule,
        is_hook_task(step->Schedule_0, *trigger, sources, folder),
{
}

/// A webhook looks up no secrets but those of the namespace that it was called in.
pub proof fn law_webhook_secrets_stay_home(
    namespace: Seq<char>,
    trigger: &WebhookTrigger,
    sources: TriggerTaskSources,
    headers: Map<Seq<char>, Seq<u8>>,
    config: RuntimeConfig,
    folder: String,
    step: HookStep,
    lookup: SecretLookup,
    shown: Vec<u8>,
)
    requires
        is_hook_step(step, namespace, Ok(trigger), sources, headers, config, folder),
        step == HookStep::CompareSecret(lookup, shown),
    ensures
        lookup.namespace@ == namespace,
{
}

} // verus!
