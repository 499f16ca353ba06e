//! Webhooks: who may run what, how requests are answered and how many may come.
use crate::config::RuntimeConfig;
use crate::error::{Error, KubeError};
use crate::resources::trigger::{TaskSchedule, TriggerTaskSources, TriggerWebhookAuthConfig, WebhookTrigger};
use crate::resources::trigger_task::TriggerTask;
use crate::text::{decimal_value, has_string, is_digit, split_on};
use crate::web::hooks::{
    authorization_step, check_hook_authorization, compare_secret, handle_post_source_webhook,
    handle_post_trigger_webhook, handle_ready, handle_scheduled, handle_secret, handle_webhook, header_values,
    AuthStep, HookStep, SecretLookup,
};
use crate::web::rate_limit::{
    replenish_nanos, GovernorError, RateLimitLayer, RateLimiterKey,
    RequestRateLimitsConfig, RequestsRateLimitParams, RequestsRateLimiter,
};
use crate::web::response::{
    into_response, status_code, WebError, WebResponseJson, WebResponseStatus,
};
use vstd::prelude::*;
use vstd::utf8::encode_utf8;

use super::basics::{best_name, error_text};

verus! {

/// Header in which the secret of a trigger is shown: the trigger's, or the configured one.
pub open spec fn secret_header(auth: TriggerWebhookAuthConfig, config: RuntimeConfig) -> Seq<char> {
    if auth.header is Some {
        auth.header->0@
    } else {
        config.trigger.webhook.default_auth_header@
    }
}

/// The lookup is for the secret of the trigger, in the namespace of the request.
pub open spec fn looks_up(lookup: SecretLookup, auth: TriggerWebhookAuthConfig, namespace: Seq<char>) -> bool {
    &&& lookup.namespace@ == namespace
    &&& lookup.name@ == auth.secret_ref.name@
    &&& lookup.key@ == auth.key@
}

/// A request is granted without more if and only if the trigger asks for no secret. Otherwise it has to
/// show a value in the header, which is compared with the trigger's secret.
pub proof fn law_secret_has_to_be_shown(
    headers: &axum::http::HeaderMap<axum::http::HeaderValue>,
    auth: &Option<TriggerWebhookAuthConfig>,
    namespace: &str,
    config: &RuntimeConfig,
    r: AuthStep,
)
    requires
        call_ensures(check_hook_authorization, (headers, auth, namespace, config), r),
    ensures
        r is Granted == auth is None,
        *auth matches Some(a) ==> (if header_values(*headers).contains_key(secret_header(a, *config)) {
            r matches AuthStep::CompareSecret(lookup, shown) && looks_up(lookup, a, namespace@) && shown@
                == header_values(*headers)[secret_header(a, *config)]
        } else {
            r == AuthStep::Refused(WebError::Unauthorized)
        }),
{
}

/// The same, from the value of the header.
pub proof fn law_shown_value_is_compared(
    auth: &Option<TriggerWebhookAuthConfig>,
    namespace: &str,
    shown: Option<Vec<u8>>,
    r: AuthStep,
)
    requires
        call_ensures(authorization_step, (auth, namespace, shown), r),
    ensures
        r is Granted == auth is None,
        auth is Some && shown is None ==> r == AuthStep::Refused(WebError::Unauthorized),
        auth is Some && shown is Some ==> (r matches AuthStep::CompareSecret(lookup, bytes) && looks_up(
            lookup,
            auth->0,
            namespace@,
        ) && bytes@ == shown->0@),
{
}

/// A value is accepted if and only if it is the secret's text.
pub proof fn law_only_the_secret_is_accepted(shown: &Vec<u8>, secret: Result<String, Error>, r: Result<(), WebError>)
    requires
        call_ensures(compare_secret, (shown, secret), r),
    ensures
        r is Ok == (secret is Ok && shown@ == encode_utf8(secret->Ok_0@)),
        secret is Ok && r is Err ==> r == Err::<(), WebError>(WebError::Forbidden),
        secret is Err ==> r == Err::<(), WebError>(WebError::AuthorizationError),
{
}

/// The trigger may be run on the sources by a webhook.
pub open spec fn may_run(trigger: WebhookTrigger, sources: TriggerTaskSources) -> bool {
    match sources {
        TriggerTaskSources::All => trigger.spec.webhook.multi_source,
        TriggerTaskSources::Single(source) => has_string(trigger.spec.sources.names@, source@),
    }
}

/// The task runs the trigger on the sources, once.
pub open spec fn runs_once(
    task: TriggerTask,
    trigger: WebhookTrigger,
    sources: TriggerTaskSources,
    folder: String,
) -> bool {
    &&& task.schedule == TaskSchedule::Once
    &&& Some(task.namespace) == trigger.metadata.namespace
    &&& task.name@ == best_name(trigger.metadata)
    &&& task.kind@ == "WebhookTrigger"@
    &&& task.task_sources == sources
    &&& task.source_clone_folder == folder
}

/// The trigger is run if it may be, and otherwise the answer says why it isn't.
pub open spec fn runs_or_refuses(
    step: HookStep,
    trigger: WebhookTrigger,
    sources: TriggerTaskSources,
    folder: String,
) -> bool {
    if may_run(trigger, sources) {
        step matches HookStep::Schedule(task) && runs_once(task, trigger, sources, folder)
    } else {
        match sources {
            TriggerTaskSources::All => step == HookStep::Respond(Err(WebError::ForbiddenMultiSource)),
            TriggerTaskSources::Single(_) => step == HookStep::Respond(Err(WebError::SourceNotFound)),
        }
    }
}

/// What a request to a trigger that was found leads to.
pub open spec fn is_answer(
    step: HookStep,
    namespace: Seq<char>,
    trigger: WebhookTrigger,
    sources: TriggerTaskSources,
    headers: Map<Seq<char>, Seq<u8>>,
    config: RuntimeConfig,
    folder: String,
) -> bool {
    match trigger.spec.webhook.auth_config {
        None => runs_or_refuses(step, trigger, sources, folder),
        Some(auth) => if headers.contains_key(secret_header(auth, config)) {
            step matches HookStep::CompareSecret(lookup, shown) && looks_up(lookup, auth, namespace) && shown@
                == headers[secret_header(auth, config)]
        } else {
            step == HookStep::Respond(Err(WebError::Unauthorized))
        },
    }
}

/// A request to an open trigger runs it if it may; one to a trigger with a secret runs nothing before the
/// secret is compared.
pub proof fn law_request_runs_what_it_may(
    namespace: &str,
    trigger: &WebhookTrigger,
    sources: TriggerTaskSources,
    headers: &axum::http::HeaderMap<axum::http::HeaderValue>,
    config: &RuntimeConfig,
    folder: String,
    r: HookStep,
)
    requires
        call_ensures(
            handle_webhook,
            (namespace, Ok::<&WebhookTrigger, Error>(trigger), sources, headers, config, folder),
            r,
        ),
    ensures
        is_answer(r, namespace@, *trigger, sources, header_values(*headers), *config, folder),
        trigger.spec.webhook.auth_config is Some ==> !(r is Schedule),
{
}

/// A request without a source is for all sources.
pub proof fn law_request_for_a_trigger_is_for_all_sources(
    namespace: &str,
    trigger: &WebhookTrigger,
    headers: &axum::http::HeaderMap<axum::http::HeaderValue>,
    config: &RuntimeConfig,
    folder: String,
    r: HookStep,
)
    requires
        call_ensures(
            handle_post_trigger_webhook,
            (namespace, Ok::<&WebhookTrigger, Error>(trigger), headers, config, folder),
            r,
        ),
    ensures
        is_answer(
            r,
            namespace@,
            *trigger,
            TriggerTaskSources::All,
            header_values(*headers),
            *config,
            folder,
        ),
{
}

/// A request with a source is for that source alone.
pub proof fn law_request_for_a_source_is_for_it_alone(
    namespace: &str,
    trigger: &WebhookTrigger,
    source: String,
    headers: &axum::http::HeaderMap<axum::http::HeaderValue>,
    config: &RuntimeConfig,
    folder: String,
    r: HookStep,
)
    requires
        call_ensures(
            handle_post_source_webhook,
            (namespace, Ok::<&WebhookTrigger, Error>(trigger), source, headers, config, folder),
            r,
        ),
    ensures
        is_answer(
            r,
            namespace@,
            *trigger,
            TriggerTaskSources::Single(source),
            header_values(*headers),
            *config,
            folder,
        ),
{
}

/// The reason why a trigger can't be had, as the answer to a request: a trigger that isn't known, or of
/// which the cluster says that it isn't there, isn't found.
pub open spec fn is_reason(error: Error, web: WebError) -> bool {
    match error {
        Error::ResourceNotFoundError(_) => web == WebError::TriggerNotFound,
        Error::KubeError(KubeError::Api { code, response, text }) => if code == 404 {
            web == WebError::TriggerNotFound
        } else {
            web matches WebError::KubeError { msg } && msg@ == response@
        },
        Error::KubeError(KubeError::Other { text }) => web matches WebError::KubeError { msg } && msg@ == text@,
        _ => web matches WebError::UnknownError { msg } && msg@ == error_text(error),
    }
}

/// A request to a trigger that can't be had is answered with the reason.
pub proof fn law_missing_trigger_is_not_found(
    namespace: &str,
    error: Error,
    sources: TriggerTaskSources,
    source: String,
    headers: &axum::http::HeaderMap<axum::http::HeaderValue>,
    config: &RuntimeConfig,
    folder: String,
    r: HookStep,
    all: HookStep,
    one: HookStep,
)
    requires
        call_ensures(
            handle_webhook,
            (namespace, Err::<&WebhookTrigger, Error>(error), sources, headers, config, folder),
            r,
        ),
        call_ensures(
            handle_post_trigger_webhook,
            (namespace, Err::<&WebhookTrigger, Error>(error), headers, config, folder),
            all,
        ),
        call_ensures(
            handle_post_source_webhook,
            (namespace, Err::<&WebhookTrigger, Error>(error), source, headers, config, folder),
            one,
        ),
    ensures
        r matches HookStep::Respond(Err(e)) && is_reason(error, e),
        all matches HookStep::Respond(Err(e)) && is_reason(error, e),
        one matches HookStep::Respond(Err(e)) && is_reason(error, e),
{
}

/// Once the secret is known, the trigger is run if the value is the secret's text and it may be run. A
/// wrong value is forbidden, and a secret that can't be had is an error.
pub proof fn law_right_secret_runs_the_trigger(
    trigger: &WebhookTrigger,
    sources: TriggerTaskSources,
    folder: String,
    shown: &Vec<u8>,
    secret: Result<String, Error>,
    r: HookStep,
)
    requires
        call_ensures(handle_secret, (trigger, sources, folder, shown, secret), r),
    ensures
        secret matches Ok(value) ==> shown@ == encode_utf8(value@) ==> runs_or_refuses(r, *trigger, sources, folder),
        secret matches Ok(value) ==> shown@ != encode_utf8(value@) ==> r == HookStep::Respond(
            Err(WebError::Forbidden),
        ),
        secret is Err ==> r == HookStep::Respond(Err(WebError::AuthorizationError)),
{
}

/// A task that was scheduled is told to the caller, and one that couldn't be is an error.
pub proof fn law_scheduled_task_is_told(scheduled: Result<String, String>, r: HookStep)
    requires
        call_ensures(handle_scheduled, (scheduled,), r),
    ensures
        scheduled matches Ok(id) ==> (r matches HookStep::Respond(Ok(response)) && response.status
            == WebResponseStatus::Success && response.message@ == "job has been scheduled"@ && response.task_id
            == Some(id)),
        scheduled matches Err(reason) ==> (r matches HookStep::Respond(Err(WebError::SchedulerError { msg })) && msg
            == reason),
{
}

/// The controller says whether it is ready.
pub proof fn law_readiness_is_told(ready: bool, r: (u16, &'static str))
    requires
        call_ensures(handle_ready, (ready,), r),
    ensures
        ready ==> r.0 == 200 && r.1@ == "Ready"@,
        !ready ==> r.0 == 500 && r.1@ == "Not ready"@,
{
}

/// Code of an answer.
pub open spec fn code_of(result: Result<WebResponseJson, WebError>) -> int {
    match result {
        Ok(_) => 202,
        Err(WebError::ForbiddenMultiSource) => 400,
        Err(WebError::Unauthorized) => 401,
        Err(WebError::Forbidden) => 403,
        Err(WebError::TriggerNotFound) => 404,
        Err(WebError::SourceNotFound) => 404,
        Err(_) => 500,
    }
}

/// Text of an error in an answer.
pub open spec fn text_of_error(error: WebError) -> Seq<char> {
    match error {
        WebError::ForbiddenMultiSource => "multi-source hook isn't allowed"@,
        WebError::TriggerNotFound => "trigger doesn't exist"@,
        WebError::SourceNotFound => "source doesn't exist in the trigger"@,
        WebError::Unauthorized => "authorization is required"@,
        WebError::Forbidden => "forbidden"@,
        WebError::AuthorizationError => "unable to complete authorization"@,
        WebError::KubeError { msg } => "KubeError: "@ + msg@,
        WebError::SchedulerError { msg } => "TaskScheduler: "@ + msg@,
        WebError::UnknownError { msg } => "Unknown: "@ + msg@,
    }
}

/// Requests are answered with the code of their result, and errors with their text.
pub proof fn law_requests_are_answered(
    result: Result<WebResponseJson, WebError>,
    code: u16,
    r: (u16, WebResponseJson),
)
    requires
        call_ensures(status_code, (&result,), code),
        call_ensures(into_response, (result,), r),
    ensures
        code == code_of(result),
        r.0 == code_of(result),
        result matches Ok(response) ==> r.1 == response,
        result matches Err(e) ==> r.1.status == WebResponseStatus::Error && r.1.message@ == text_of_error(e)
            && r.1.task_id is None,
{
}

/// Errors have their texts, and answers their names.
pub proof fn law_answers_have_texts(
    error: &WebError,
    text: String,
    status: &WebResponseStatus,
    name: &'static str,
    id: String,
    scheduled: WebResponseJson,
    message: String,
    plain: WebResponseJson,
)
    requires
        call_ensures(WebError::to_string, (error,), text),
        call_ensures(WebResponseStatus::to_str, (status,), name),
        call_ensures(WebResponseJson::from_task_id, (id,), scheduled),
        call_ensures(WebResponseJson::from, (message,), plain),
    ensures
        text@ == text_of_error(*error),
        *status == WebResponseStatus::Success ==> name@ == "ok"@,
        *status == WebResponseStatus::Error ==> name@ == "error"@,
        scheduled.status == WebResponseStatus::Success && scheduled.message@ == "job has been scheduled"@
            && scheduled.task_id == Some(id),
        plain.status == WebResponseStatus::Success && plain.message@ == message@ && plain.task_id is None,
{
}

/// Errors of the library and of the cluster become answers.
pub proof fn law_errors_become_answers(error: Error, r: WebError, kube: KubeError, of_kube: WebError)
    requires
        call_ensures(WebError::from_error, (error,), r),
        call_ensures(WebError::from_kube, (kube,), of_kube),
    ensures
        is_reason(error, r),
        is_reason(Error::KubeError(kube), of_kube),
{
}

/// Limits are laid one around the other: of all requests, then of each trigger, then of each source. One
/// that isn't given isn't laid.
pub proof fn law_limits_are_laid_in_order(limits: &RequestRateLimitsConfig, r: Vec<RateLimitLayer>)
    requires
        call_ensures(RequestRateLimitsConfig::rrl_layers, (limits,), r),
    ensures
        ({
            let g = if limits.global is Some {
                1int
            } else {
                0
            };
            let t = if limits.trigger is Some {
                1int
            } else {
                0
            };
            let s = if limits.source is Some {
                1int
            } else {
                0
            };
            &&& r@.len() == g + t + s
            &&& limits.global matches Some(params) ==> r@[0].limiter == RequestsRateLimiter::Global && r@[0].params
                == params
            &&& limits.trigger matches Some(params) ==> r@[g].limiter == RequestsRateLimiter::Trigger && r@[g].params
                == params
            &&& limits.source matches Some(params) ==> r@[g + t].limiter == RequestsRateLimiter::Source && r@[g
                + t].params == params
        }),
{
}

/// The path has a part, which isn't empty, at each of the positions from the first one on.
pub open spec fn has_parts(path: Seq<char>, count: int) -> bool {
    let parts = split_on(path, '/');
    parts.len() > count && forall|i: int| 1 <= i <= count ==> (#[trigger] parts[i]).len() > 0
}

/// All requests share one key; requests to a trigger share one by its namespace and name; requests to a
/// source share one by that and the source. Where a request names no source, another text stands for it
/// and doesn't show. A path that names no trigger has no key.
pub proof fn law_requests_share_keys(
    limiter: &RequestsRateLimiter,
    path: &str,
    other: &String,
    r: Result<RateLimiterKey, GovernorError>,
)
    requires
        call_ensures(RequestsRateLimiter::path_key, (limiter, path, other), r),
    ensures
        *limiter == RequestsRateLimiter::Global ==> (r matches Ok(key) && key.ns is None && key.trigger is None
            && key.source is None && !key.strip_source),
        *limiter != RequestsRateLimiter::Global ==> r is Ok == has_parts(path@, 2),
        *limiter != RequestsRateLimiter::Global && r is Ok ==> {
            let key = r->Ok_0;
            let parts = split_on(path@, '/');
            &&& key.ns matches Some(ns) && ns@ == parts[1]
            &&& key.trigger matches Some(trigger) && trigger@ == parts[2]
            &&& *limiter == RequestsRateLimiter::Trigger ==> key.source is None && !key.strip_source
            &&& *limiter == RequestsRateLimiter::Source && has_parts(path@, 3) ==> (key.source matches Some(source)
                && source@ == parts[3]) && !key.strip_source
            &&& *limiter == RequestsRateLimiter::Source && !has_parts(path@, 3) ==> (key.source matches Some(source)
                && source@ == other@) && key.strip_source
        },
{
    let parts = split_on(path@, '/');
    assert(has_parts(path@, 2) == (parts.len() >= 3 && parts[1].len() > 0 && parts[2].len() > 0)) by {
        if parts.len() >= 3 && parts[1].len() > 0 && parts[2].len() > 0 {
            assert forall|i: int| 1 <= i <= 2 implies (#[trigger] parts[i]).len() > 0 by {
                if i == 1 {
                } else {
                    assert(i == 2);
                }
            }
        }
    }
    assert(has_parts(path@, 3) == (parts.len() >= 4 && parts[1].len() > 0 && parts[2].len() > 0 && parts[3].len()
        > 0)) by {
        if parts.len() >= 4 && parts[1].len() > 0 && parts[2].len() > 0 && parts[3].len() > 0 {
            assert forall|i: int| 1 <= i <= 3 implies (#[trigger] parts[i]).len() > 0 by {
                if i == 1 {
                } else if i == 2 {
                } else {
                    assert(i == 3);
                }
            }
        }
    }
}

/// The text of a key is its namespace, its trigger and its source, with slashes between.
pub proof fn law_keys_are_written(
    limiter: &RequestsRateLimiter,
    key: &RateLimiterKey,
    text: String,
    r: Option<String>,
)
    requires
        call_ensures(RateLimiterKey::to_string, (key,), text),
        call_ensures(RequestsRateLimiter::key_name, (limiter, key), r),
        key.ns is Some,
        key.trigger is Some,
    ensures
        key.source is None || key.strip_source ==> text@ == key.ns->0@ + seq!['/'] + key.trigger->0@ + seq!['/'],
        key.source is Some && !key.strip_source ==> text@ == key.ns->0@ + seq!['/'] + key.trigger->0@ + seq!['/']
            + key.source->0@,
        *limiter == RequestsRateLimiter::Global ==> r is None,
        *limiter != RequestsRateLimiter::Global ==> (r matches Some(name) && name@ == text@),
{
    assert(key.ns->0@.push('/') =~= key.ns->0@ + seq!['/']);
    assert(key.trigger->0@.push('/') =~= key.trigger->0@ + seq!['/']);
    let both = key.ns->0@ + seq!['/'] + key.trigger->0@ + seq!['/'];
    assert(key.ns->0@.push('/') + key.trigger->0@.push('/') =~= both);
    assert(both + Seq::<char>::empty() =~= both);
}

/// Limits have names.
pub proof fn law_limits_have_names(limiter: &RequestsRateLimiter, r: &'static str)
    requires
        call_ensures(RequestsRateLimiter::name, (limiter,), r),
    ensures
        match *limiter {
            RequestsRateLimiter::Global => r@ == "global"@,
            RequestsRateLimiter::Trigger => r@ == "trigger"@,
            RequestsRateLimiter::Source => r@ == "trigger source"@,
        },
{
}

/// The text is an unsigned number, with or without a plus sign.
pub open spec fn writes_number(text: Seq<char>, value: int) -> bool {
    let digits = without_sign(text);
    &&& digits.len() > 0
    &&& are_digits(digits)
    &&& value == decimal_value(digits)
}

/// The text without a plus sign at its start.
pub open spec fn without_sign(text: Seq<char>) -> Seq<char> {
    if text.len() > 0 && text[0] == '+' {
        text.skip(1)
    } else {
        text
    }
}

/// All characters are decimal digits.
pub open spec fn are_digits(text: Seq<char>) -> bool {
    forall|i: int| 0 <= i < text.len() ==> is_digit(#[trigger] text[i])
}

/// A limit is a number of requests, a slash and a number of seconds, both positive. A request more may
/// come after the seconds divided by the requests, to the nearest nanosecond where they divide evenly.
pub proof fn law_limit_is_requests_per_seconds(value: &str, r: Result<RequestsRateLimitParams, Error>)
    requires
        call_ensures(RequestsRateLimitParams::try_from, (value,), r),
    ensures
        r matches Ok(params) ==> {
            let parts = split_on(value@, '/');
            &&& parts.len() == 2
            &&& writes_number(parts[0], params.burst as int)
            &&& params.burst > 0
            &&& exists|seconds: int|
                0 < seconds <= u64::MAX && #[trigger] writes_number(parts[1], seconds) && params.period.secs
                    * 1_000_000_000 + params.period.nanos == replenish_nanos(seconds, params.burst as int)
        },
        r matches Err(e) ==> (e matches Error::InvalidRequestRateLimit(text) && text@ == value@),
        (exists|burst: int, seconds: int|
            split_on(value@, '/').len() == 2 && 0 < burst <= u32::MAX && 0 < seconds <= u64::MAX
                && #[trigger] writes_number(split_on(value@, '/')[0], burst) && #[trigger] writes_number(
                split_on(value@, '/')[1],
                seconds,
            )) ==> r is Ok,
{
    let parts = split_on(value@, '/');
    if let Ok(params) = r {
        let limit = crate::web::rate_limit::parsed_limit(value@)->0;
        crate::text::lemma_parsed_unsigned_natural(parts[1], u64::MAX as int);
        crate::text::lemma_parsed_unsigned_natural(parts[0], u32::MAX as int);
        assert(writes_number(parts[1], limit.1));
    }
    if exists|burst: int, seconds: int|
        parts.len() == 2 && 0 < burst <= u32::MAX && 0 < seconds <= u64::MAX && #[trigger] writes_number(
            parts[0],
            burst,
        ) && #[trigger] writes_number(parts[1], seconds) {
        let (burst, seconds) = choose|burst: int, seconds: int|
            parts.len() == 2 && 0 < burst <= u32::MAX && 0 < seconds <= u64::MAX && #[trigger] writes_number(
                parts[0],
                burst,
            ) && #[trigger] writes_number(parts[1], seconds);
        assert(crate::text::parsed_unsigned(parts[0], u32::MAX as int) == Some(burst));
        assert(crate::text::parsed_unsigned(parts[1], u64::MAX as int) == Some(seconds));
    }
}

} // verus!
