//! Requests to webhooks, their limits and probes.
use axum::http::{HeaderMap, HeaderValue};
use git_events_runner::config::RuntimeConfig;
use git_events_runner::resources::trigger::{
    SecretRef, TaskSchedule, TriggerAction, TriggerActionKind, TriggerSources, TriggerTaskSources,
    TriggerWebhook, TriggerWebhookAuthConfig, WebhookTrigger, WebhookTriggerSpec,
};
use git_events_runner::resources::ObjectMeta;
use git_events_runner::time::Duration;
use git_events_runner::web::hooks::{
    check_hook_authorization, compare_secret, handle_post_source_webhook, handle_post_trigger_webhook,
    handle_ready, handle_scheduled, handle_secret, AuthStep, HookStep,
};
use git_events_runner::web::rate_limit::{is_limit_in_range, replenish_period};
use git_events_runner::web::response::{into_response, status_code};
use git_events_runner::web::{
    GovernorError, RateLimiterKey, RequestRateLimitsConfig, RequestsRateLimitParams, RequestsRateLimiter,
    WebError, WebResponseJson, WebResponseStatus,
};
use git_events_runner::{Error, KubeError};

const NAMESPACE: &str = "web-webhook-triggers";
const SECRET_NAME: &str = "webhook-triggers-auth-secret";
const SECRET_TOKEN: &str = "0123456789";

fn trigger(name: &str, sources: Vec<String>, multi_source: bool, auth: Option<TriggerWebhookAuthConfig>) -> WebhookTrigger {
    let mut trigger_sources = TriggerSources::default();
    trigger_sources.names = sources;
    WebhookTrigger {
        metadata: ObjectMeta::named(name, Some(NAMESPACE.to_string())),
        spec: WebhookTriggerSpec {
            sources: trigger_sources,
            webhook: TriggerWebhook {
                multi_source,
                auth_config: auth,
            },
            action: TriggerAction {
                kind: TriggerActionKind::default(),
                name: String::new(),
            },
        },
        status: None,
    }
}

fn auth(header: Option<&str>) -> TriggerWebhookAuthConfig {
    TriggerWebhookAuthConfig {
        secret_ref: SecretRef {
            name: SECRET_NAME.to_string(),
        },
        key: "token".to_string(),
        header: header.map(String::from),
    }
}

fn folder() -> String {
    "/tmp/test_git_events_runner_context".to_string()
}

fn not_found() -> Error {
    Error::ResourceNotFoundError("nonexistent-namespace/nonexistent-trigger-name".to_string())
}

fn response_error(step: HookStep) -> WebError {
    match step {
        HookStep::Respond(Err(e)) => e,
        other => panic!("unexpected step {other:?}"),
    }
}

#[test]
fn readiness_responses_ready() {
    let (code, msg) = handle_ready(true);
    assert_eq!(code, 200);
    assert_eq!(msg, "Ready");
}

#[test]
fn readiness_responses_not_ready() {
    let (code, msg) = handle_ready(false);
    assert_eq!(code, 500);
    assert_eq!(msg, "Not ready");
}

#[test]
fn nonexistent_post_trigger_webhook() {
    let step = handle_post_trigger_webhook(
        "nonexistent-namespace",
        Err(not_found()),
        &HeaderMap::new(),
        &RuntimeConfig::default(),
        folder(),
    );
    assert_eq!(response_error(step), WebError::TriggerNotFound);
}

#[test]
fn nonexistent_post_source_webhook() {
    let step = handle_post_source_webhook(
        "nonexistent-namespace",
        Err(not_found()),
        "nonexistent-source-name".to_string(),
        &HeaderMap::new(),
        &RuntimeConfig::default(),
        folder(),
    );
    assert_eq!(response_error(step), WebError::TriggerNotFound);
}

// The answer to a request whose task was scheduled.
fn assert_scheduled() {
    match handle_scheduled(Ok("task-1".to_string())) {
        HookStep::Respond(Ok(res)) => {
            assert_eq!(res.status, WebResponseStatus::Success);
            assert_eq!(res.message, "job has been scheduled");
            assert_eq!(res.task_id, Some("task-1".to_string()));
        }
        other => panic!("unexpected step {other:?}"),
    }
}

#[test]
fn good_multi_source_trigger_webhook_all_sources() {
    let t = trigger("multi-source-trigger-all-sources", vec!["source-name".to_string()], true, None);
    let step = handle_post_trigger_webhook(NAMESPACE, Ok(&t), &HeaderMap::new(), &RuntimeConfig::default(), folder());
    match step {
        HookStep::Schedule(task) => {
            assert!(matches!(task.schedule, TaskSchedule::Once));
            assert!(matches!(task.task_sources, TriggerTaskSources::All));
            assert_eq!(task.namespace, NAMESPACE);
            assert_eq!(task.name, "multi-source-trigger-all-sources");
            assert_eq!(task.kind, "WebhookTrigger");
            assert_eq!(task.source_clone_folder, folder());
        }
        other => panic!("unexpected step {other:?}"),
    }
    assert_scheduled();
}

#[test]
fn good_single_source_trigger_webhook_with_all_sources_request() {
    let t = trigger(
        "single-source-trigger-all-sources-request",
        vec!["source-name".to_string()],
        false,
        None,
    );
    let step = handle_post_trigger_webhook(NAMESPACE, Ok(&t), &HeaderMap::new(), &RuntimeConfig::default(), folder());
    assert_eq!(response_error(step), WebError::ForbiddenMultiSource);
}

#[test]
fn good_multi_source_trigger_webhook_single_source() {
    let t = trigger("multi-source-trigger-single-source", vec!["source-name".to_string()], true, None);
    let step = handle_post_source_webhook(
        NAMESPACE,
        Ok(&t),
        "source-name".to_string(),
        &HeaderMap::new(),
        &RuntimeConfig::default(),
        folder(),
    );
    match step {
        HookStep::Schedule(task) => match task.task_sources {
            TriggerTaskSources::Single(source) => assert_eq!(source, "source-name"),
            other => panic!("unexpected sources {other:?}"),
        },
        other => panic!("unexpected step {other:?}"),
    }
    assert_scheduled();
}

#[test]
fn good_multi_source_trigger_webhook_wrong_single_source() {
    let t = trigger("multi-source-trigger-wrong-single-source", vec!["source-name".to_string()], true, None);
    let step = handle_post_source_webhook(
        NAMESPACE,
        Ok(&t),
        "wrong-source-name".to_string(),
        &HeaderMap::new(),
        &RuntimeConfig::default(),
        folder(),
    );
    assert_eq!(response_error(step), WebError::SourceNotFound);
}

#[test]
fn good_multi_source_trigger_webhook_with_good_auth() {
    let t = trigger(
        "multi-source-trigger-with-good-auth",
        vec!["source-name".to_string()],
        true,
        Some(auth(Some("x-auth-token"))),
    );
    let mut headers = HeaderMap::new();
    headers.append("x-auth-token", HeaderValue::from_static(SECRET_TOKEN));

    let step = handle_post_trigger_webhook(NAMESPACE, Ok(&t), &headers, &RuntimeConfig::default(), folder());
    let shown = match step {
        HookStep::CompareSecret(lookup, shown) => {
            assert_eq!(lookup.namespace, NAMESPACE);
            assert_eq!(lookup.name, SECRET_NAME);
            assert_eq!(lookup.key, "token");
            shown
        }
        other => panic!("unexpected step {other:?}"),
    };
    assert_eq!(shown, SECRET_TOKEN.as_bytes());
    let step = handle_secret(&t, TriggerTaskSources::All, folder(), &shown, Ok(SECRET_TOKEN.to_string()));
    assert!(matches!(step, HookStep::Schedule(_)));
    assert_scheduled();
}

#[test]
fn good_multi_source_trigger_webhook_with_wrong_auth() {
    let t = trigger(
        "multi-source-trigger-with-wrong-auth",
        vec!["source-name".to_string()],
        true,
        Some(auth(Some("x-auth-token"))),
    );

    let mut headers = HeaderMap::new();
    headers.append("xxx-auth-token", HeaderValue::from_static(SECRET_TOKEN));
    let step = handle_post_trigger_webhook(NAMESPACE, Ok(&t), &headers, &RuntimeConfig::default(), folder());
    assert_eq!(response_error(step), WebError::Unauthorized);

    let mut headers = HeaderMap::new();
    headers.append("x-auth-token", HeaderValue::from_static("something definitely wrong"));
    let step = handle_post_trigger_webhook(NAMESPACE, Ok(&t), &headers, &RuntimeConfig::default(), folder());
    let shown = match step {
        HookStep::CompareSecret(_, shown) => shown,
        other => panic!("unexpected step {other:?}"),
    };
    let step = handle_secret(&t, TriggerTaskSources::All, folder(), &shown, Ok(SECRET_TOKEN.to_string()));
    assert_eq!(response_error(step), WebError::Forbidden);
}

#[test]
fn secret_that_cannot_be_had_refuses() {
    let t = trigger("t", vec!["s".to_string()], true, Some(auth(None)));
    let step = handle_secret(&t, TriggerTaskSources::All, folder(), &vec![1, 2], Err(not_found()));
    assert_eq!(response_error(step), WebError::AuthorizationError);
    assert_eq!(compare_secret(&vec![104, 105], Ok("hi".to_string())), Ok(()));
    assert_eq!(compare_secret(&vec![104], Ok("hi".to_string())), Err(WebError::Forbidden));
}

#[test]
fn default_header_is_used_where_none_is_named() {
    let config = RuntimeConfig::default();
    let mut headers = HeaderMap::new();
    headers.append("X-Trigger-Auth", HeaderValue::from_static("first"));
    headers.append("x-trigger-auth", HeaderValue::from_static("second"));
    match check_hook_authorization(&headers, &Some(auth(None)), "ns", &config) {
        AuthStep::CompareSecret(lookup, shown) => {
            assert_eq!(lookup.namespace, "ns");
            assert_eq!(shown, b"first".to_vec());
        }
        other => panic!("unexpected step {other:?}"),
    }
    match check_hook_authorization(&headers, &Some(auth(Some("no such header"))), "ns", &config) {
        AuthStep::Refused(e) => assert_eq!(e, WebError::Unauthorized),
        other => panic!("unexpected step {other:?}"),
    }
    assert!(matches!(
        check_hook_authorization(&headers, &None, "ns", &config),
        AuthStep::Granted
    ));
}

#[test]
fn answers_have_codes_and_messages() {
    let cases = [
        (WebError::ForbiddenMultiSource, 400, "multi-source hook isn't allowed"),
        (WebError::TriggerNotFound, 404, "trigger doesn't exist"),
        (WebError::SourceNotFound, 404, "source doesn't exist in the trigger"),
        (WebError::Unauthorized, 401, "authorization is required"),
        (WebError::Forbidden, 403, "forbidden"),
        (WebError::AuthorizationError, 500, "unable to complete authorization"),
        (WebError::KubeError { msg: "a".to_string() }, 500, "KubeError: a"),
        (WebError::SchedulerError { msg: "b".to_string() }, 500, "TaskScheduler: b"),
        (WebError::UnknownError { msg: "c".to_string() }, 500, "Unknown: c"),
    ];
    for (error, code, message) in cases {
        let result: Result<WebResponseJson, WebError> = Err(error);
        assert_eq!(status_code(&result), code);
        let (status, body) = into_response(result);
        assert_eq!(status, code);
        assert_eq!(body.status, WebResponseStatus::Error);
        assert_eq!(body.status.to_str(), "error");
        assert_eq!(body.message, message);
        assert_eq!(body.task_id, None);
    }
    let (status, body) = into_response(Ok(WebResponseJson::from("done".to_string())));
    assert_eq!(status, 202);
    assert_eq!(body.status.to_str(), "ok");
    assert_eq!(body.message, "done");
}

#[test]
fn errors_become_answers() {
    let api = |code: u16| KubeError::Api {
        code,
        response: "response".to_string(),
        text: "text".to_string(),
    };
    assert_eq!(WebError::from_kube(api(404)), WebError::TriggerNotFound);
    assert_eq!(
        WebError::from_error(Error::KubeError(api(500))),
        WebError::KubeError {
            msg: "response".to_string()
        }
    );
    assert_eq!(
        WebError::from_kube(KubeError::Other {
            text: "text".to_string()
        }),
        WebError::KubeError {
            msg: "text".to_string()
        }
    );
    assert_eq!(WebError::from_error(not_found()), WebError::TriggerNotFound);
    assert_eq!(
        WebError::from_error(Error::RuntimeConfigFormatError),
        WebError::UnknownError {
            msg: "RuntimeConfig ConfigMap format Error".to_string()
        }
    );
    match handle_scheduled(Err("full".to_string())) {
        HookStep::Respond(Err(e)) => assert_eq!(e, WebError::SchedulerError { msg: "full".to_string() }),
        other => panic!("unexpected step {other:?}"),
    }
}

#[test]
fn requests_rate_limit_valid() {
    assert_eq!(
        RequestsRateLimitParams::try_from("1/1").unwrap(),
        RequestsRateLimitParams {
            burst: 1,
            period: Duration::from_secs(1)
        }
    );

    assert_eq!(
        RequestsRateLimitParams::try_from("1/10").unwrap(),
        RequestsRateLimitParams {
            burst: 1,
            period: Duration::from_secs(10)
        }
    );

    assert_eq!(
        RequestsRateLimitParams::try_from("5/1").unwrap(),
        RequestsRateLimitParams {
            burst: 5,
            period: Duration::from_millis(200)
        }
    );
}

#[test]
fn requests_rate_limit_invalid() {
    let tests = ["", "/", "1", "1/", "/1", "1/0", "0/1", "0/0", "q", "q/w"];

    for t in tests {
        assert!(
            matches!(
                RequestsRateLimitParams::try_from(t),
                Err(Error::InvalidRequestRateLimit(_))
            ),
            "Unexpected result for string '{t}'"
        );
    }
}

#[test]
fn replenish_period_is_that_of_floating_point() {
    let bursts: [u32; 10] = [1, 2, 3, 7, 10, 999, 65_535, 1_000_003, 2_147_483_648, u32::MAX];
    let periods: [u64; 16] = [
        1,
        2,
        3,
        10,
        59,
        60,
        3_600,
        86_399,
        4_294_967_295,
        999_999_999_999,
        9_007_199_254_740_991,
        9_007_199_254_740_993,
        36_028_797_018_963_969,
        9_223_372_036_854_775_807,
        18_446_744_073_709_549_568,
        18_446_744_073_709_550_591,
    ];
    for burst in bursts {
        for period in periods {
            let expected = std::time::Duration::from_secs_f64(period as f64 / burst as f64);
            assert_eq!(replenish_period(period, burst), expected.as_nanos(), "{burst}/{period}");
            let text = format!("{burst}/{period}");
            assert!(is_limit_in_range(&text));
            let params = RequestsRateLimitParams::try_from(&text).unwrap();
            assert_eq!(params.period.secs, expected.as_secs());
            assert_eq!(params.period.nanos, expected.subsec_nanos());
        }
    }
}

#[test]
fn limits_that_are_too_long_are_told_apart() {
    assert!(!is_limit_in_range("1/18446744073709550592"));
    assert!(!is_limit_in_range("1/18446744073709551615"));
    assert!(is_limit_in_range("2/18446744073709551615"));
    assert!(is_limit_in_range("1/18446744073709551616"));
    assert!(is_limit_in_range("nonsense"));
}

#[test]
fn numbers_may_have_a_plus_sign() {
    let params = RequestsRateLimitParams::try_from("+2/+06").unwrap();
    assert_eq!(params.burst, 2);
    assert_eq!(params.period, Duration::from_secs(3));
    for text in ["-1/1", "1/ 1", "++1/1", "+/1", "4294967296/1", "1/1/1", "1/18446744073709551616"] {
        match RequestsRateLimitParams::try_from(text) {
            Err(Error::InvalidRequestRateLimit(value)) => assert_eq!(value, text),
            other => panic!("unexpected result {other:?}"),
        }
    }
}

#[test]
fn limits_are_layered_from_the_inside_out() {
    let limit = |burst: u32| RequestsRateLimitParams {
        burst,
        period: Duration::from_secs(1),
    };
    let all = RequestRateLimitsConfig {
        global: Some(limit(1)),
        trigger: Some(limit(2)),
        source: Some(limit(3)),
    };
    let layers = all.rrl_layers();
    assert_eq!(layers.len(), 3);
    assert_eq!(layers[0].limiter, RequestsRateLimiter::Global);
    assert_eq!(layers[0].params.burst, 1);
    assert_eq!(layers[1].limiter, RequestsRateLimiter::Trigger);
    assert_eq!(layers[2].limiter, RequestsRateLimiter::Source);
    assert_eq!(layers[2].params.burst, 3);
    let some = RequestRateLimitsConfig {
        global: None,
        trigger: Some(limit(2)),
        source: None,
    };
    assert_eq!(some.rrl_layers().len(), 1);
    assert_eq!(RequestsRateLimiter::Global.name(), "global");
    assert_eq!(RequestsRateLimiter::Trigger.name(), "trigger");
    assert_eq!(RequestsRateLimiter::Source.name(), "trigger source");
}

#[test]
fn rate_limit_key_to_string() {
    assert_eq!(RateLimiterKey::default().to_string(), "");
    assert_eq!(
        RateLimiterKey {
            ns: Some("test-ns".into()),
            ..Default::default()
        }
        .to_string(),
        "test-ns/"
    );
    assert_eq!(
        RateLimiterKey {
            ns: Some("test-ns".into()),
            trigger: Some("test-trigger".into()),
            ..Default::default()
        }
        .to_string(),
        "test-ns/test-trigger/"
    );
    assert_eq!(
        RateLimiterKey {
            ns: Some("test-ns".into()),
            trigger: Some("test-trigger".into()),
            strip_source: true,
            ..Default::default()
        }
        .to_string(),
        "test-ns/test-trigger/"
    );
    assert_eq!(
        RateLimiterKey {
            ns: Some("test-ns".into()),
            trigger: Some("test-trigger".into()),
            source: Some("test-source".into()),
            strip_source: false,
        }
        .to_string(),
        "test-ns/test-trigger/test-source"
    );
    assert_eq!(
        RateLimiterKey {
            ns: Some("test-ns".into()),
            trigger: Some("test-trigger".into()),
            source: Some("test-source".into()),
            strip_source: true,
        }
        .to_string(),
        "test-ns/test-trigger/"
    );
}

#[test]
fn ensure_default_rate_limiter_key_is_all_nones() {
    assert_eq!(
        RateLimiterKey::default(),
        RateLimiterKey {
            ns: None,
            trigger: None,
            source: None,
            strip_source: false
        }
    );
}

#[test]
fn rate_limiter_path_extractor_global() {
    let rrl = RequestsRateLimiter::Global;
    assert_eq!(rrl.extract_path_key("/").unwrap(), RateLimiterKey::default());
    assert_eq!(rrl.extract_path_key("").unwrap(), RateLimiterKey::default());
    assert_eq!(rrl.extract_path_key("/a").unwrap(), RateLimiterKey::default());
    assert_eq!(rrl.extract_path_key("/a/").unwrap(), RateLimiterKey::default());
    assert_eq!(rrl.extract_path_key("/a/b").unwrap(), RateLimiterKey::default());
    assert_eq!(rrl.extract_path_key("/a/b/").unwrap(), RateLimiterKey::default());
    assert_eq!(rrl.extract_path_key("/a/b/c").unwrap(), RateLimiterKey::default());
    assert_eq!(rrl.extract_path_key("/a/b/c/").unwrap(), RateLimiterKey::default());
    assert_eq!(rrl.key_name(&RateLimiterKey::default()), None);
}

#[test]
fn rate_limiter_path_extractor_trigger() {
    let rrl = RequestsRateLimiter::Trigger;
    assert!(matches!(
        rrl.extract_path_key(""),
        Err(GovernorError::UnableToExtractKey)
    ));
    assert!(matches!(
        rrl.extract_path_key("/"),
        Err(GovernorError::UnableToExtractKey)
    ));
    assert!(matches!(
        rrl.extract_path_key("//"),
        Err(GovernorError::UnableToExtractKey)
    ));
    assert!(matches!(
        rrl.extract_path_key("///"),
        Err(GovernorError::UnableToExtractKey)
    ));
    assert!(matches!(
        rrl.extract_path_key("////"),
        Err(GovernorError::UnableToExtractKey)
    ));
    assert!(matches!(
        rrl.extract_path_key("/a"),
        Err(GovernorError::UnableToExtractKey)
    ));
    assert!(matches!(
        rrl.extract_path_key("/a/"),
        Err(GovernorError::UnableToExtractKey)
    ));
    for path in ["/a/b", "/a/b", "/a/b/", "/a/b/c", "/a/b/c/"] {
        assert_eq!(
            rrl.extract_path_key(path).unwrap(),
            RateLimiterKey {
                ns: Some("a".into()),
                trigger: Some("b".into()),
                source: None,
                strip_source: false
            }
        );
    }
    let key = rrl.extract_path_key("/a/b").unwrap();
    assert_eq!(rrl.key_name(&key), Some("a/b/".to_string()));
}

#[test]
fn rate_limiter_path_extractor_source() {
    let rrl = RequestsRateLimiter::Source;
    assert!(matches!(
        rrl.extract_path_key(""),
        Err(GovernorError::UnableToExtractKey)
    ));
    assert!(matches!(
        rrl.extract_path_key("/"),
        Err(GovernorError::UnableToExtractKey)
    ));
    assert!(matches!(
        rrl.extract_path_key("//"),
        Err(GovernorError::UnableToExtractKey)
    ));
    assert!(matches!(
        rrl.extract_path_key("///"),
        Err(GovernorError::UnableToExtractKey)
    ));
    assert!(matches!(
        rrl.extract_path_key("////"),
        Err(GovernorError::UnableToExtractKey)
    ));
    assert!(matches!(
        rrl.extract_path_key("/a"),
        Err(GovernorError::UnableToExtractKey)
    ));
    assert!(matches!(
        rrl.extract_path_key("/a/"),
        Err(GovernorError::UnableToExtractKey)
    ));

    let key = rrl.extract_path_key("/a/b").unwrap();
    assert_eq!(key.ns, Some("a".into()));
    assert_eq!(key.trigger, Some("b".into()));
    assert!(key.source.is_some());
    assert!(key.strip_source);

    let key = rrl.extract_path_key("/a/b/").unwrap();
    assert_eq!(key.ns, Some("a".into()));
    assert_eq!(key.trigger, Some("b".into()));
    assert!(key.source.is_some());
    assert!(key.strip_source);

    for path in ["/a/b/c", "/a/b/c/", "/a/b/c//"] {
        assert_eq!(
            rrl.extract_path_key(path).unwrap(),
            RateLimiterKey {
                ns: Some("a".into()),
                trigger: Some("b".into()),
                source: Some("c".into()),
                strip_source: false
            }
        );
    }

    assert!(matches!(
        rrl.extract_path_key("/a//b/c"),
        Err(GovernorError::UnableToExtractKey)
    ));
}

#[test]
fn requests_without_a_source_share_no_key() {
    let rrl = RequestsRateLimiter::Source;
    let first = rrl.extract_path_key("/a/b").unwrap();
    let second = rrl.extract_path_key("/a/b").unwrap();
    assert_ne!(first, second);
    assert_eq!(first.source.unwrap().len(), 36);
    assert_eq!(
        rrl.path_key("/a/b", &"fallback".to_string()).unwrap(),
        RateLimiterKey {
            ns: Some("a".into()),
            trigger: Some("b".into()),
            source: Some("fallback".into()),
            strip_source: true
        }
    );
}
