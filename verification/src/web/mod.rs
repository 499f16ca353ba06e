//! Requests over HTTP: webhooks, probes and their limits.
pub mod hooks;
pub mod rate_limit;
pub mod response;

pub use hooks::{
    check_hook_authorization, handle_post_source_webhook, handle_post_trigger_webhook,
    handle_ready, AuthStep, HookStep, SecretLookup,
};
pub use rate_limit::{
    GovernorError, RateLimitLayer, RateLimiterKey, RequestRateLimitsConfig, RequestsRateLimitParams,
    RequestsRateLimiter,
};
pub use response::{WebError, WebResponseJson, WebResponseStatus};
