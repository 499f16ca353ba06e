//! Limits of the rate of requests.
use crate::error::Error;
use crate::text::{
    copy_opt, lemma_parsed_unsigned_natural, opt_view, parse_unsigned, parsed_unsigned, split, split_on, views,
};
use crate::time::Duration;
use vstd::prelude::*;

verus! {

/// Limit of the rate of requests.
#[derive(Clone, Copy, Debug, PartialEq, Eq, Hash, Structural)]
pub struct RequestsRateLimitParams {
    /// Number of requests that may come at once.
    pub burst: u32,
    /// Time after which one more request may come.
    pub period: Duration,
}

/// Limits of the rate of requests to webhooks.
#[derive(Clone, Copy, Debug)]
pub struct RequestRateLimitsConfig {
    /// Limit for all requests together.
    pub global: Option<RequestsRateLimitParams>,
    /// Limit for each trigger.
    pub trigger: Option<RequestsRateLimitParams>,
    /// Limit for each source of a trigger.
    pub source: Option<RequestsRateLimitParams>,
}

/// Integer nearest to `n / d`. Of two that are as near, the even one.
pub open spec fn round_half_even(n: int, d: int) -> int {
    let q = n / d;
    let twice = 2 * (n % d);
    if twice < d || (twice == d && q % 2 == 0) {
        q
    } else {
        q + 1
    }
}

/// Number of double precision nearest to `n / d / scale`, as a fraction, for one whose mantissa has
/// binary digits behind the point. A mantissa has 53 binary digits.
pub open spec fn small_double(n: int, d: int, scale: int) -> (int, int)
    decreases 0x20_0000_0000_0000 * d - n,
    when n > 0
{
    if n < 0x10_0000_0000_0000 * d {
        small_double(2 * n, d, 2 * scale)
    } else {
        (round_half_even(n, d), scale)
    }
}

/// Number of double precision nearest to `n / d * scale`, for one whose mantissa has no binary digits
/// behind the point.
pub open spec fn large_double(n: int, d: int, scale: int) -> int
    decreases n - d,
    when d > 0
{
    if n >= 0x20_0000_0000_0000 * d {
        large_double(n, 2 * d, 2 * scale)
    } else {
        round_half_even(n, d) * scale
    }
}

/// Number of double precision nearest to `n / d`, as a fraction.
pub open spec fn nearest_double(n: int, d: int) -> (int, int) {
    if n < 0x10_0000_0000_0000 * d {
        small_double(n, d, 1)
    } else {
        (large_double(n, d, 1), 1)
    }
}

/// Integer as a number of double precision.
pub open spec fn integer_as_double(n: int) -> int {
    if n < 0x20_0000_0000_0000 {
        n
    } else {
        large_double(n, 1, 1)
    }
}

/// Nanoseconds after which one more request may come: the seconds divided by the number of requests,
/// in double precision, rounded to the nearest nanosecond.
pub open spec fn replenish_nanos(period: int, burst: int) -> int {
    let (n, d) = nearest_double(integer_as_double(period), burst);
    round_half_even(n * 1_000_000_000, d)
}

fn round_ratio(n: u128, d: u128) -> (r: u128)
    requires
        0 < d < 0x1000_0000_0000_0000_0000_0000_0000_0000,
        n < 0x1000_0000_0000_0000_0000_0000_0000_0000,
    ensures
        r == round_half_even(n as int, d as int),
{
    let q: u128 = n / d;
    let twice: u128 = 2 * (n % d);
    if twice < d || (twice == d && q % 2 == 0) {
        q
    } else {
        proof {
            assert(q <= n) by (nonlinear_arith)
                requires
                    q == n / d,
                    0 < d,
            ;
        }
        q + 1
    }
}

proof fn lemma_rounded(n: int, d: int)
    requires
        n >= 0,
        d > 0,
    ensures
        0 <= round_half_even(n, d) <= n / d + 1,
        n / d * d <= n,
{
    assert(n / d >= 0 && n / d * d <= n) by (nonlinear_arith)
        requires
            n >= 0,
            d > 0,
    ;
}

fn small_ratio(n: u128, d: u128) -> (r: (u128, u128))
    requires
        0 < n < 0x10_0000_0000_0000 * d,
        0 < d <= u32::MAX,
    ensures
        (r.0 as int, r.1 as int) == small_double(n as int, d as int, 1),
        r.0 <= 0x20_0000_0000_0000,
        0 < r.1 < 0x20_0000_0000_0000 * d,
{
    let mut m: u128 = n;
    let mut scale: u128 = 1;
    while m < 0x10_0000_0000_0000 * d
        invariant
            0 < d <= u32::MAX,
            0 < scale <= m,
            m < 0x20_0000_0000_0000 * d,
            small_double(m as int, d as int, scale as int) == small_double(n as int, d as int, 1),
        decreases 0x20_0000_0000_0000 * d - m,
    {
        m = 2 * m;
        scale = 2 * scale;
    }
    proof {
        lemma_rounded(m as int, d as int);
        assert(m as int / d as int <= 0x20_0000_0000_0000 - 1) by (nonlinear_arith)
            requires
                m < 0x20_0000_0000_0000 * d,
                0 < d,
        ;
    }
    (round_ratio(m, d), scale)
}

fn large_ratio(n: u128, d: u128) -> (r: u128)
    requires
        d <= n <= 0x2_0000_0000_0000_0000,
        0 < d <= u32::MAX,
    ensures
        r == large_double(n as int, d as int, 1),
        0 < r <= n + 0x1_0000_0000,
{
    let mut e: u128 = d;
    let mut scale: u128 = 1;
    while n >= 0x20_0000_0000_0000 * e
        invariant
            n <= 0x2_0000_0000_0000_0000,
            0 < scale <= e <= n,
            e <= u32::MAX,
            large_double(n as int, e as int, scale as int) == large_double(n as int, d as int, 1),
        decreases n - e,
    {
        e = 2 * e;
        scale = 2 * scale;
    }
    let rounded: u128 = round_ratio(n, e);
    proof {
        lemma_rounded(n as int, e as int);
        assert(n as int / e as int >= 1) by (nonlinear_arith)
            requires
                n >= e,
                e > 0,
        ;
        assert(0 < rounded * scale <= n + e) by (nonlinear_arith)
            requires
                1 <= rounded <= n as int / e as int + 1,
                (n as int / e as int) * e as int <= n,
                0 < scale <= e,
        ;
    }
    rounded * scale
}

/// Calculates the time after which one more request may come, in nanoseconds.
pub fn replenish_period(period: u64, burst: u32) -> (r: u128)
    requires
        period > 0,
        burst > 0,
    ensures
        r == replenish_nanos(period as int, burst as int),
{
    let seconds: u128 = if period < 0x20_0000_0000_0000 {
        period as u128
    } else {
        large_ratio(period as u128, 1)
    };
    let d: u128 = burst as u128;
    if seconds < 0x10_0000_0000_0000 * d {
        let (num, den) = small_ratio(seconds, d);
        round_ratio(num * 1_000_000_000, den)
    } else {
        let num: u128 = large_ratio(seconds, d);
        round_ratio(num * 1_000_000_000, 1)
    }
}

/// Longest time between requests, in nanoseconds, that isn't too long to be kept.
pub const MAX_NANOS: u128 = 18_446_744_073_709_551_615_999_999_999;

/// Number of requests and seconds that a limit is written with: two positive numbers with a slash
/// between.
pub open spec fn parsed_limit(value: Seq<char>) -> Option<(int, int)> {
    let parts = split_on(value, '/');
    if parts.len() != 2 {
        None
    } else {
        match (parsed_unsigned(parts[0], u32::MAX as int), parsed_unsigned(parts[1], u64::MAX as int)) {
            (Some(burst), Some(period)) => if burst == 0 || period == 0 {
                None
            } else {
                Some((burst, period))
            },
            _ => None,
        }
    }
}

/// The time between requests isn't too long to be kept.
pub open spec fn limit_in_range(value: Seq<char>) -> bool {
    parsed_limit(value) matches Some(limit) ==> replenish_nanos(limit.1, limit.0) <= MAX_NANOS
}

fn parse_limit(value: &str) -> (r: Option<(u32, u64)>)
    ensures
        match r {
            Some(limit) => parsed_limit(value@) == Some((limit.0 as int, limit.1 as int)) && limit.0 > 0
                && limit.1 > 0,
            None => parsed_limit(value@) is None,
        },
{
    let parts = split(value, '/');
    if parts.len() != 2 {
        return None;
    }
    assert(views(parts@)[0] == parts@[0]@ && views(parts@)[1] == parts@[1]@);
    let burst: u32 = match parse_unsigned(parts[0].as_str(), u32::MAX as u64) {
        Some(n) => n as u32,
        None => {
            return None;
        },
    };
    let period: u64 = match parse_unsigned(parts[1].as_str(), u64::MAX) {
        Some(n) => n,
        None => {
            return None;
        },
    };
    if burst == 0 || period == 0 {
        None
    } else {
        Some((burst, period))
    }
}

/// Tells whether the time between requests isn't too long to be kept.
pub fn is_limit_in_range(value: &str) -> (r: bool)
    ensures
        r == limit_in_range(value@),
{
    match parse_limit(value) {
        Some((burst, period)) => replenish_period(period, burst) <= MAX_NANOS,
        None => true,
    }
}

impl RequestsRateLimitParams {
    /// Reads a limit: a number of requests, a slash, and a number of seconds in which as many
    /// requests may come.
    pub fn try_from(value: &str) -> (r: Result<RequestsRateLimitParams, Error>)
        requires
            limit_in_range(value@),
        ensures
            match parsed_limit(value@) {
                Some(limit) => r matches Ok(params) && params.burst == limit.0 && params.period.wf()
                    && params.period@ == replenish_nanos(limit.1, limit.0),
                None => r matches Err(Error::InvalidRequestRateLimit(text)) && text@ == value@,
            },
    {
        match parse_limit(value) {
            Some((burst, period)) => {
                let nanos: u128 = replenish_period(period, burst);
                let second: u128 = 1_000_000_000;
                Ok(
                    RequestsRateLimitParams {
                        burst,
                        period: Duration {
                            secs: (nanos / second) as u64,
                            nanos: (nanos % second) as u32,
                        },
                    },
                )
            },
            None => Err(Error::InvalidRequestRateLimit(value.to_owned())),
        }
    }
}

/// What a limit of the rate of requests applies to.
#[derive(Clone, Copy, Debug, PartialEq, Eq, Structural)]
pub enum RequestsRateLimiter {
    /// All requests together.
    Global,
    /// Requests to the same trigger.
    Trigger,
    /// Requests to the same source of a trigger.
    Source,
}

/// Limit and what it applies to.
#[derive(Clone, Copy, Debug, PartialEq, Eq, Structural)]
pub struct RateLimitLayer {
    /// What the limit applies to.
    pub limiter: RequestsRateLimiter,
    /// The limit.
    pub params: RequestsRateLimitParams,
}

/// The limit as a layer, if there is one.
pub open spec fn layer_of(limiter: RequestsRateLimiter, params: Option<RequestsRateLimitParams>) -> Seq<
    RateLimitLayer,
> {
    match params {
        Some(p) => seq![RateLimitLayer { limiter, params: p }],
        None => seq![],
    }
}

impl RequestRateLimitsConfig {
    /// Layers of limits, from the inside out: a request passes the last one first.
    pub fn rrl_layers(&self) -> (r: Vec<RateLimitLayer>)
        ensures
            r@ == layer_of(RequestsRateLimiter::Global, self.global) + layer_of(
                RequestsRateLimiter::Trigger,
                self.trigger,
            ) + layer_of(RequestsRateLimiter::Source, self.source),
    {
        let mut layers: Vec<RateLimitLayer> = Vec::new();
        if let Some(params) = self.global {
            layers.push(RateLimitLayer { limiter: RequestsRateLimiter::Global, params });
        }
        if let Some(params) = self.trigger {
            layers.push(RateLimitLayer { limiter: RequestsRateLimiter::Trigger, params });
        }
        if let Some(params) = self.source {
            layers.push(RateLimitLayer { limiter: RequestsRateLimiter::Source, params });
        }
        assert(layers@ =~= layer_of(RequestsRateLimiter::Global, self.global) + layer_of(
            RequestsRateLimiter::Trigger,
            self.trigger,
        ) + layer_of(RequestsRateLimiter::Source, self.source));
        layers
    }
}

/// Requests with the same key share a limit.
#[derive(Debug, PartialEq, Eq, Hash)]
pub struct RateLimiterKey {
    /// Namespace of the trigger.
    pub ns: Option<String>,
    /// Name of the trigger.
    pub trigger: Option<String>,
    /// Name of the source.
    pub source: Option<String>,
    /// The source isn't part of the request.
    pub strip_source: bool,
}

impl Clone for RateLimiterKey {
    fn clone(&self) -> (r: Self)
        ensures
            r == *self,
    {
        RateLimiterKey {
            ns: copy_opt(&self.ns),
            trigger: copy_opt(&self.trigger),
            source: copy_opt(&self.source),
            strip_source: self.strip_source,
        }
    }
}

impl Default for RateLimiterKey {
    fn default() -> (r: Self)
        ensures
            r.ns is None,
            r.trigger is None,
            r.source is None,
            !r.strip_source,
    {
        RateLimiterKey { ns: None, trigger: None, source: None, strip_source: false }
    }
}

/// Text behind which a slash stands, if there is one.
pub open spec fn with_slash(text: Option<String>) -> Seq<char> {
    match text {
        Some(t) => t@.push('/'),
        None => seq![],
    }
}

impl RateLimiterKey {
    /// Text of the key: namespace and trigger, each with a slash behind it, and the source unless it
    /// isn't part of the request.
    pub open spec fn text(self) -> Seq<char> {
        with_slash(self.ns) + with_slash(self.trigger) + match self.source {
            Some(source) => if self.strip_source {
                seq![]
            } else {
                source@
            },
            None => seq![],
        }
    }

    /// Writes the key.
    pub fn to_string(&self) -> (r: String)
        ensures
            r@ == self.text(),
    {
        let mut key = String::new();
        if let Some(ns) = &self.ns {
            key.append(ns.as_str());
            key.push('/');
        }
        assert(key@ =~= with_slash(self.ns));
        if let Some(trigger) = &self.trigger {
            key.append(trigger.as_str());
            key.push('/');
        }
        assert(key@ =~= with_slash(self.ns) + with_slash(self.trigger));
        if !self.strip_source {
            if let Some(source) = &self.source {
                key.append(source.as_str());
            }
        }
        assert(key@ =~= self.text());
        key
    }
}

/// Reason why a request has no key.
#[derive(Clone, Copy, Debug, PartialEq, Eq, Structural)]
pub enum GovernorError {
    /// The path doesn't name what the limit applies to.
    UnableToExtractKey,
}

/// The path names a trigger: it has a namespace and a name behind its first slash.
pub open spec fn names_trigger(parts: Seq<Seq<char>>) -> bool {
    parts.len() >= 3 && parts[1].len() > 0 && parts[2].len() > 0
}

/// The path names a source of a trigger.
pub open spec fn names_source(parts: Seq<Seq<char>>) -> bool {
    names_trigger(parts) && parts.len() >= 4 && parts[3].len() > 0
}

/// The result is the key of a path. `fallback` stands for the source where the path names none.
pub open spec fn is_path_key(
    limiter: RequestsRateLimiter,
    path: Seq<char>,
    fallback: Seq<char>,
    r: Result<RateLimiterKey, GovernorError>,
) -> bool {
    let parts = split_on(path, '/');
    match limiter {
        RequestsRateLimiter::Global => r matches Ok(key) && key.ns is None && key.trigger is None
            && key.source is None && !key.strip_source,
        RequestsRateLimiter::Trigger => if names_trigger(parts) {
            r matches Ok(key) && opt_view(key.ns) == Some(parts[1]) && opt_view(key.trigger) == Some(
                parts[2],
            ) && key.source is None && !key.strip_source
        } else {
            r == Err::<RateLimiterKey, GovernorError>(GovernorError::UnableToExtractKey)
        },
        RequestsRateLimiter::Source => if names_source(parts) {
            r matches Ok(key) && opt_view(key.ns) == Some(parts[1]) && opt_view(key.trigger) == Some(
                parts[2],
            ) && opt_view(key.source) == Some(parts[3]) && !key.strip_source
        } else if names_trigger(parts) {
            r matches Ok(key) && opt_view(key.ns) == Some(parts[1]) && opt_view(key.trigger) == Some(
                parts[2],
            ) && opt_view(key.source) == Some(fallback) && key.strip_source
        } else {
            r == Err::<RateLimiterKey, GovernorError>(GovernorError::UnableToExtractKey)
        },
    }
}

/// Makes a random identifier with `uuid`: `Uuid::new_v4`, written as `String::from` writes it, which
/// takes 36 characters. Which one is left to chance.
#[verifier::external_body]
fn random_uuid() -> (r: String)
    ensures
        r@.len() == 36,
{
    String::from(uuid::Uuid::new_v4())
}

impl RequestsRateLimiter {
    /// Names the limit.
    pub fn name(&self) -> (r: &'static str)
        ensures
            r@ == match *self {
                RequestsRateLimiter::Global => "global"@,
                RequestsRateLimiter::Trigger => "trigger"@,
                RequestsRateLimiter::Source => "trigger source"@,
            },
    {
        match self {
            RequestsRateLimiter::Global => "global",
            RequestsRateLimiter::Trigger => "trigger",
            RequestsRateLimiter::Source => "trigger source",
        }
    }

    /// Names a key, unless all requests share one.
    pub fn key_name(&self, key: &RateLimiterKey) -> (r: Option<String>)
        ensures
            match *self {
                RequestsRateLimiter::Global => r is None,
                _ => opt_view(r) == Some(key.text()),
            },
    {
        match self {
            RequestsRateLimiter::Global => None,
            RequestsRateLimiter::Trigger | RequestsRateLimiter::Source => Some(key.to_string()),
        }
    }

    /// Key of a request by its path. `fallback` stands for the source where the path names none.
    pub fn path_key(&self, path: &str, fallback: &String) -> (r: Result<RateLimiterKey, GovernorError>)
        ensures
            is_path_key(*self, path@, fallback@, r),
    {
        match self {
            RequestsRateLimiter::Global => Ok(RateLimiterKey::default()),
            RequestsRateLimiter::Trigger => {
                let parts = split(path, '/');
                assert(forall|i: int| 0 <= i < parts.len() ==> views(parts@)[i] == #[trigger] parts@[i]@);
                if parts.len() < 3 || parts[1].as_str().is_empty() || parts[2].as_str().is_empty() {
                    return Err(GovernorError::UnableToExtractKey);
                }
                Ok(
                    RateLimiterKey {
                        ns: Some(parts[1].clone()),
                        trigger: Some(parts[2].clone()),
                        source: None,
                        strip_source: false,
                    },
                )
            },
            RequestsRateLimiter::Source => {
                let parts = split(path, '/');
                assert(forall|i: int| 0 <= i < parts.len() ==> views(parts@)[i] == #[trigger] parts@[i]@);
                if parts.len() >= 4 && !(parts[1].as_str().is_empty() || parts[2].as_str().is_empty()
                    || parts[3].as_str().is_empty()) {
                    Ok(
                        RateLimiterKey {
                            ns: Some(parts[1].clone()),
                            trigger: Some(parts[2].clone()),
                            source: Some(parts[3].clone()),
                            strip_source: false,
                        },
                    )
                } else {
                    if parts.len() < 3 || parts[1].as_str().is_empty() || parts[2].as_str().is_empty() {
                        return Err(GovernorError::UnableToExtractKey);
                    }
                    Ok(
                        RateLimiterKey {
                            ns: Some(parts[1].clone()),
                            trigger: Some(parts[2].clone()),
                            source: Some(fallback.clone()),
                            strip_source: true,
                        },
                    )
                }
            },
        }
    }

    /// Key of a request by its path. Where the path names no source, a random identifier stands for
    /// it, so that such requests share no limit.
    pub fn extract_path_key(&self, path: &str) -> (r: Result<RateLimiterKey, GovernorError>)
        ensures
            exists|fallback: Seq<char>|
                fallback.len() == 36 && #[trigger] is_path_key(*self, path@, fallback, r),
    {
        let fallback = random_uuid();
        self.path_key(path, &fallback)
    }
}

/// A key by source is at least as fine as one by trigger: requests with the same source share the
/// trigger's key too.
pub proof fn law_source_key_refines_trigger_key(
    path1: Seq<char>,
    path2: Seq<char>,
    fallback1: Seq<char>,
    fallback2: Seq<char>,
    source1: Result<RateLimiterKey, GovernorError>,
    source2: Result<RateLimiterKey, GovernorError>,
    trigger1: Result<RateLimiterKey, GovernorError>,
    trigger2: Result<RateLimiterKey, GovernorError>,
)
    requires
        is_path_key(RequestsRateLimiter::Source, path1, fallback1, source1),
        is_path_key(RequestsRateLimiter::Source, path2, fallback2, source2),
        is_path_key(RequestsRateLimiter::Trigger, path1, fallback1, trigger1),
        is_path_key(RequestsRateLimiter::Trigger, path2, fallback2, trigger2),
        source1 is Ok,
        source2 is Ok,
        opt_view(source1->Ok_0.ns) == opt_view(source2->Ok_0.ns),
        opt_view(source1->Ok_0.trigger) == opt_view(source2->Ok_0.trigger),
    ensures
        trigger1 is Ok,
        trigger2 is Ok,
        opt_view(trigger1->Ok_0.ns) == opt_view(trigger2->Ok_0.ns),
        opt_view(trigger1->Ok_0.trigger) == opt_view(trigger2->Ok_0.trigger),
{
}

/// Both limits that look at the path turn away the same requests: those whose path names no trigger.
pub proof fn law_limits_reject_the_same_paths(
    path: Seq<char>,
    fallback: Seq<char>,
    by_trigger: Result<RateLimiterKey, GovernorError>,
    by_source: Result<RateLimiterKey, GovernorError>,
)
    requires
        is_path_key(RequestsRateLimiter::Trigger, path, fallback, by_trigger),
        is_path_key(RequestsRateLimiter::Source, path, fallback, by_source),
    ensures
        by_trigger is Ok == by_source is Ok,
        by_trigger is Ok == names_trigger(split_on(path, '/')),
{
}

proof fn lemma_small_double_bounded(n: int, d: int, scale: int)
    requires
        0 < n < 0x20_0000_0000_0000 * d,
        0 < d,
        0 < scale,
    ensures
        0 <= small_double(n, d, scale).0 <= 0x20_0000_0000_0000,
        0 < small_double(n, d, scale).1,
    decreases 0x20_0000_0000_0000 * d - n,
{
    if n < 0x10_0000_0000_0000 * d {
        lemma_small_double_bounded(2 * n, d, 2 * scale);
    } else {
        lemma_rounded(n, d);
        assert(n / d <= 0x20_0000_0000_0000 - 1) by (nonlinear_arith)
            requires
                n < 0x20_0000_0000_0000 * d,
                0 < d,
        ;
    }
}

proof fn lemma_large_double_bounded(n: int, d: int, scale: int)
    requires
        0 < scale <= d <= n,
    ensures
        0 < large_double(n, d, scale) <= 2 * n,
    decreases n - d,
{
    if n >= 0x20_0000_0000_0000 * d {
        lemma_large_double_bounded(n, 2 * d, 2 * scale);
    } else {
        lemma_rounded(n, d);
        let rounded = round_half_even(n, d);
        assert(n / d >= 1) by (nonlinear_arith)
            requires
                n >= d,
                d > 0,
        ;
        assert(0 < rounded * scale <= n + d) by (nonlinear_arith)
            requires
                1 <= rounded <= n / d + 1,
                n / d * d <= n,
                0 < scale <= d,
        ;
    }
}

/// Limits over less than some thirty thousand million years aren't too long to be kept.
pub proof fn law_ordinary_limits_are_in_range(value: Seq<char>)
    requires
        parsed_limit(value) matches Some(limit) ==> limit.1 <= 0x1000_0000_0000_0000,
    ensures
        limit_in_range(value),
{
    if let Some(limit) = parsed_limit(value) {
        let (burst, period) = limit;
        lemma_parsed_limit_positive(value);
        if period >= 0x20_0000_0000_0000 {
            lemma_large_double_bounded(period, 1, 1);
        }
        let seconds = integer_as_double(period);
        if seconds < 0x10_0000_0000_0000 * burst {
            lemma_small_double_bounded(seconds, burst, 1);
            let (n, d) = small_double(seconds, burst, 1);
            lemma_rounded(n * 1_000_000_000, d);
            assert((n * 1_000_000_000) / d <= n * 1_000_000_000) by (nonlinear_arith)
                requires
                    n >= 0,
                    d > 0,
            ;
        } else {
            lemma_large_double_bounded(seconds, burst, 1);
            lemma_rounded(large_double(seconds, burst, 1) * 1_000_000_000, 1);
        }
    }
}

proof fn lemma_parsed_limit_positive(value: Seq<char>)
    ensures
        parsed_limit(value) matches Some(limit) ==> limit.0 > 0 && limit.1 > 0,
{
    let parts = split_on(value, '/');
    lemma_parsed_unsigned_natural(parts[0], u32::MAX as int);
    lemma_parsed_unsigned_natural(parts[1], u64::MAX as int);
}

} // verus!
