//! Cached resources and secrets.
use crate::cache::{cache_key, cached, query_secrets_api, CacheKey, SecretsCache};
use crate::error::{Error, KubeError};
use crate::resources::git_repo::SecretContent;
use crate::string_map::StringMap;
use crate::time::{Duration, Timestamp};
use vstd::prelude::*;
use vstd::utf8::{decode_utf8, valid_utf8};

use super::queue::{length_nanos, point_nanos};

verus! {

/// The result is the text that the bytes encode, or the error that they encode none.
pub open spec fn is_decoded(r: Result<String, Error>, bytes: Seq<u8>, key: Seq<char>, secret: Seq<char>) -> bool {
    &&& r is Ok == valid_utf8(bytes)
    &&& r matches Ok(text) ==> text@ == decode_utf8(bytes)
    &&& r matches Err(e) ==> (e matches Error::SecretDecodingError(reason) && reason@
        == "error converting string `"@ + key + "` from UTF8 in the secret `"@ + secret + "`"@)
}

/// A new cache has no secret.
pub proof fn law_new_cache_has_no_secret(
    timeout: Duration,
    cache: SecretsCache,
    ns: &str,
    name: &str,
    key: &str,
    now: Timestamp,
    r: Option<Result<String, Error>>,
)
    requires
        call_ensures(SecretsCache::new, (timeout,), cache),
        call_ensures(SecretsCache::get, (&cache, ns, name, key, now), r),
    ensures
        cache.expiration_timeout == timeout,
        r is None,
{
}

/// A secret that was saved is given again, with every key that it has, until its time is over.
pub proof fn law_saved_secret_is_given_again(
    cache1: &mut SecretsCache,
    ns: &str,
    name: &str,
    key: &str,
    secret: SecretContent,
    now: Timestamp,
    saved: Result<String, Error>,
    cache2: &SecretsCache,
    other_key: &str,
    later: Timestamp,
    r: Option<Result<String, Error>>,
)
    requires
        call_ensures(SecretsCache::save, (cache1, ns, name, key, secret, now), saved),
        saved is Ok,
        *cache2 == *final(cache1),
        call_ensures(SecretsCache::get, (cache2, ns, name, other_key, later), r),
    ensures
        secret matches Ok(Some(data)) && (if point_nanos(later) >= point_nanos(now) + length_nanos(
            old(cache1).expiration_timeout,
        ) || !data@.contains_key(other_key@) {
            r is None
        } else {
            r matches Some(result) && is_decoded(result, data@[other_key@]@, other_key@, name@)
        }),
{
}

/// What is known of one secret doesn't change when another one is saved.
pub proof fn law_other_secrets_stay(
    cache0: &SecretsCache,
    cache1: &mut SecretsCache,
    ns: &str,
    name: &str,
    key: &str,
    secret: SecretContent,
    now: Timestamp,
    saved: Result<String, Error>,
    cache2: &SecretsCache,
    other_ns: &str,
    other_name: &str,
    other_key: &str,
    later: Timestamp,
    r0: Option<Result<String, Error>>,
    r: Option<Result<String, Error>>,
)
    requires
        *cache0 == *old(cache1),
        call_ensures(SecretsCache::get, (cache0, other_ns, other_name, other_key, later), r0),
        call_ensures(SecretsCache::save, (cache1, ns, name, key, secret, now), saved),
        *cache2 == *final(cache1),
        call_ensures(SecretsCache::get, (cache2, other_ns, other_name, other_key, later), r),
        saved is Ok ==> other_ns@ + "/"@ + other_name@ != ns@ + "/"@ + name@,
    ensures
        final(cache1).expiration_timeout == old(cache1).expiration_timeout,
        r is Some == r0 is Some,
        r is Some ==> r->0 is Ok == r0->0 is Ok,
        r is Some && r->0 is Ok ==> r->0->Ok_0@ == r0->0->Ok_0@,
{
}

/// A secret that was read is saved if and only if the value under the key is a text, and then the text
/// is given.
pub proof fn law_read_secret_is_given(
    cache: &mut SecretsCache,
    ns: &str,
    name: &str,
    key: &str,
    secret: SecretContent,
    now: Timestamp,
    r: Result<String, Error>,
)
    requires
        call_ensures(SecretsCache::save, (cache, ns, name, key, secret, now), r),
    ensures
        r is Err ==> *final(cache) == *old(cache),
        r is Ok ==> final(cache).cache@.contains_key(ns@ + "/"@ + name@),
        match secret {
            Err(e) => r == Err::<String, Error>(Error::KubeError(e)),
            Ok(None) => r matches Err(Error::SecretDecodingError(reason)) && reason@
                == "no `data` part in the secret `"@ + name@ + "`"@,
            Ok(Some(data)) => if data@.contains_key(key@) {
                is_decoded(r, data@[key@]@, key@, name@)
            } else {
                r matches Err(Error::SecretDecodingError(reason)) && reason@ == "no `"@ + key@
                    + "` key in the secret `"@ + name@ + "`"@
            },
        },
{
}

/// A secret that is read gives all of its values and the text of one.
pub proof fn law_secret_is_read(
    secret: SecretContent,
    name: &str,
    key: &str,
    r: Result<(StringMap<Vec<u8>>, String), Error>,
)
    requires
        call_ensures(query_secrets_api, (secret, name, key), r),
    ensures
        r is Ok == (secret matches Ok(Some(data)) && data@.contains_key(key@) && valid_utf8(data@[key@]@)),
        r is Ok ==> secret == Ok::<Option<StringMap<Vec<u8>>>, KubeError>(Some(r->Ok_0.0))
            && r->Ok_0.1@ == decode_utf8(
            r->Ok_0.0@[key@]@,
        ),
        secret matches Err(e) ==> r == Err::<(StringMap<Vec<u8>>, String), Error>(Error::KubeError(e)),
        secret is Ok && r is Err ==> r->Err_0 is SecretDecodingError,
{
}

/// A resource is looked for under its name and namespace, and what isn't found is named.
pub proof fn law_resource_is_looked_for<T>(
    name: &str,
    ns: Option<&str>,
    key: CacheKey,
    found: Option<T>,
    r: Result<T, Error>,
)
    requires
        call_ensures(cache_key, (name, ns), key),
        call_ensures(cached::<T>, (found, name, ns), r),
    ensures
        key.name@ == name@,
        ns matches Some(n) ==> key.namespace@ == n@,
        ns is None ==> key.namespace@ == "default"@,
        found matches Some(value) ==> r == Ok::<T, Error>(value),
        found is None && ns is Some ==> (r matches Err(Error::ResourceNotFoundError(text)) && text@ == ns->0@
            + "/"@ + name@),
        found is None && ns is None ==> (r matches Err(Error::ResourceNotFoundError(text)) && text@ == name@),
{
}

} // verus!
