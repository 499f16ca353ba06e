//! Cached resources and secrets.
use crate::error::{Error, KubeError};
use crate::resources::git_repo::{no_data_message, no_key_message, not_utf8_message, SecretContent};
use crate::string_map::StringMap;
use crate::text::{copy_bytes, string_from_utf8};
use crate::time::{Duration, Timestamp};
use vstd::prelude::*;
use vstd::utf8::{decode_utf8, valid_utf8};

verus! {

/// Key of a resource in the cache.
#[derive(Debug)]
pub struct CacheKey {
    /// Name of the resource.
    pub name: String,
    /// Namespace of the resource.
    pub namespace: String,
}

/// Key of a resource in the cache. A resource without a namespace is looked up in the default one.
pub fn cache_key(name: &str, namespace: Option<&str>) -> (r: CacheKey)
    ensures
        r.name@ == name@,
        r.namespace@ == match namespace {
            Some(ns) => ns@,
            None => "default"@,
        },
{
    let ns = match namespace {
        Some(ns) => ns.to_owned(),
        None => "default".to_owned(),
    };
    CacheKey { name: name.to_owned(), namespace: ns }
}

/// Resource that was found in the cache, or the error that names what wasn't.
pub fn cached<T>(found: Option<T>, name: &str, namespace: Option<&str>) -> (r: Result<T, Error>)
    ensures
        match found {
            Some(value) => r == Ok::<T, Error>(value),
            None => r matches Err(Error::ResourceNotFoundError(text)) && text@ == match namespace {
                Some(ns) => ns@ + "/"@ + name@,
                None => name@,
            },
        },
{
    match found {
        Some(value) => Ok(value),
        None => {
            let text = match namespace {
                Some(ns) => ns.to_owned().concat("/").concat(name),
                None => name.to_owned(),
            };
            Err(Error::ResourceNotFoundError(text))
        },
    }
}

/// Cache of secrets. What is in it is good for some time.
#[derive(Debug)]
pub struct SecretsCache {
    /// How long a secret is good.
    pub expiration_timeout: Duration,
    /// Secrets by their namespaces and names.
    pub cache: StringMap<SecretValue>,
}

/// Cache of secrets.
pub type ExpiringSecretCache = SecretsCache;

/// Secret in the cache.
#[derive(Debug)]
pub struct SecretValue {
    /// Values of the secret by their keys.
    pub data: StringMap<Vec<u8>>,
    /// Time from which on the secret is no longer good.
    pub expires_at: Timestamp,
}

/// Key of a secret in the cache.
pub open spec fn secret_hash_key(namespace: Seq<char>, secret_name: Seq<char>) -> Seq<char> {
    namespace + "/"@ + secret_name
}

/// Value of a key of a secret that is good at a time.
pub open spec fn good_value(
    cache: Map<Seq<char>, SecretValue>,
    hash_key: Seq<char>,
    key: Seq<char>,
    now: Timestamp,
) -> Option<Vec<u8>> {
    if cache.contains_key(hash_key) && cache[hash_key].expires_at@ > now@
        && cache[hash_key].data@.contains_key(key) {
        Some(cache[hash_key].data@[key])
    } else {
        None
    }
}

/// The result is the text of a value of a secret.
pub open spec fn is_value_text(
    r: Result<String, Error>,
    value: Seq<u8>,
    key: Seq<char>,
    secret_name: Seq<char>,
) -> bool {
    match r {
        Ok(text) => valid_utf8(value) && text@ == decode_utf8(value),
        Err(e) => !valid_utf8(value) && (e matches Error::SecretDecodingError(reason) && reason@
            == not_utf8_message(key, secret_name)),
    }
}

/// The result is the text of a key of a secret that was read.
pub open spec fn is_secret_text(
    r: Result<String, Error>,
    secret: SecretContent,
    key: Seq<char>,
    secret_name: Seq<char>,
) -> bool {
    match secret {
        Err(e) => r == Err::<String, Error>(Error::KubeError(e)),
        Ok(None) => r matches Err(Error::SecretDecodingError(reason)) && reason@ == no_data_message(
            secret_name,
        ),
        Ok(Some(data)) => if data@.contains_key(key) {
            is_value_text(r, data@[key]@, key, secret_name)
        } else {
            r matches Err(Error::SecretDecodingError(reason)) && reason@ == no_key_message(
                key,
                secret_name,
            )
        },
    }
}

fn value_text(value: &Vec<u8>, key: &str, secret_name: &str) -> (r: Result<String, Error>)
    ensures
        is_value_text(r, value@, key@, secret_name@),
{
    match string_from_utf8(copy_bytes(value)) {
        Some(text) => Ok(text),
        None => Err(
            Error::SecretDecodingError(
                "error converting string `".to_owned().concat(key).concat(
                    "` from UTF8 in the secret `",
                ).concat(secret_name).concat("`"),
            ),
        ),
    }
}

/// Values of a secret that was read, and the text of one of them.
pub fn query_secrets_api(secret: SecretContent, secret_name: &str, key: &str) -> (r: Result<
    (StringMap<Vec<u8>>, String),
    Error,
>)
    ensures
        match r {
            Ok(found) => secret == Ok::<Option<StringMap<Vec<u8>>>, KubeError>(Some(found.0))
                && is_secret_text(Ok(found.1), secret, key@, secret_name@),
            Err(e) => is_secret_text(Err(e), secret, key@, secret_name@),
        },
{
    match secret {
        Err(e) => Err(Error::KubeError(e)),
        Ok(None) => Err(
            Error::SecretDecodingError(
                "no `data` part in the secret `".to_owned().concat(secret_name).concat("`"),
            ),
        ),
        Ok(Some(data)) => {
            let text = match data.get(key) {
                Some(value) => value_text(value, key, secret_name),
                None => Err(
                    Error::SecretDecodingError(
                        "no `".to_owned().concat(key).concat("` key in the secret `").concat(
                            secret_name,
                        ).concat("`"),
                    ),
                ),
            };
            match text {
                Ok(t) => Ok((data, t)),
                Err(e) => Err(e),
            }
        },
    }
}

impl SecretsCache {
    /// All times can be compared.
    pub open spec fn wf(self) -> bool {
        &&& self.expiration_timeout.wf()
        &&& forall|key: Seq<char>| #[trigger]
            self.cache@.contains_key(key) ==> self.cache@[key].expires_at.wf()
    }

    /// Empty cache.
    pub fn new(expiration_timeout: Duration) -> (r: SecretsCache)
        requires
            expiration_timeout.wf(),
        ensures
            r.wf(),
            r.expiration_timeout == expiration_timeout,
            r.cache@ == Map::<Seq<char>, SecretValue>::empty(),
    {
        SecretsCache { expiration_timeout, cache: StringMap::new() }
    }

    /// Text of a value that is good now. If there is none, the secret has to be read.
    pub fn get(&self, namespace: &str, secret_name: &str, key: &str, now: Timestamp) -> (r: Option<
        Result<String, Error>,
    >)
        requires
            self.wf(),
            now.wf(),
        ensures
            match good_value(self.cache@, secret_hash_key(namespace@, secret_name@), key@, now) {
                Some(value) => r matches Some(result) && is_value_text(
                    result,
                    value@,
                    key@,
                    secret_name@,
                ),
                None => r is None,
            },
    {
        let hash_key = namespace.to_owned().concat("/").concat(secret_name);
        match self.cache.get(hash_key.as_str()) {
            Some(secret) => if now.is_before(secret.expires_at) {
                match secret.data.get(key) {
                    Some(value) => Some(value_text(value, key, secret_name)),
                    None => None,
                }
            } else {
                None
            },
            None => None,
        }
    }

    /// Keeps a secret that was read, and gives the text of one of its values. Where there is no such
    /// text, nothing is kept.
    pub fn save(
        &mut self,
        namespace: &str,
        secret_name: &str,
        key: &str,
        secret: SecretContent,
        now: Timestamp,
    ) -> (r: Result<String, Error>)
        requires
            old(self).wf(),
            now.wf(),
            now.can_wait(old(self).expiration_timeout),
        ensures
            final(self).wf(),
            final(self).expiration_timeout == old(self).expiration_timeout,
            is_secret_text(r, secret, key@, secret_name@),
            match r {
                Ok(_) => is_saved(
                    old(self).cache@,
                    final(self).cache@,
                    secret_hash_key(namespace@, secret_name@),
                    secret->Ok_0->0,
                    now@ + old(self).expiration_timeout@,
                ),
                Err(_) => final(self).cache == old(self).cache,
            },
    {
        match query_secrets_api(secret, secret_name, key) {
            Ok((data, text)) => {
                let hash_key = namespace.to_owned().concat("/").concat(secret_name);
                let expires_at = now.after(self.expiration_timeout);
                self.cache.insert(hash_key, SecretValue { data, expires_at });
                Ok(text)
            },
            Err(e) => Err(e),
        }
    }
}

/// The cache holds the secret besides what it held before.
pub open spec fn is_saved(
    before: Map<Seq<char>, SecretValue>,
    after: Map<Seq<char>, SecretValue>,
    hash_key: Seq<char>,
    data: StringMap<Vec<u8>>,
    expires_at: int,
) -> bool {
    &&& after.contains_key(hash_key)
    &&& after[hash_key].data == data
    &&& after[hash_key].expires_at@ == expires_at
    &&& after == before.insert(hash_key, after[hash_key])
}

/// Until it expires, a saved secret is found again with every key that it has.
pub proof fn law_saved_secret_is_found(
    before: Map<Seq<char>, SecretValue>,
    after: Map<Seq<char>, SecretValue>,
    hash_key: Seq<char>,
    data: StringMap<Vec<u8>>,
    expires_at: int,
    key: Seq<char>,
    now: Timestamp,
)
    requires
        is_saved(before, after, hash_key, data, expires_at),
        data@.contains_key(key),
        now@ < expires_at,
    ensures
        good_value(after, hash_key, key, now) == Some(data@[key]),
{
}

/// From the time on when it expires, a saved secret isn't found any more.
pub proof fn law_expired_secret_is_read_again(
    before: Map<Seq<char>, SecretValue>,
    after: Map<Seq<char>, SecretValue>,
    hash_key: Seq<char>,
    data: StringMap<Vec<u8>>,
    expires_at: int,
    key: Seq<char>,
    now: Timestamp,
)
    requires
        is_saved(before, after, hash_key, data, expires_at),
        now@ >= expires_at,
    ensures
        good_value(after, hash_key, key, now) is None,
{
}

/// Saving a secret leaves all others as they were.
pub proof fn law_other_secrets_stay(
    before: Map<Seq<char>, SecretValue>,
    after: Map<Seq<char>, SecretValue>,
    hash_key: Seq<char>,
    data: StringMap<Vec<u8>>,
    expires_at: int,
    other: Seq<char>,
    key: Seq<char>,
    now: Timestamp,
)
    requires
        is_saved(before, after, hash_key, data, expires_at),
        other != hash_key,
    ensures
        good_value(after, other, key, now) == good_value(before, other, key, now),
{
}

} // verus!
