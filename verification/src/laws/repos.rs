//! Repositories: what they are fetched with.
use crate::error::{Error, KubeError};
use crate::resources::git_repo::{
    get_secret_strings, CertificateCheck, ClusterGitRepo, Credentials, FetchPlan, GitAuthConfig, GitAuthType, GitRepo,
    GitRepoGetter, GitRepoInternals, GitRepoUriSchema, RepoFetch, SecretContent, SecretRef, SecretRequest,
    TlsCaConfig,
    TlsConfig,
};
use crate::string_map::StringMap;
use crate::text::text_map;
use vstd::prelude::*;
use vstd::utf8::{decode_utf8, valid_utf8};

verus! {

/// The text begins with another one.
pub open spec fn starts(text: Seq<char>, beginning: Seq<char>) -> bool {
    text.len() >= beginning.len() && forall|i: int|
        0 <= i < beginning.len() ==> #[trigger] text[i] == beginning[i]
}

/// The certificate authority that the repository names.
pub open spec fn named_ca<R: GitRepoInternals>(repo: R) -> Option<TlsCaConfig> {
    if repo.the_tls_config() is Some {
        repo.the_tls_config()->0.ca_cert
    } else {
        None
    }
}

proof fn lemma_starts(text: Seq<char>, beginning: Seq<char>)
    ensures
        starts(text, beginning) == crate::text::begins_with(text, beginning),
{
    if text.len() >= beginning.len() {
        let head = text.take(beginning.len() as int);
        if starts(text, beginning) {
            assert forall|i: int| 0 <= i < beginning.len() implies head[i] == beginning[i] by {
                assert(text[i] == beginning[i]);
            }
            assert(head =~= beginning);
        }
        if head == beginning {
            assert forall|i: int| 0 <= i < beginning.len() implies #[trigger] text[i] == beginning[i] by {
                assert(head[i] == beginning[i]);
            }
        }
    }
}

proof fn lemma_schemes(uri: Seq<char>)
    ensures
        starts(uri, "http://"@) == crate::text::begins_with(uri, "http://"@),
        starts(uri, "https://"@) == crate::text::begins_with(uri, "https://"@),
        starts(uri, "ssh://"@) == crate::text::begins_with(uri, "ssh://"@),
        starts(uri, "git@"@) == crate::text::begins_with(uri, "git@"@),
        starts(uri, "https://"@) ==> !starts(uri, "http://"@),
        starts(uri, "ssh://"@) ==> !starts(uri, "http://"@) && !starts(uri, "https://"@),
        starts(uri, "git@"@) ==> !starts(uri, "http://"@) && !starts(uri, "https://"@) && !starts(uri, "ssh://"@),
{
    lemma_starts(uri, "http://"@);
    lemma_starts(uri, "https://"@);
    lemma_starts(uri, "ssh://"@);
    lemma_starts(uri, "git@"@);
    reveal_strlit("http://");
    reveal_strlit("https://");
    reveal_strlit("ssh://");
    reveal_strlit("git@");
    assert("http://"@[4] == ':' && "https://"@[4] == 's' && "http://"@[0] == 'h' && "https://"@[0] == 'h'
        && "ssh://"@[0] == 's' && "git@"@[0] == 'g');
}

/// The scheme of a repository is what its URI begins with.
pub proof fn law_uri_tells_the_scheme<R: GitRepoGetter>(repo: &R, known: bool, schema: GitRepoUriSchema)
    requires
        call_ensures(R::has_known_schema, (repo,), known),
        call_ensures(R::uri_schema, (repo,), schema),
    ensures
        known == (starts(repo.the_uri()@, "http://"@) || starts(repo.the_uri()@, "https://"@) || starts(
            repo.the_uri()@,
            "ssh://"@,
        ) || starts(repo.the_uri()@, "git@"@)),
        starts(repo.the_uri()@, "http://"@) ==> schema == GitRepoUriSchema::Http,
        starts(repo.the_uri()@, "https://"@) ==> schema == GitRepoUriSchema::Https,
        starts(repo.the_uri()@, "ssh://"@) ==> schema == GitRepoUriSchema::Ssh,
        starts(repo.the_uri()@, "git@"@) ==> schema == GitRepoUriSchema::Git,
{
    lemma_schemes(repo.the_uri()@);
}

/// Certificates are checked as the configuration says.
pub open spec fn is_checked(
    check: CertificateCheck,
    uri: Seq<char>,
    config: Option<TlsConfig>,
    authority: Seq<char>,
) -> bool {
    &&& starts(uri, "https://"@) && config is Some ==> {
        &&& check is AcceptAny == config->0.no_verify_ssl
        &&& !config->0.no_verify_ssl && config->0.ca_cert is Some ==> (check matches CertificateCheck::CustomCa(text)
            && text@ == authority)
        &&& !config->0.no_verify_ssl && config->0.ca_cert is None ==> check is System
    }
    &&& starts(uri, "https://"@) && config is None ==> check is Untouched
    &&& starts(uri, "http://"@) ==> check is Untouched
    &&& starts(uri, "ssh://"@) || starts(uri, "git@"@) ==> check is AcceptAny
}

/// As many commits are fetched as the scheme asks for: the last one over HTTP, and all of them over SSH.
pub open spec fn goes_back(depth: u32, uri: Seq<char>) -> bool {
    &&& starts(uri, "http://"@) || starts(uri, "https://"@) ==> depth == 1
    &&& starts(uri, "ssh://"@) || starts(uri, "git@"@) ==> depth == 0
}

/// Over TLS, certificates go unchecked if and only if the repository says so, whether it names an
/// authority or not. Otherwise they are checked with its authority if it names one, and as the system
/// does if it doesn't. Without a configuration nothing is changed, and over SSH nothing is checked.
pub proof fn law_certificates_are_checked_as_configured<R: GitRepoGetter>(
    repo: &R,
    reference: &String,
    path: &String,
    auth: &StringMap<String>,
    tls: &StringMap<String>,
    r: FetchPlan,
)
    requires
        call_ensures(R::fetch_plan, (repo, reference, path, auth, tls), r),
    ensures
        is_checked(r.certificate_check, repo.the_uri()@, repo.the_tls_config(), tls@["ca.crt"@]@),
{
    lemma_schemes(repo.the_uri()@);
}

/// The credentials are those that the repository asks for, with what the secret holds.
pub open spec fn logs_in(
    credentials: Credentials,
    config: Option<GitAuthConfig>,
    texts: Map<Seq<char>, String>,
) -> bool {
    match config {
        None => credentials is Anonymous,
        Some(c) => match c.auth_type {
            GitAuthType::Basic => credentials matches Credentials::UserPass { username, password } && password
                == texts["password"@] && (if texts.contains_key("username"@) {
                username == Some(texts["username"@])
            } else {
                username is None
            }),
            GitAuthType::Token => credentials matches Credentials::Header(header) && header@
                == "Authorization: "@ + texts["token"@]@,
            GitAuthType::Ssh => credentials matches Credentials::SshKey { private_key, default_user }
                && private_key == texts["private_key"@] && (default_user matches Some(user) && user@ == "git"@),
        },
    }
}

/// A reference is fetched from the repository's URI to the folder, logging in as the repository says:
/// the last commit only over HTTP, and all of them over SSH.
pub proof fn law_reference_is_fetched_as_configured<R: GitRepoGetter>(
    repo: &R,
    reference: &String,
    path: &String,
    auth: &StringMap<String>,
    tls: &StringMap<String>,
    r: FetchPlan,
)
    requires
        call_ensures(R::fetch_plan, (repo, reference, path, auth, tls), r),
    ensures
        r.uri == repo.the_uri(),
        r.reference == *reference,
        r.path == *path,
        logs_in(r.credentials, repo.the_auth_config(), auth@),
        goes_back(r.depth, repo.the_uri()@),
{
    lemma_schemes(repo.the_uri()@);
}

/// The secret is looked for in the namespace: a repository of a namespace has its secrets there, and one
/// of the cluster has them where it says, or there if it doesn't say.
pub open spec fn is_secret_namespace(
    namespace: Seq<char>,
    namespaced: bool,
    secret_ref: SecretRef,
    secrets_ns: Seq<char>,
) -> bool {
    if namespaced || secret_ref.namespace is None {
        namespace == secrets_ns
    } else {
        namespace == secret_ref.namespace->0@
    }
}

/// The keys of the secret, with the names of their values, are these alone.
pub open spec fn asks_for_keys(keys: Map<Seq<char>, String>, wanted: Map<Seq<char>, Seq<char>>) -> bool {
    forall|key: Seq<char>|
        #![trigger keys.contains_key(key)]
        keys.contains_key(key) == wanted.contains_key(key) && (keys.contains_key(key) ==> keys[key]@
            == wanted[key])
}

/// What a repository needs to log in: a name and a password, a token, or a private key, under the keys
/// that it gives.
pub open spec fn wanted_login(config: GitAuthConfig) -> Map<Seq<char>, Seq<char>> {
    match config.auth_type {
        GitAuthType::Basic => Map::<Seq<char>, Seq<char>>::empty().insert(
            config.keys.username@,
            "username"@,
        ).insert(config.keys.password@, "password"@),
        GitAuthType::Token => Map::<Seq<char>, Seq<char>>::empty().insert(config.keys.token@, "token"@),
        GitAuthType::Ssh => Map::<Seq<char>, Seq<char>>::empty().insert(
            config.keys.private_key@,
            "private_key"@,
        ),
    }
}

/// The request is for what a repository needs to log in.
pub open spec fn is_login_request(
    request: SecretRequest,
    config: GitAuthConfig,
    namespaced: bool,
    secrets_ns: Seq<char>,
) -> bool {
    &&& request.name@ == config.secret_ref.name@
    &&& is_secret_namespace(request.namespace@, namespaced, config.secret_ref, secrets_ns)
    &&& asks_for_keys(request.keys@, wanted_login(config))
}

/// The request is for the certificates of an authority.
pub open spec fn is_ca_request(
    request: SecretRequest,
    config: TlsCaConfig,
    namespaced: bool,
    secrets_ns: Seq<char>,
) -> bool {
    &&& request.name@ == config.secret_ref.name@
    &&& is_secret_namespace(request.namespace@, namespaced, config.secret_ref, secrets_ns)
    &&& asks_for_keys(
        request.keys@,
        Map::<Seq<char>, Seq<char>>::empty().insert(config.key@, "ca.crt"@),
    )
}

/// Keys with these texts are the wanted ones.
pub proof fn lemma_keys(keys: Map<Seq<char>, String>, wanted: Map<Seq<char>, Seq<char>>)
    requires
        text_map(keys) =~= wanted,
    ensures
        asks_for_keys(keys, wanted),
{
    assert forall|key: Seq<char>| #[trigger] keys.contains_key(key) == wanted.contains_key(key) && (
    keys.contains_key(key) ==> keys[key]@ == wanted[key]) by {
        assert(text_map(keys).contains_key(key) == keys.contains_key(key));
    }
}

/// A login is looked up where the repository says, under the keys that it gives.
pub proof fn law_login_is_looked_up<R: GitRepoGetter>(repo: &R, secrets_ns: &String, r: Option<SecretRequest>)
    requires
        call_ensures(R::auth_secret_request, (repo, secrets_ns), r),
    ensures
        match repo.the_auth_config() {
            Some(config) => r matches Some(request) && is_login_request(
                request,
                config,
                R::namespaced(),
                secrets_ns@,
            ),
            None => r is None,
        },
{
    if let Some(config) = repo.the_auth_config() {
        lemma_keys(r->0.keys@, wanted_login(config));
    }
}

/// An authority is looked up where the repository says, under the key that it gives.
pub proof fn law_authority_is_looked_up<R: GitRepoGetter>(repo: &R, secrets_ns: &String, r: Option<SecretRequest>)
    requires
        call_ensures(R::tls_secret_request, (repo, secrets_ns), r),
    ensures
        match named_ca(*repo) {
            Some(config) => r matches Some(request) && is_ca_request(
                request,
                config,
                R::namespaced(),
                secrets_ns@,
            ),
            None => r is None,
        },
{
    if let Some(config) = named_ca(*repo) {
        lemma_keys(
            r->0.keys@,
            Map::<Seq<char>, Seq<char>>::empty().insert(config.key@, "ca.crt"@),
        );
    }
}

/// A fetch begins with what has to be read first: the login if there is one, then the authority if there
/// is one. If there is neither, the reference is fetched at once, without logging in.
pub proof fn law_fetch_reads_secrets_first<R: GitRepoGetter>(
    repo: &R,
    reference: &String,
    path: &String,
    secrets_ns: &String,
    r: RepoFetch,
)
    requires
        call_ensures(R::fetch_repo_ref, (repo, reference, path, secrets_ns), r),
    ensures
        match repo.the_auth_config() {
            Some(config) => r matches RepoFetch::ReadAuthSecret(request) && is_login_request(
                request,
                config,
                R::namespaced(),
                secrets_ns@,
            ),
            None => match named_ca(*repo) {
                Some(ca) => r matches RepoFetch::ReadTlsSecret(request, _) && is_ca_request(
                    request,
                    ca,
                    R::namespaced(),
                    secrets_ns@,
                ),
                None => r matches RepoFetch::Fetch(plan) && plan.uri == repo.the_uri() && plan.reference
                    == *reference && plan.path == *path && plan.credentials is Anonymous && is_checked(
                    plan.certificate_check,
                    repo.the_uri()@,
                    repo.the_tls_config(),
                    Seq::empty(),
                ) && goes_back(plan.depth, repo.the_uri()@),
            },
        },
{
    lemma_schemes(repo.the_uri()@);
    match repo.the_auth_config() {
        Some(config) => {
            lemma_keys(r->ReadAuthSecret_0.keys@, wanted_login(config));
        },
        None => {
            if let Some(config) = named_ca(*repo) {
                lemma_keys(
                    r->ReadTlsSecret_0.keys@,
                    Map::<Seq<char>, Seq<char>>::empty().insert(config.key@, "ca.crt"@),
                );
            }
        },
    }
}

/// The secret has a text under the key.
pub open spec fn has_text(data: Map<Seq<char>, Vec<u8>>, key: Seq<char>) -> bool {
    data.contains_key(key) && valid_utf8(data[key]@)
}

/// The text complains of a key that the secret lacks, or whose value isn't a text.
pub open spec fn complains_of(
    text: Seq<char>,
    key: Seq<char>,
    secret: Seq<char>,
    data: Map<Seq<char>, Vec<u8>>,
) -> bool {
    if data.contains_key(key) {
        !valid_utf8(data[key]@) && text == "error converting string `"@ + key + "` from UTF8 in the secret `"@
            + secret + "`"@
    } else {
        text == "no `"@ + key + "` key in the secret `"@ + secret + "`"@
    }
}

/// The credentials are made of what the secret holds under the repository's keys.
pub open spec fn logs_in_with(
    credentials: Credentials,
    config: GitAuthConfig,
    data: Map<Seq<char>, Vec<u8>>,
) -> bool {
    match config.auth_type {
        GitAuthType::Basic => credentials matches Credentials::UserPass { username, password } && password@
            == decode_utf8(data[config.keys.password@]@) && (if config.keys.username@
            == config.keys.password@ {
            username is None
        } else {
            username matches Some(name) && name@ == decode_utf8(data[config.keys.username@]@)
        }),
        GitAuthType::Token => credentials matches Credentials::Header(header) && header@ == "Authorization: "@
            + decode_utf8(data[config.keys.token@]@),
        GitAuthType::Ssh => credentials matches Credentials::SshKey { private_key, default_user } && private_key@
            == decode_utf8(data[config.keys.private_key@]@) && (default_user matches Some(user) && user@
            == "git"@),
    }
}

/// A repository without an authority of its own is fetched with the login that the secret holds. A
/// secret that can't be read, is empty, or lacks a text ends the fetch with an error.
pub proof fn law_login_comes_from_the_secret<R: GitRepoGetter>(
    repo: &R,
    config: GitAuthConfig,
    request: &SecretRequest,
    secret: SecretContent,
    reference: &String,
    path: &String,
    secrets_ns: &String,
    r: RepoFetch,
)
    requires
        repo.the_auth_config() == Some(config),
        named_ca(*repo) is None,
        call_ensures(R::auth_secret_read, (repo, request, secret, reference, path, secrets_ns), r),
        text_map(request.keys@) == wanted_login(config),
    ensures
        secret matches Err(reason) ==> r == RepoFetch::Done(Err(Error::KubeError(reason))),
        secret matches Ok(None) ==> (r matches RepoFetch::Done(Err(Error::SecretDecodingError(text))) && text@
            == "no `data` part in the secret `"@ + request.name@ + "`"@),
        secret matches Ok(Some(data)) ==> {
            let complete = forall|key: Seq<char>|
                wanted_login(config).contains_key(key) ==> #[trigger] has_text(data@, key);
            &&& complete ==> (r matches RepoFetch::Fetch(plan) && plan.uri == repo.the_uri() && plan.reference
                == *reference && plan.path == *path && logs_in_with(plan.credentials, config, data@)
                && is_checked(
                plan.certificate_check,
                repo.the_uri()@,
                repo.the_tls_config(),
                Seq::empty(),
            ) && goes_back(plan.depth, repo.the_uri()@))
            &&& !complete ==> (r matches RepoFetch::Done(Err(Error::SecretDecodingError(text))) && exists|key: Seq<
                char,
            >| #[trigger]
                wanted_login(config).contains_key(key) && complains_of(text@, key, request.name@, data@))
        },
{
    lemma_schemes(repo.the_uri()@);
    lemma_keys(request.keys@, wanted_login(config));
    if let Ok(Some(data)) = secret {
        let keys = request.keys@;
        let complete = forall|key: Seq<char>|
            wanted_login(config).contains_key(key) ==> #[trigger] has_text(data@, key);
        if complete {
            assert forall|key: Seq<char>| #[trigger] keys.contains_key(key) implies data@.contains_key(key)
                && valid_utf8(data@[key]@) by {
                assert(has_text(data@, key));
            }
            let auth = choose|auth: Map<Seq<char>, String>|
                crate::resources::git_repo::are_texts_of(auth, data@, keys)
                    && #[trigger] crate::resources::git_repo::after_auth(
                    *repo,
                    r,
                    *reference,
                    *path,
                    secrets_ns@,
                    auth,
                );
            lemma_texts(auth, data@, keys, config);
        } else {
            let key = choose|key: Seq<char>|
                wanted_login(config).contains_key(key) && !(#[trigger] has_text(data@, key));
            assert(keys.contains_key(key));
            let text = r->Done_0->Err_0->SecretDecodingError_0@;
            let bad = choose|bad: Seq<char>| #[trigger]
                keys.contains_key(bad) && complains_of(text, bad, request.name@, data@);
            assert(wanted_login(config).contains_key(bad));
        }
    }
}

/// Texts of a login stand under their names.
pub proof fn lemma_texts(
    auth: Map<Seq<char>, String>,
    data: Map<Seq<char>, Vec<u8>>,
    keys: Map<Seq<char>, String>,
    config: GitAuthConfig,
)
    requires
        crate::resources::git_repo::are_texts_of(auth, data, keys),
        asks_for_keys(keys, wanted_login(config)),
    ensures
        match config.auth_type {
            GitAuthType::Basic => auth.contains_key("password"@) && auth["password"@]@ == decode_utf8(
                data[config.keys.password@]@,
            ) && auth.contains_key("username"@) == (config.keys.username@ != config.keys.password@) && (
            config.keys.username@ != config.keys.password@ ==> auth["username"@]@ == decode_utf8(
                data[config.keys.username@]@,
            )),
            GitAuthType::Token => auth["token"@]@ == decode_utf8(data[config.keys.token@]@),
            GitAuthType::Ssh => auth["private_key"@]@ == decode_utf8(data[config.keys.private_key@]@),
        },
{
    reveal_strlit("username");
    reveal_strlit("password");
    assert("username"@[0] == 'u' && "password"@[0] == 'p');
    match config.auth_type {
        GitAuthType::Basic => {
            assert(keys.contains_key(config.keys.password@));
            assert(auth.contains_key(keys[config.keys.password@]@));
            if config.keys.username@ != config.keys.password@ {
                assert(keys.contains_key(config.keys.username@));
                assert(auth.contains_key(keys[config.keys.username@]@));
            } else if auth.contains_key("username"@) {
                let key = choose|key: Seq<char>| #[trigger]
                    keys.contains_key(key) && keys[key]@ == "username"@;
                assert(keys[key]@ == wanted_login(config)[key]);
            }
        },
        GitAuthType::Token => {
            assert(keys.contains_key(config.keys.token@));
            assert(auth.contains_key(keys[config.keys.token@]@));
        },
        GitAuthType::Ssh => {
            assert(keys.contains_key(config.keys.private_key@));
            assert(auth.contains_key(keys[config.keys.private_key@]@));
        },
    }
}

/// With an authority of its own, a repository's login is kept while the authority is read.
pub proof fn law_authority_is_read_after_the_login<R: GitRepoGetter>(
    repo: &R,
    config: GitAuthConfig,
    ca: TlsCaConfig,
    request: &SecretRequest,
    data: StringMap<Vec<u8>>,
    reference: &String,
    path: &String,
    secrets_ns: &String,
    r: RepoFetch,
)
    requires
        repo.the_auth_config() == Some(config),
        named_ca(*repo) == Some(ca),
        call_ensures(
            R::auth_secret_read,
            (repo, request, Ok::<Option<StringMap<Vec<u8>>>, KubeError>(Some(data)), reference, path, secrets_ns),
            r,
        ),
        text_map(request.keys@) == wanted_login(config),
        forall|key: Seq<char>| wanted_login(config).contains_key(key) ==> #[trigger] has_text(data@, key),
    ensures
        r matches RepoFetch::ReadTlsSecret(next, login) && is_ca_request(next, ca, R::namespaced(), secrets_ns@)
            && (config.auth_type == GitAuthType::Basic ==> login@["password"@]@ == decode_utf8(
            data@[config.keys.password@]@,
        ) && login@.contains_key("username"@) == (config.keys.username@ != config.keys.password@) && (
        config.keys.username@ != config.keys.password@ ==> login@["username"@]@ == decode_utf8(
            data@[config.keys.username@]@,
        ))) && (config.auth_type == GitAuthType::Token ==> login@["token"@]@ == decode_utf8(
            data@[config.keys.token@]@,
        )) && (config.auth_type == GitAuthType::Ssh ==> login@["private_key"@]@ == decode_utf8(
            data@[config.keys.private_key@]@,
        )),
{
    lemma_keys(request.keys@, wanted_login(config));
    let keys = request.keys@;
    assert forall|key: Seq<char>| #[trigger] keys.contains_key(key) implies data@.contains_key(key) && valid_utf8(
        data@[key]@,
    ) by {
        assert(has_text(data@, key));
    }
    let auth = choose|auth: Map<Seq<char>, String>|
        crate::resources::git_repo::are_texts_of(auth, data@, keys)
            && #[trigger] crate::resources::git_repo::after_auth(
            *repo,
            r,
            *reference,
            *path,
            secrets_ns@,
            auth,
        );
    lemma_texts(auth, data@, keys, config);
    lemma_keys(
        r->ReadTlsSecret_0.keys@,
        Map::<Seq<char>, Seq<char>>::empty().insert(ca.key@, "ca.crt"@),
    );
}

/// Over TLS, a repository that names an authority and doesn't say otherwise is fetched with the
/// certificates that the secret holds, and with the login that was read before.
pub proof fn law_authority_comes_from_the_secret<R: GitRepoGetter>(
    repo: &R,
    ca: TlsCaConfig,
    request: &SecretRequest,
    auth: &StringMap<String>,
    secret: SecretContent,
    reference: &String,
    path: &String,
    secrets_ns: &String,
    r: RepoFetch,
)
    requires
        named_ca(*repo) == Some(ca),
        call_ensures(R::tls_secret_read, (repo, request, auth, secret, reference, path, secrets_ns), r),
        text_map(request.keys@) == Map::<Seq<char>, Seq<char>>::empty().insert(ca.key@, "ca.crt"@),
    ensures
        secret matches Err(reason) ==> r == RepoFetch::Done(Err(Error::KubeError(reason))),
        secret matches Ok(None) ==> (r matches RepoFetch::Done(Err(Error::SecretDecodingError(text))) && text@
            == "no `data` part in the secret `"@ + request.name@ + "`"@),
        secret matches Ok(Some(data)) ==> {
            &&& has_text(data@, ca.key@) ==> (r matches RepoFetch::Fetch(plan) && plan.uri == repo.the_uri()
                && plan.reference == *reference && plan.path == *path && logs_in(
                plan.credentials,
                repo.the_auth_config(),
                auth@,
            ) && is_checked(
                plan.certificate_check,
                repo.the_uri()@,
                repo.the_tls_config(),
                decode_utf8(data@[ca.key@]@),
            ) && goes_back(plan.depth, repo.the_uri()@))
            &&& !has_text(data@, ca.key@) ==> (r matches RepoFetch::Done(Err(Error::SecretDecodingError(text)))
                && complains_of(text@, ca.key@, request.name@, data@))
        },
{
    lemma_schemes(repo.the_uri()@);
    lemma_keys(request.keys@, Map::<Seq<char>, Seq<char>>::empty().insert(ca.key@, "ca.crt"@));
    if let Ok(Some(data)) = secret {
        let keys = request.keys@;
        assert(keys.contains_key(ca.key@));
        if has_text(data@, ca.key@) {
            let tls = choose|tls: Map<Seq<char>, String>|
                crate::resources::git_repo::are_texts_of(tls, data@, keys) && r is Fetch
                    && #[trigger] crate::resources::git_repo::plans(
                    *repo,
                    r->Fetch_0,
                    *reference,
                    *path,
                    auth@,
                    tls,
                );
            assert(tls.contains_key(keys[ca.key@]@));
            assert(tls["ca.crt"@]@ == decode_utf8(data@[ca.key@]@));
        }
    }
}

/// A fetch ends well if the repository could be fetched, and otherwise with the reason.
pub proof fn law_fetch_ends_with_its_outcome(fetch: RepoFetch, outcome: Result<(), String>, r: RepoFetch)
    requires
        call_ensures(RepoFetch::fetched, (fetch, outcome), r),
    ensures
        outcome is Ok ==> r == RepoFetch::Done(Ok(())),
        outcome matches Err(reason) ==> r == RepoFetch::Done(Err(Error::GitrepoAccessError(reason))),
{
}

/// Texts of a secret are given under the names that were asked for; one that is missing or isn't a text
/// is an error that names its key.
pub proof fn law_texts_of_a_secret(
    name: &String,
    keys: &StringMap<String>,
    secret: SecretContent,
    r: Result<StringMap<String>, Error>,
)
    requires
        call_ensures(get_secret_strings, (name, keys, secret), r),
    ensures
        secret matches Err(reason) ==> r == Err::<StringMap<String>, Error>(Error::KubeError(reason)),
        secret matches Ok(None) ==> (r matches Err(Error::SecretDecodingError(text)) && text@
            == "no `data` part in the secret `"@ + name@ + "`"@),
        secret matches Ok(Some(data)) ==> {
            &&& r is Ok == (forall|key: Seq<char>| #[trigger] keys@.contains_key(key) ==> has_text(data@, key))
            &&& r matches Ok(texts) ==> forall|key: Seq<char>| #[trigger]
                keys@.contains_key(key) ==> texts@.contains_key(keys@[key]@)
            &&& r matches Ok(texts) ==> forall|text_name: Seq<char>| #[trigger]
                texts@.contains_key(text_name) ==> exists|key: Seq<char>| #[trigger]
                    keys@.contains_key(key) && keys@[key]@ == text_name && texts@[text_name]@ == decode_utf8(
                        data@[key]@,
                    )
            &&& r matches Err(e) ==> (e matches Error::SecretDecodingError(text) && exists|key: Seq<char>| #[trigger]
                keys@.contains_key(key) && complains_of(text@, key, name@, data@))
        },
{
}

/// Parts of a repository of a namespace.
pub proof fn law_parts_of_a_repository(repo: GitRepo)
    ensures
        repo.the_auth_config() == repo.spec.auth_config,
        repo.the_tls_config() == repo.spec.tls_config,
        repo.the_uri() == repo.spec.repo_uri,
        GitRepo::namespaced(),
{
}

/// Parts of a repository of the cluster.
pub proof fn law_parts_of_a_cluster_repository(repo: ClusterGitRepo)
    ensures
        repo.the_auth_config() == repo.spec.auth_config,
        repo.the_tls_config() == repo.spec.tls_config,
        repo.the_uri() == repo.spec.repo_uri,
        !ClusterGitRepo::namespaced(),
{
}

} // verus!
