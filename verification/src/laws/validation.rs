//! Validation of repositories, and fetching from them without regard to the scheme.
use crate::controllers::git_repo::{
    auth_secret_checked, auth_secret_read, captured_schema, check_secret_ref, effect_views, fetch_repo_ref, joined,
    parse_repo_uri, reconcile, schema_from_str, schema_to_string, tls_secret_checked, tls_secret_read, validate,
    RepoEffect, RepoNext, RepoStage, SecretCheck, SecretKeys, GIT_URI_REGEX, HTTP_URI_REGEX, SSH_URI_REGEX,
};
use crate::controllers::{ControllerError, SourceState};
use crate::error::{Error, KubeError};
use crate::resources::git_repo::{
    CertificateCheck, Credentials, GitAuthConfig, GitAuthType, GitRepo, GitRepoUriSchema, RepoFetch, SecretContent,
    SecretRequest, TlsCaConfig, TlsConfig,
};
use crate::string_map::StringMap;
use crate::text::{text_map, views};
use vstd::prelude::*;
use vstd::utf8::{decode_utf8, valid_utf8};

use super::basics::joined_with;
use super::repos::{
    complains_of, has_text, is_ca_request, is_login_request, lemma_keys, lemma_texts, named_ca, wanted_login,
};

verus! {

/// Name of a scheme.
pub open spec fn scheme_text(schema: GitRepoUriSchema) -> Seq<char> {
    match schema {
        GitRepoUriSchema::Http => "http"@,
        GitRepoUriSchema::Https => "https"@,
        GitRepoUriSchema::Ssh => "ssh"@,
        GitRepoUriSchema::Git => "git"@,
    }
}

/// A scheme is read from its name, and from nothing else.
pub proof fn law_schemes_are_named(schema: GitRepoUriSchema, name: String, text: &str, r: Option<GitRepoUriSchema>)
    requires
        call_ensures(schema_to_string, (schema,), name),
        call_ensures(schema_from_str, (text,), r),
    ensures
        name@ == scheme_text(schema),
        r matches Some(found) ==> scheme_text(found) == text@,
        text@ == name@ ==> r == Some(schema),
{
    reveal_strlit("http");
    reveal_strlit("https");
    reveal_strlit("ssh");
    reveal_strlit("git");
    assert("http"@.len() == 4 && "https"@.len() == 5 && "ssh"@.len() == 3 && "git"@.len() == 3);
    assert("ssh"@[0] != "git"@[0]);
}

/// The scheme of a repository is what its URI has in the first pattern that it matches. A URI that
/// matches none is an error.
pub proof fn law_first_pattern_tells_the_scheme(repo: &GitRepo, r: Result<GitRepoUriSchema, ControllerError>)
    requires
        call_ensures(parse_repo_uri, (repo,), r),
    ensures
        ({
            let uri = repo.spec.repo_uri@;
            let git = captured_schema(GIT_URI_REGEX@, uri);
            let ssh = captured_schema(SSH_URI_REGEX@, uri);
            let http = captured_schema(HTTP_URI_REGEX@, uri);
            &&& r is Ok == (git is Some || ssh is Some || http is Some)
            &&& r matches Ok(schema) ==> (if git is Some {
                git == Some(scheme_text(schema))
            } else if ssh is Some {
                ssh == Some(scheme_text(schema))
            } else {
                http == Some(scheme_text(schema))
            })
            &&& r matches Err(e) ==> e == ControllerError::WrongSourceUri
        }),
{
}

/// Patterns of URIs.
pub proof fn law_patterns_of_uris()
    ensures
        GIT_URI_REGEX@ == "^(?P<schema>git)@(?P<host>[\\w.-]+):(?P<owner>[\\w.-]+)/(?P<repo>[/\\w.-]+)$"@,
        SSH_URI_REGEX@
            == "^(?P<schema>ssh)://((?P<username>[\\w.-]+)@)?(?P<host>[\\w.-]+)(:(?P<port>[\\d]{1,5}))?(/(?P<repo>[/\\w.-]+)?)?$"@,
        HTTP_URI_REGEX@
            == "^(?P<schema>https?)://(?P<host>[\\w.-]+)(:(?P<port>[\\d]{1,5}))?(/(?P<repo>[/%&=\\?\\w.-]+)?)?$"@,
{
}

/// The effect sets the state.
pub open spec fn sets(effect: RepoEffect, state: SourceState) -> bool {
    effect matches RepoEffect::UpdateState(s) && s == state
}

/// The effect warns.
pub open spec fn warns(effect: RepoEffect, note: Seq<char>, action: Seq<char>) -> bool {
    effect matches RepoEffect::Publish(event) && event.reason@ == "ValidateSource"@ && event.note@ == note
        && event.action@ == action
}

/// The stage ends the validation behind some effects: the repository can be used, and is looked at again
/// after half an hour.
pub open spec fn ends_well(stage: RepoStage, n: int) -> bool {
    &&& stage.effects@.len() == n + 1
    &&& sets(stage.effects@[n], SourceState::Ready)
    &&& stage.next matches RepoNext::Requeue(secs) && secs == 1800
}

/// The stage ends the validation behind some effects: the repository can't be used.
pub open spec fn ends_badly(
    stage: RepoStage,
    n: int,
    state: SourceState,
    note: Seq<char>,
    action: Seq<char>,
    error: ControllerError,
) -> bool {
    &&& stage.effects@.len() == n + 2
    &&& sets(stage.effects@[n], state)
    &&& warns(stage.effects@[n + 1], note, action)
    &&& stage.next == RepoNext::Fail(error)
}

/// Behind some effects the stage checks the authority if the repository is fetched over TLS and names
/// one, and ends well otherwise.
pub open spec fn checks_authority(stage: RepoStage, n: int, repo: GitRepo, schema: GitRepoUriSchema) -> bool {
    if schema == GitRepoUriSchema::Https && named_ca(repo) is Some {
        let ca = named_ca(repo)->0;
        &&& stage.effects@.len() == n
        &&& stage.next matches RepoNext::CheckTlsSecret(check) && check.name@ == ca.secret_ref.name@
            && check.keys@.len() == 1 && check.keys@[0]@ == ca.key@
    } else {
        ends_well(stage, n)
    }
}

/// Keys of a login.
pub open spec fn are_login_keys(keys: Seq<String>, auth: GitAuthConfig) -> bool {
    match auth.auth_type {
        GitAuthType::Basic => keys.len() == 2 && keys[0]@ == auth.keys.username@ && keys[1]@
            == auth.keys.password@,
        GitAuthType::Token => keys.len() == 1 && keys[0]@ == auth.keys.token@,
        GitAuthType::Ssh => keys.len() == 1 && keys[0]@ == auth.keys.private_key@,
    }
}

/// Name of a way to log in.
pub open spec fn login_text(auth_type: GitAuthType) -> Seq<char> {
    match auth_type {
        GitAuthType::Basic => "basic"@,
        GitAuthType::Token => "token"@,
        GitAuthType::Ssh => "ssh"@,
    }
}

/// A repository is validated by its scheme: keys of SSH are for SSH alone, names, passwords and tokens
/// for HTTP alone, and SSH isn't used without logging in. Logging in over HTTP without TLS is worth a
/// warning.
pub open spec fn is_validated(stage: RepoStage, repo: GitRepo, schema: Option<GitRepoUriSchema>) -> bool {
    match (schema, repo.spec.auth_config) {
        (None, _) => ends_badly(
            stage,
            0,
            SourceState::WrongRepoUriFormat,
            "Wrong repository URI format `"@ + repo.spec.repo_uri@ + "`"@,
            "ValidateGitRepositoryUri"@,
            ControllerError::WrongSourceUri,
        ),
        (Some(s), None) => if s == GitRepoUriSchema::Ssh {
            ends_badly(
                stage,
                0,
                SourceState::AuthConfigError,
                "Auth config is required for SSH protocol"@,
                "ValidateSourceAuthConfig"@,
                ControllerError::WrongAuthConfig,
            )
        } else {
            checks_authority(stage, 0, repo, s)
        },
        (Some(s), Some(auth)) => {
            let n: int = if s == GitRepoUriSchema::Http {
                1
            } else {
                0
            };
            let over_ssh = s == GitRepoUriSchema::Ssh || s == GitRepoUriSchema::Git;
            &&& n == 1 ==> stage.effects@.len() >= 1 && warns(
                stage.effects@[0],
                "Authentication over raw `http` protocol isn`t secure, try to use `https` instead"@,
                "ValidateSourceAuthConfig"@,
            )
            &&& if over_ssh == (auth.auth_type == GitAuthType::Ssh) {
                &&& stage.effects@.len() == n
                &&& stage.next matches RepoNext::CheckAuthSecret(check) && check.name@ == auth.secret_ref.name@
                    && are_login_keys(check.keys@, auth)
            } else {
                ends_badly(
                    stage,
                    n,
                    SourceState::AuthConfigError,
                    "Auth config is wrong: auth type `"@ + login_text(auth.auth_type)
                        + "` is incompatible with schema `"@ + scheme_text(s) + "`"@,
                    "ValidateSourceAuthConfig"@,
                    ControllerError::WrongAuthConfig,
                )
            }
        },
    }
}

proof fn lemma_effects(effects: Seq<RepoEffect>)
    ensures
        effect_views(effects).len() == effects.len(),
        forall|i: int| 0 <= i < effects.len() ==> #[trigger] effect_views(effects)[i] == effects[i]@,
{
}

/// A repository is validated by its scheme.
pub proof fn law_repository_is_validated(repo: &GitRepo, schema: Option<GitRepoUriSchema>, r: RepoStage)
    requires
        call_ensures(validate, (repo, schema), r),
    ensures
        is_validated(r, *repo, schema),
{
    let all = effect_views(r.effects@);
    lemma_effects(r.effects@);
    assert(r.effects@.len() > 0 ==> all[0] == r.effects@[0]@);
    assert(r.effects@.len() > 1 ==> all[1] == r.effects@[1]@);
    assert(r.effects@.len() > 2 ==> all[2] == r.effects@[2]@);
}

/// A repository is reconciled by validating it with the scheme of its URI.
pub proof fn law_repository_is_reconciled(
    repo: &GitRepo,
    parsed: Result<GitRepoUriSchema, ControllerError>,
    r: RepoStage,
)
    requires
        call_ensures(parse_repo_uri, (repo,), parsed),
        call_ensures(reconcile, (repo,), r),
    ensures
        is_validated(
            r,
            *repo,
            match parsed {
                Ok(schema) => Some(schema),
                Err(_) => None,
            },
        ),
{
    let all = effect_views(r.effects@);
    lemma_effects(r.effects@);
    assert(r.effects@.len() > 0 ==> all[0] == r.effects@[0]@);
    assert(r.effects@.len() > 1 ==> all[1] == r.effects@[1]@);
    assert(r.effects@.len() > 2 ==> all[2] == r.effects@[2]@);
}

/// The warning of a secret that isn't as it should be.
pub open spec fn warns_of_secret(effect: RepoEffect, check: SecretCheck) -> bool {
    warns(
        effect,
        "Auth config may be wrong: secret `"@ + check.name@ + "` should exist and contain `"@ + joined_with(
            views(check.keys@),
            ',',
        ) + "` key(s)"@,
        "ValidateSourceAuthConfig"@,
    )
}

proof fn lemma_joined(keys: Seq<String>)
    ensures
        joined(keys) == joined_with(views(keys), ','),
    decreases keys.len(),
{
    reveal_strlit(",");
    if keys.len() > 1 {
        lemma_joined(keys.drop_last());
        assert(views(keys).drop_last() =~= views(keys.drop_last()));
        assert(views(keys).last() == keys.last()@);
        let head = joined(keys.drop_last());
        assert(head + ","@ =~= head.push(','));
    }
}

/// A login that isn't as it should be is worth a warning, and doesn't keep the repository from being
/// used. The authority is next.
pub proof fn law_missing_login_is_worth_a_warning(
    repo: &GitRepo,
    schema: GitRepoUriSchema,
    check: &SecretCheck,
    good: bool,
    r: RepoStage,
)
    requires
        call_ensures(auth_secret_checked, (repo, schema, check, good), r),
    ensures
        good ==> checks_authority(r, 0, *repo, schema),
        !good ==> r.effects@.len() >= 1 && warns_of_secret(r.effects@[0], *check) && checks_authority(
            r,
            1,
            *repo,
            schema,
        ),
{
    let all = effect_views(r.effects@);
    lemma_effects(r.effects@);
    lemma_joined(check.keys@);
    assert(r.effects@.len() > 0 ==> all[0] == r.effects@[0]@);
    assert(r.effects@.len() > 1 ==> all[1] == r.effects@[1]@);
}

/// An authority that isn't as it should be is worth a warning, and doesn't keep the repository from being
/// used.
pub proof fn law_missing_authority_is_worth_a_warning(check: &SecretCheck, good: bool, r: RepoStage)
    requires
        call_ensures(tls_secret_checked, (check, good), r),
    ensures
        good ==> ends_well(r, 0),
        !good ==> ends_well(r, 1) && warns_of_secret(r.effects@[0], *check),
{
    let all = effect_views(r.effects@);
    lemma_effects(r.effects@);
    lemma_joined(check.keys@);
    assert(r.effects@.len() > 0 ==> all[0] == r.effects@[0]@);
    assert(r.effects@.len() > 1 ==> all[1] == r.effects@[1]@);
}

/// The key is among those that are there.
pub open spec fn is_there(key: Seq<char>, present: Seq<String>) -> bool {
    exists|i: int| 0 <= i < present.len() && (#[trigger] present[i])@ == key
}

/// Every key is among those that are there.
pub open spec fn all_there(keys: Seq<String>, present: Option<Vec<String>>) -> bool {
    present is Some && forall|i: int| 0 <= i < keys.len() ==> is_there((#[trigger] keys[i])@, present->0@)
}

/// A secret is as it should be if all keys are in its data, or all are in what is written as text. One
/// that isn't gives the caller's error, and one that can't be read that of the API.
pub proof fn law_secret_has_all_keys_in_one_place(
    secret: Result<SecretKeys, KubeError>,
    keys: &Vec<String>,
    error: ControllerError,
    r: Result<(), ControllerError>,
)
    requires
        call_ensures(check_secret_ref, (secret, keys, error), r),
    ensures
        secret matches Err(e) ==> r == Err::<(), ControllerError>(ControllerError::KubeError(e)),
        secret matches Ok(present) ==> r is Ok == (all_there(keys@, present.data) || all_there(
            keys@,
            present.string_data,
        )),
        secret is Ok && r is Err ==> r->Err_0 == error,
{
    if let Ok(present) = secret {
        lemma_all_there(keys@, present.data);
        lemma_all_there(keys@, present.string_data);
    }
}

proof fn lemma_all_there(keys: Seq<String>, present: Option<Vec<String>>)
    ensures
        all_there(keys, present) == crate::controllers::git_repo::has_all_keys(present, keys),
{
    if let Some(list) = present {
        assert forall|key: Seq<char>| is_there(key, list@) == #[trigger] crate::text::has_string(list@, key) by {
            if is_there(key, list@) {
                let i = choose|i: int| 0 <= i < list@.len() && (#[trigger] list@[i])@ == key;
                assert(list@[i]@ == key);
            }
        }
    }
}

/// Certificates are checked as the configuration says, whatever the scheme.
pub open spec fn is_checked_anyway(check: CertificateCheck, config: Option<TlsConfig>, authority: Seq<char>) -> bool {
    match config {
        None => check is Untouched,
        Some(c) => {
            &&& check is AcceptAny == c.no_verify_ssl
            &&& !c.no_verify_ssl && c.ca_cert is Some ==> (check matches CertificateCheck::CustomCa(text) && text@
                == authority)
            &&& !c.no_verify_ssl && c.ca_cert is None ==> check is System
        },
    }
}

/// The credentials are made of what the secret holds under the repository's keys. The URI names the user
/// of SSH.
pub open spec fn logs_in_plainly(
    credentials: Credentials,
    config: GitAuthConfig,
    data: Map<Seq<char>, Vec<u8>>,
) -> bool {
    match config.auth_type {
        GitAuthType::Basic => credentials matches Credentials::UserPass { username, password } && password@
            == decode_utf8(data[config.keys.password@]@) && (if config.keys.username@
            == config.keys.password@ {
            username is None
        } else {
            username matches Some(name) && name@ == decode_utf8(data[config.keys.username@]@)
        }),
        GitAuthType::Token => credentials matches Credentials::Header(header) && header@ == "Authorization: "@
            + decode_utf8(data[config.keys.token@]@),
        GitAuthType::Ssh => credentials matches Credentials::SshKey { private_key, default_user } && private_key@
            == decode_utf8(data[config.keys.private_key@]@) && default_user is None,
    }
}

/// The login is read first, then the authority, from secrets of the repository's namespace. Where there
/// is neither, the last commit is fetched without logging in.
pub proof fn law_plain_fetch_reads_secrets_first(repo: &GitRepo, reference: &String, path: &String, r: RepoFetch)
    requires
        call_ensures(fetch_repo_ref, (repo, reference, path), r),
    ensures
        match (repo.spec.auth_config, named_ca(*repo)) {
            (Some(config), _) => r matches RepoFetch::ReadAuthSecret(request) && is_login_request(
                request,
                config,
                true,
                repo.metadata.namespace->0@,
            ),
            (None, Some(ca)) => r matches RepoFetch::ReadTlsSecret(request, _) && is_ca_request(
                request,
                ca,
                true,
                repo.metadata.namespace->0@,
            ),
            (None, None) => r matches RepoFetch::Fetch(plan) && plan.uri == repo.spec.repo_uri && plan.reference
                == *reference && plan.path == *path && plan.credentials is Anonymous && is_checked_anyway(
                plan.certificate_check,
                repo.spec.tls_config,
                Seq::empty(),
            ) && plan.depth == 1,
        },
{
    match (repo.spec.auth_config, named_ca(*repo)) {
        (Some(config), _) => {
            lemma_keys(r->ReadAuthSecret_0.keys@, wanted_login(config));
        },
        (None, Some(ca)) => {
            lemma_keys(r->ReadTlsSecret_0.keys@, Map::<Seq<char>, Seq<char>>::empty().insert(ca.key@, "ca.crt"@));
        },
        _ => {},
    }
}

/// With the login that a secret holds, the last commit is fetched, or the authority is read if there is
/// one. A secret that can't be read, is empty, or lacks a text ends the fetch with an error.
pub proof fn law_plain_login_comes_from_the_secret(
    repo: &GitRepo,
    config: GitAuthConfig,
    request: &SecretRequest,
    secret: SecretContent,
    reference: &String,
    path: &String,
    r: RepoFetch,
)
    requires
        repo.spec.auth_config == Some(config),
        call_ensures(auth_secret_read, (repo, request, secret, reference, path), r),
        text_map(request.keys@) == wanted_login(config),
    ensures
        secret matches Err(reason) ==> r == RepoFetch::Done(Err(Error::KubeError(reason))),
        secret matches Ok(None) ==> (r matches RepoFetch::Done(Err(Error::SecretDecodingError(text))) && text@
            == "no `data` part in the secret `"@ + request.name@ + "`"@),
        secret matches Ok(Some(data)) ==> {
            let complete = forall|key: Seq<char>|
                wanted_login(config).contains_key(key) ==> #[trigger] has_text(data@, key);
            &&& complete && named_ca(*repo) is None ==> (r matches RepoFetch::Fetch(plan) && plan.uri
                == repo.spec.repo_uri && plan.reference == *reference && plan.path == *path && logs_in_plainly(
                plan.credentials,
                config,
                data@,
            ) && is_checked_anyway(plan.certificate_check, repo.spec.tls_config, Seq::empty()) && plan.depth == 1)
            &&& complete && named_ca(*repo) is Some ==> (r matches RepoFetch::ReadTlsSecret(next, login)
                && is_ca_request(next, named_ca(*repo)->0, true, repo.metadata.namespace->0@) && holds_login(
                login@,
                config,
                data@,
            ))
            &&& !complete ==> (r matches RepoFetch::Done(Err(Error::SecretDecodingError(text))) && exists|key: Seq<
                char,
            >| #[trigger]
                wanted_login(config).contains_key(key) && complains_of(text@, key, request.name@, data@))
        },
{
    lemma_keys(request.keys@, wanted_login(config));
    if let Ok(Some(data)) = secret {
        let keys = request.keys@;
        let complete = forall|key: Seq<char>|
            wanted_login(config).contains_key(key) ==> #[trigger] has_text(data@, key);
        if complete {
            assert forall|key: Seq<char>| #[trigger] keys.contains_key(key) implies data@.contains_key(key)
                && valid_utf8(data@[key]@) by {
                assert(has_text(data@, key));
            }
            let auth = choose|auth: Map<Seq<char>, String>|
                crate::resources::git_repo::are_texts_of(auth, data@, keys)
                    && #[trigger] crate::controllers::git_repo::after_plain_auth(r, *repo, *reference, *path, auth);
            lemma_texts(auth, data@, keys, config);
            if let Some(ca) = named_ca(*repo) {
                lemma_keys(
                    r->ReadTlsSecret_0.keys@,
                    Map::<Seq<char>, Seq<char>>::empty().insert(ca.key@, "ca.crt"@),
                );
            }
        } else {
            let key = choose|key: Seq<char>|
                wanted_login(config).contains_key(key) && !(#[trigger] has_text(data@, key));
            assert(keys.contains_key(key));
            let text = r->Done_0->Err_0->SecretDecodingError_0@;
            let bad = choose|bad: Seq<char>| #[trigger]
                keys.contains_key(bad) && complains_of(text, bad, request.name@, data@);
            assert(wanted_login(config).contains_key(bad));
        }
    }
}

/// The texts are what the secret holds for the login.
pub open spec fn holds_login(
    login: Map<Seq<char>, String>,
    config: GitAuthConfig,
    data: Map<Seq<char>, Vec<u8>>,
) -> bool {
    match config.auth_type {
        GitAuthType::Basic => login["password"@]@ == decode_utf8(data[config.keys.password@]@)
            && login.contains_key("username"@) == (config.keys.username@ != config.keys.password@) && (
        config.keys.username@ != config.keys.password@ ==> login["username"@]@ == decode_utf8(
            data[config.keys.username@]@,
        )),
        GitAuthType::Token => login["token"@]@ == decode_utf8(data[config.keys.token@]@),
        GitAuthType::Ssh => login["private_key"@]@ == decode_utf8(data[config.keys.private_key@]@),
    }
}

/// The credentials are made of the texts of the login.
pub open spec fn uses_login(
    credentials: Credentials,
    config: Option<GitAuthConfig>,
    login: Map<Seq<char>, String>,
) -> bool {
    match config {
        None => credentials is Anonymous,
        Some(c) => match c.auth_type {
            GitAuthType::Basic => credentials matches Credentials::UserPass { username, password } && password
                == login["password"@] && username is Some == login.contains_key("username"@) && (username is Some
                ==> username->0 == login["username"@]),
            GitAuthType::Token => credentials matches Credentials::Header(header) && header@
                == "Authorization: "@ + login["token"@]@,
            GitAuthType::Ssh => credentials matches Credentials::SshKey { private_key, default_user }
                && private_key == login["private_key"@] && default_user is None,
        },
    }
}

/// With the authority that a secret holds, and the login that was read before, the last commit is
/// fetched.
pub proof fn law_plain_authority_comes_from_the_secret(
    repo: &GitRepo,
    ca: TlsCaConfig,
    request: &SecretRequest,
    auth: &StringMap<String>,
    secret: SecretContent,
    reference: &String,
    path: &String,
    r: RepoFetch,
)
    requires
        named_ca(*repo) == Some(ca),
        call_ensures(tls_secret_read, (repo, request, auth, secret, reference, path), r),
        text_map(request.keys@) == Map::<Seq<char>, Seq<char>>::empty().insert(ca.key@, "ca.crt"@),
    ensures
        secret matches Err(reason) ==> r == RepoFetch::Done(Err(Error::KubeError(reason))),
        secret matches Ok(None) ==> (r matches RepoFetch::Done(Err(Error::SecretDecodingError(text))) && text@
            == "no `data` part in the secret `"@ + request.name@ + "`"@),
        secret matches Ok(Some(data)) ==> {
            &&& has_text(data@, ca.key@) ==> (r matches RepoFetch::Fetch(plan) && plan.uri == repo.spec.repo_uri
                && plan.reference == *reference && plan.path == *path && uses_login(
                plan.credentials,
                repo.spec.auth_config,
                auth@,
            ) && is_checked_anyway(
                plan.certificate_check,
                repo.spec.tls_config,
                decode_utf8(data@[ca.key@]@),
            ) && plan.depth == 1)
            &&& !has_text(data@, ca.key@) ==> (r matches RepoFetch::Done(Err(Error::SecretDecodingError(text)))
                && complains_of(text@, ca.key@, request.name@, data@))
        },
{
    lemma_keys(request.keys@, Map::<Seq<char>, Seq<char>>::empty().insert(ca.key@, "ca.crt"@));
    if let Ok(Some(data)) = secret {
        let keys = request.keys@;
        assert(keys.contains_key(ca.key@));
        if has_text(data@, ca.key@) {
            let tls = choose|tls: Map<Seq<char>, String>|
                crate::resources::git_repo::are_texts_of(tls, data@, keys) && r is Fetch
                    && #[trigger] crate::controllers::git_repo::is_plain_plan(
                    r->Fetch_0,
                    *repo,
                    *reference,
                    *path,
                    auth@,
                    tls,
                );
            assert(tls.contains_key(keys[ca.key@]@));
            assert(tls["ca.crt"@]@ == decode_utf8(data@[ca.key@]@));
        }
    }
}

} // verus!
