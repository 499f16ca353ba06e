//! Validation of repositories, and fetching from them without regard to the scheme.
use super::{ControllerError, SourceState, WarningEvent};
use crate::error::{Error, KubeError};
use crate::resources::git_repo::{
    are_texts_of, asks_for_auth, asks_for_ca, custom_ca, find_text, get_secret_strings, has_all_texts,
    has_auth, is_text_error, lemma_has_auth, no_data_message, text_of, CertificateCheck, Credentials,
    FetchPlan, GitAuthConfig, GitAuthType, GitRepo, GitRepoGetter, GitRepoUriSchema, RepoFetch,
    SecretContent, SecretRequest, TlsConfig,
};
use crate::string_map::StringMap;
use crate::text::{contains_string, has_string, same_str};
use vstd::prelude::*;

verus! {

/// Pattern of a URI in the short form of Git.
pub const GIT_URI_REGEX: &'static str = "^(?P<schema>git)@(?P<host>[\\w.-]+):(?P<owner>[\\w.-]+)/(?P<repo>[/\\w.-]+)$";

/// Pattern of a URI over SSH.
pub const SSH_URI_REGEX: &'static str = "^(?P<schema>ssh)://((?P<username>[\\w.-]+)@)?(?P<host>[\\w.-]+)(:(?P<port>[\\d]{1,5}))?(/(?P<repo>[/\\w.-]+)?)?$";

/// Pattern of a URI over HTTP.
pub const HTTP_URI_REGEX: &'static str = "^(?P<schema>https?)://(?P<host>[\\w.-]+)(:(?P<port>[\\d]{1,5}))?(/(?P<repo>[/%&=\\?\\w.-]+)?)?$";

/// Scheme that a URI has by a regular expression, if it matches.
pub uninterp spec fn captured_schema(pattern: Seq<char>, uri: Seq<char>) -> Option<Seq<char>>;

/// Holds a URI against a pattern with `regex`: the group `schema` of what `Regex::captures` finds. It
/// depends on the pattern and the URI alone. Each of the patterns is a regular expression with that
/// group, in which stands what the pattern has there: `git`, `ssh`, or `http` with or without an `s`.
#[verifier::external_body]
fn capture_schema(pattern: &str, uri: &str) -> (r: Option<String>)
    requires
        pattern@ == GIT_URI_REGEX@ || pattern@ == SSH_URI_REGEX@ || pattern@ == HTTP_URI_REGEX@,
    ensures
        match r {
            Some(schema) => {
                &&& captured_schema(pattern@, uri@) == Some(schema@)
                &&& pattern@ == GIT_URI_REGEX@ ==> schema@ == "git"@
                &&& pattern@ == SSH_URI_REGEX@ ==> schema@ == "ssh"@
                &&& pattern@ == HTTP_URI_REGEX@ ==> schema@ == "http"@ || schema@ == "https"@
            },
            None => captured_schema(pattern@, uri@) is None,
        },
{
    regex::Regex::new(pattern).unwrap().captures(uri).map(|groups| groups["schema"].to_string())
}

/// Name of a scheme.
pub open spec fn schema_name(schema: GitRepoUriSchema) -> Seq<char> {
    match schema {
        GitRepoUriSchema::Http => "http"@,
        GitRepoUriSchema::Https => "https"@,
        GitRepoUriSchema::Ssh => "ssh"@,
        GitRepoUriSchema::Git => "git"@,
    }
}

/// Names a scheme.
pub fn schema_to_string(schema: GitRepoUriSchema) -> (r: String)
    ensures
        r@ == schema_name(schema),
{
    match schema {
        GitRepoUriSchema::Http => "http".to_owned(),
        GitRepoUriSchema::Https => "https".to_owned(),
        GitRepoUriSchema::Ssh => "ssh".to_owned(),
        GitRepoUriSchema::Git => "git".to_owned(),
    }
}

/// Scheme with a name, if there is one.
pub open spec fn schema_named(name: Seq<char>) -> Option<GitRepoUriSchema> {
    if name == "http"@ {
        Some(GitRepoUriSchema::Http)
    } else if name == "https"@ {
        Some(GitRepoUriSchema::Https)
    } else if name == "ssh"@ {
        Some(GitRepoUriSchema::Ssh)
    } else if name == "git"@ {
        Some(GitRepoUriSchema::Git)
    } else {
        None
    }
}

/// Reads the name of a scheme.
pub fn schema_from_str(name: &str) -> (r: Option<GitRepoUriSchema>)
    ensures
        r == schema_named(name@),
{
    if same_str(name, "http") {
        Some(GitRepoUriSchema::Http)
    } else if same_str(name, "https") {
        Some(GitRepoUriSchema::Https)
    } else if same_str(name, "ssh") {
        Some(GitRepoUriSchema::Ssh)
    } else if same_str(name, "git") {
        Some(GitRepoUriSchema::Git)
    } else {
        None
    }
}

/// Every scheme is found by its name.
pub proof fn law_schema_names_round_trip(schema: GitRepoUriSchema)
    ensures
        schema_named(schema_name(schema)) == Some(schema),
{
    reveal_strlit("http");
    reveal_strlit("https");
    reveal_strlit("ssh");
    reveal_strlit("git");
    assert("http"@.len() == 4 && "https"@.len() == 5 && "ssh"@.len() == 3 && "git"@.len() == 3);
    assert("ssh"@[0] != "git"@[0]);
}

/// Scheme of a URI from what the patterns captured: the first that matches decides.
pub open spec fn first_schema(git: Option<Seq<char>>, ssh: Option<Seq<char>>, http: Option<Seq<char>>) -> Option<
    GitRepoUriSchema,
> {
    match (git, ssh, http) {
        (Some(name), _, _) => schema_named(name),
        (None, Some(name), _) => schema_named(name),
        (None, None, Some(name)) => schema_named(name),
        (None, None, None) => None,
    }
}

/// Scheme of a URI that is written as one of the patterns asks.
pub open spec fn validated_schema(uri: Seq<char>) -> Option<GitRepoUriSchema> {
    first_schema(
        captured_schema(GIT_URI_REGEX@, uri),
        captured_schema(SSH_URI_REGEX@, uri),
        captured_schema(HTTP_URI_REGEX@, uri),
    )
}

/// The URI is written as one of the patterns asks.
pub open spec fn matches_a_pattern(uri: Seq<char>) -> bool {
    captured_schema(GIT_URI_REGEX@, uri) is Some || captured_schema(SSH_URI_REGEX@, uri) is Some
        || captured_schema(HTTP_URI_REGEX@, uri) is Some
}

/// Scheme of a repository's URI, if it is written as it should be.
pub fn parse_repo_uri(repo: &GitRepo) -> (r: Result<GitRepoUriSchema, ControllerError>)
    ensures
        match validated_schema(repo.spec.repo_uri@) {
            Some(schema) => r == Ok::<GitRepoUriSchema, ControllerError>(schema),
            None => r == Err::<GitRepoUriSchema, ControllerError>(ControllerError::WrongSourceUri),
        },
        r is Ok == matches_a_pattern(repo.spec.repo_uri@),
{
    let uri = repo.spec.repo_uri.as_str();
    let captured = match capture_schema(GIT_URI_REGEX, uri) {
        Some(name) => Some(name),
        None => match capture_schema(SSH_URI_REGEX, uri) {
            Some(name) => Some(name),
            None => capture_schema(HTTP_URI_REGEX, uri),
        },
    };
    match captured {
        Some(name) => match schema_from_str(name.as_str()) {
            Some(schema) => Ok(schema),
            None => Err(ControllerError::WrongSourceUri),
        },
        None => Err(ControllerError::WrongSourceUri),
    }
}

/// Something to do while a repository is validated. Where it fails, the validation ends with that
/// error.
#[derive(Debug)]
pub enum RepoEffect {
    /// Set the state of the repository.
    UpdateState(SourceState),
    /// Publish a warning.
    Publish(WarningEvent),
}

/// Keys that a secret should have.
#[derive(Debug)]
pub struct SecretCheck {
    /// Name of the secret.
    pub name: String,
    /// Keys that should be in it.
    pub keys: Vec<String>,
}

/// What to do after the effects.
#[derive(Debug)]
pub enum RepoNext {
    /// Check the secret to log in.
    CheckAuthSecret(SecretCheck),
    /// Check the secret with the certificate of the authority.
    CheckTlsSecret(SecretCheck),
    /// Nothing for some seconds.
    Requeue(u64),
    /// Nothing: the repository can't be used.
    Fail(ControllerError),
}

/// Stage of the validation of a repository: effects in their order, and what to do then.
#[derive(Debug)]
pub struct RepoStage {
    /// Effects.
    pub effects: Vec<RepoEffect>,
    /// What to do then.
    pub next: RepoNext,
}

/// Effect without its texts' representation.
pub ghost enum EffectView {
    /// The state of the repository.
    State(SourceState),
    /// Why there is a warning, what is wrong, and what was being done.
    Warning(Seq<char>, Seq<char>, Seq<char>),
}

/// Warning about a source: what is wrong, and what was being done.
pub open spec fn source_warning(note: Seq<char>, action: Seq<char>) -> EffectView {
    EffectView::Warning("ValidateSource"@, note, action)
}

impl View for RepoEffect {
    type V = EffectView;

    open spec fn view(&self) -> EffectView {
        match *self {
            RepoEffect::UpdateState(state) => EffectView::State(state),
            RepoEffect::Publish(event) => EffectView::Warning(
                event.reason@,
                event.note@,
                event.action@,
            ),
        }
    }
}

/// Effects by their views.
pub open spec fn effect_views(effects: Seq<RepoEffect>) -> Seq<EffectView> {
    effects.map_values(|effect: RepoEffect| effect@)
}

fn warning(note: String, action: &str) -> (r: RepoEffect)
    ensures
        r@ == source_warning(note@, action@),
{
    RepoEffect::Publish(
        WarningEvent { reason: "ValidateSource".to_owned(), note, action: action.to_owned() },
    )
}

/// Way to log in and scheme go together.
pub open spec fn compatible(auth_type: GitAuthType, schema: GitRepoUriSchema) -> bool {
    match schema {
        GitRepoUriSchema::Http | GitRepoUriSchema::Https => auth_type == GitAuthType::Basic || auth_type
            == GitAuthType::Token,
        GitRepoUriSchema::Ssh | GitRepoUriSchema::Git => auth_type == GitAuthType::Ssh,
    }
}

/// Name of a way to log in.
pub open spec fn auth_type_name(auth_type: GitAuthType) -> Seq<char> {
    match auth_type {
        GitAuthType::Basic => "basic"@,
        GitAuthType::Token => "token"@,
        GitAuthType::Ssh => "ssh"@,
    }
}

/// Keys that are needed to log in.
pub open spec fn needed_keys(auth: GitAuthConfig) -> Seq<String> {
    match auth.auth_type {
        GitAuthType::Basic => seq![auth.keys.username, auth.keys.password],
        GitAuthType::Token => seq![auth.keys.token],
        GitAuthType::Ssh => seq![auth.keys.private_key],
    }
}

/// Warnings that come first: logging in without TLS isn't safe.
pub open spec fn plaintext_warnings(schema: GitRepoUriSchema) -> Seq<EffectView> {
    if schema == GitRepoUriSchema::Http {
        seq![
            source_warning(
                "Authentication over raw `http` protocol isn`t secure, try to use `https` instead"@,
                "ValidateSourceAuthConfig"@,
            ),
        ]
    } else {
        seq![]
    }
}

/// The stage goes on with the certificate of the authority, if the repository has one and is fetched
/// over TLS. Otherwise the repository can be used, and is looked at again in half an hour.
pub open spec fn goes_to_tls(stage: RepoStage, repo: GitRepo, schema: GitRepoUriSchema, before: Seq<EffectView>) -> bool {
    match custom_ca(repo.spec.tls_config) {
        Some(ca) => if schema == GitRepoUriSchema::Https {
            &&& effect_views(stage.effects@) == before
            &&& stage.next matches RepoNext::CheckTlsSecret(check) && check.name == ca.secret_ref.name
                && check.keys@ == seq![ca.key]
        } else {
            is_ready(stage, before)
        },
        None => is_ready(stage, before),
    }
}

/// The stage says that the repository can be used.
pub open spec fn is_ready(stage: RepoStage, before: Seq<EffectView>) -> bool {
    &&& effect_views(stage.effects@) == before.push(EffectView::State(SourceState::Ready))
    &&& stage.next == RepoNext::Requeue(1800)
}

/// The stage says that the repository can't be used.
pub open spec fn is_rejected(
    stage: RepoStage,
    before: Seq<EffectView>,
    state: SourceState,
    note: Seq<char>,
    action: Seq<char>,
    error: ControllerError,
) -> bool {
    &&& effect_views(stage.effects@) == before.push(EffectView::State(state)).push(
        source_warning(note, action),
    )
    &&& stage.next == RepoNext::Fail(error)
}

/// What is wrong where a way to log in doesn't go with a scheme.
pub open spec fn incompatible_note(auth_type: GitAuthType, schema: GitRepoUriSchema) -> Seq<char> {
    "Auth config is wrong: auth type `"@ + auth_type_name(auth_type) + "` is incompatible with schema `"@
        + schema_name(schema) + "`"@
}

/// The stage is the first of the validation.
pub open spec fn is_first_stage(stage: RepoStage, repo: GitRepo, schema: Option<GitRepoUriSchema>) -> bool {
    match schema {
        None => is_rejected(
            stage,
            seq![],
            SourceState::WrongRepoUriFormat,
            "Wrong repository URI format `"@ + repo.spec.repo_uri@ + "`"@,
            "ValidateGitRepositoryUri"@,
            ControllerError::WrongSourceUri,
        ),
        Some(s) => match repo.spec.auth_config {
            Some(auth) => if compatible(auth.auth_type, s) {
                &&& effect_views(stage.effects@) == plaintext_warnings(s)
                &&& stage.next matches RepoNext::CheckAuthSecret(check) && check.name
                    == auth.secret_ref.name && check.keys@ == needed_keys(auth)
            } else {
                is_rejected(
                    stage,
                    plaintext_warnings(s),
                    SourceState::AuthConfigError,
                    incompatible_note(auth.auth_type, s),
                    "ValidateSourceAuthConfig"@,
                    ControllerError::WrongAuthConfig,
                )
            },
            None => if s == GitRepoUriSchema::Ssh {
                is_rejected(
                    stage,
                    seq![],
                    SourceState::AuthConfigError,
                    "Auth config is required for SSH protocol"@,
                    "ValidateSourceAuthConfig"@,
                    ControllerError::WrongAuthConfig,
                )
            } else {
                goes_to_tls(stage, repo, s, seq![])
            },
        },
    }
}

fn tls_stage(repo: &GitRepo, schema: GitRepoUriSchema, effects: Vec<RepoEffect>) -> (r: RepoStage)
    ensures
        goes_to_tls(r, *repo, schema, effect_views(effects@)),
{
    if schema == GitRepoUriSchema::Https {
        if let Some(config) = &repo.spec.tls_config {
            if let Some(ca) = &config.ca_cert {
                let mut keys: Vec<String> = Vec::new();
                keys.push(ca.key.clone());
                assert(keys@ =~= seq![ca.key]);
                return RepoStage {
                    effects,
                    next: RepoNext::CheckTlsSecret(
                        SecretCheck { name: ca.secret_ref.name.clone(), keys },
                    ),
                };
            }
        }
    }
    ready_stage(effects)
}

fn ready_stage(effects: Vec<RepoEffect>) -> (r: RepoStage)
    ensures
        is_ready(r, effect_views(effects@)),
{
    let mut all = effects;
    all.push(RepoEffect::UpdateState(SourceState::Ready));
    assert(effect_views(all@) =~= effect_views(effects@).push(EffectView::State(SourceState::Ready)));
    RepoStage { effects: all, next: RepoNext::Requeue(1800) }
}

fn rejected_stage(
    effects: Vec<RepoEffect>,
    state: SourceState,
    note: String,
    action: &str,
    error: ControllerError,
) -> (r: RepoStage)
    ensures
        is_rejected(r, effect_views(effects@), state, note@, action@, error),
{
    let mut all = effects;
    all.push(RepoEffect::UpdateState(state));
    let ghost text = note@;
    all.push(warning(note, action));
    assert(effect_views(all@) =~= effect_views(effects@).push(EffectView::State(state)).push(
        source_warning(text, action@),
    ));
    RepoStage { effects: all, next: RepoNext::Fail(error) }
}

/// First stage of the validation, by the scheme of the URI.
pub fn validate(repo: &GitRepo, schema: Option<GitRepoUriSchema>) -> (r: RepoStage)
    ensures
        is_first_stage(r, *repo, schema),
{
    let mut effects: Vec<RepoEffect> = Vec::new();
    assert(effect_views(effects@) =~= seq![]);
    let s = match schema {
        Some(s) => s,
        None => {
            return rejected_stage(
                effects,
                SourceState::WrongRepoUriFormat,
                "Wrong repository URI format `".to_owned().concat(repo.spec.repo_uri.as_str()).concat("`"),
                "ValidateGitRepositoryUri",
                ControllerError::WrongSourceUri,
            );
        },
    };
    match &repo.spec.auth_config {
        Some(auth) => {
            if s == GitRepoUriSchema::Http {
                effects.push(
                    warning(
                        "Authentication over raw `http` protocol isn`t secure, try to use `https` instead".to_owned(),
                        "ValidateSourceAuthConfig",
                    ),
                );
            }
            assert(effect_views(effects@) =~= plaintext_warnings(s));
            let fits: bool = match s {
                GitRepoUriSchema::Http | GitRepoUriSchema::Https => auth.auth_type == GitAuthType::Basic
                    || auth.auth_type == GitAuthType::Token,
                GitRepoUriSchema::Ssh | GitRepoUriSchema::Git => auth.auth_type == GitAuthType::Ssh,
            };
            if !fits {
                return rejected_stage(
                    effects,
                    SourceState::AuthConfigError,
                    "Auth config is wrong: auth type `".to_owned().concat(
                        auth.auth_type.to_string().as_str(),
                    ).concat("` is incompatible with schema `").concat(schema_to_string(s).as_str()).concat(
                        "`",
                    ),
                    "ValidateSourceAuthConfig",
                    ControllerError::WrongAuthConfig,
                );
            }
            let mut keys: Vec<String> = Vec::new();
            match auth.auth_type {
                GitAuthType::Basic => {
                    keys.push(auth.keys.username.clone());
                    keys.push(auth.keys.password.clone());
                },
                GitAuthType::Token => {
                    keys.push(auth.keys.token.clone());
                },
                GitAuthType::Ssh => {
                    keys.push(auth.keys.private_key.clone());
                },
            }
            assert(keys@ =~= needed_keys(*auth));
            RepoStage {
                effects,
                next: RepoNext::CheckAuthSecret(
                    SecretCheck { name: auth.secret_ref.name.clone(), keys },
                ),
            }
        },
        None => if s == GitRepoUriSchema::Ssh {
            rejected_stage(
                effects,
                SourceState::AuthConfigError,
                "Auth config is required for SSH protocol".to_owned(),
                "ValidateSourceAuthConfig",
                ControllerError::WrongAuthConfig,
            )
        } else {
            tls_stage(repo, s, effects)
        },
    }
}

/// Starts to reconcile a repository: validates its URI and how to log in.
pub fn reconcile(repo: &GitRepo) -> (r: RepoStage)
    ensures
        is_first_stage(r, *repo, validated_schema(repo.spec.repo_uri@)),
{
    match parse_repo_uri(repo) {
        Ok(schema) => validate(repo, Some(schema)),
        Err(_) => validate(repo, None),
    }
}

/// Strings with commas between.
pub open spec fn joined(keys: Seq<String>) -> Seq<char>
    decreases keys.len(),
{
    if keys.len() == 0 {
        Seq::empty()
    } else if keys.len() == 1 {
        keys[0]@
    } else {
        joined(keys.drop_last()) + ","@ + keys.last()@
    }
}

fn join_keys(keys: &Vec<String>) -> (r: String)
    ensures
        r@ == joined(keys@),
{
    let mut r = String::new();
    assert(keys@.take(0) =~= Seq::<String>::empty());
    for i in 0..keys.len()
        invariant
            r@ == joined(keys@.take(i as int)),
    {
        let ghost prefix = keys@.take(i + 1);
        assert(prefix.drop_last() =~= keys@.take(i as int));
        assert(prefix.last() == keys@[i as int]);
        if i > 0 {
            r.append(",");
        }
        r.append(keys[i].as_str());
        if i == 0 {
            assert(r@ =~= keys@[0]@);
        }
    }
    assert(keys@.take(keys.len() as int) =~= keys@);
    r
}

/// What may be wrong where a secret doesn't have the keys that it should.
pub open spec fn missing_keys_note(check: SecretCheck) -> Seq<char> {
    "Auth config may be wrong: secret `"@ + check.name@ + "` should exist and contain `"@ + joined(
        check.keys@,
    ) + "` key(s)"@
}

/// Warnings after a secret was checked.
pub open spec fn secret_warnings(check: SecretCheck, good: bool) -> Seq<EffectView> {
    if good {
        seq![]
    } else {
        seq![source_warning(missing_keys_note(check), "ValidateSourceAuthConfig"@)]
    }
}

fn secret_effects(check: &SecretCheck, good: bool) -> (r: Vec<RepoEffect>)
    ensures
        effect_views(r@) == secret_warnings(*check, good),
{
    let mut effects: Vec<RepoEffect> = Vec::new();
    if !good {
        let note = "Auth config may be wrong: secret `".to_owned().concat(check.name.as_str()).concat(
            "` should exist and contain `",
        ).concat(join_keys(&check.keys).as_str()).concat("` key(s)");
        effects.push(warning(note, "ValidateSourceAuthConfig"));
    }
    assert(effect_views(effects@) =~= secret_warnings(*check, good));
    effects
}

/// Goes on after the secret to log in was checked. One that isn't good is worth a warning.
pub fn auth_secret_checked(repo: &GitRepo, schema: GitRepoUriSchema, check: &SecretCheck, good: bool) -> (r: RepoStage)
    ensures
        goes_to_tls(r, *repo, schema, secret_warnings(*check, good)),
{
    tls_stage(repo, schema, secret_effects(check, good))
}

/// Goes on after the secret with the certificate of the authority was checked. One that isn't good is
/// worth a warning.
pub fn tls_secret_checked(check: &SecretCheck, good: bool) -> (r: RepoStage)
    ensures
        is_ready(r, secret_warnings(*check, good)),
{
    ready_stage(secret_effects(check, good))
}

/// Keys of a secret: of its data, and of its data that is written as text.
#[derive(Debug)]
pub struct SecretKeys {
    /// Keys of the data.
    pub data: Option<Vec<String>>,
    /// Keys of the data that is written as text.
    pub string_data: Option<Vec<String>>,
}

/// Every key is there.
pub open spec fn has_all_keys(present: Option<Vec<String>>, keys: Seq<String>) -> bool {
    present matches Some(p) && forall|i: int|
        0 <= i < keys.len() ==> has_string(p@, (#[trigger] keys[i])@)
}

fn contains_all(present: &Option<Vec<String>>, keys: &Vec<String>) -> (r: bool)
    ensures
        r == has_all_keys(*present, keys@),
{
    match present {
        Some(p) => {
            for i in 0..keys.len()
                invariant
                    *present == Some(*p),
                    forall|j: int| 0 <= j < i ==> has_string(p@, (#[trigger] keys@[j])@),
            {
                if !contains_string(p, &keys[i]) {
                    return false;
                }
            }
            true
        },
        None => false,
    }
}

/// Checks whether a secret has all keys that it should, either in its data or in its data that is
/// written as text. `error` is given back where it hasn't.
pub fn check_secret_ref(secret: Result<SecretKeys, KubeError>, keys: &Vec<String>, error: ControllerError) -> (r:
    Result<(), ControllerError>)
    ensures
        match secret {
            Err(e) => r == Err::<(), ControllerError>(ControllerError::KubeError(e)),
            Ok(present) => if has_all_keys(present.data, keys@) || has_all_keys(
                present.string_data,
                keys@,
            ) {
                r is Ok
            } else {
                r == Err::<(), ControllerError>(error)
            },
        },
{
    match secret {
        Err(e) => Err(ControllerError::KubeError(e)),
        Ok(present) => if contains_all(&present.data, keys) || contains_all(&present.string_data, keys) {
            Ok(())
        } else {
            Err(error)
        },
    }
}

/// A repository is never marked ready after a rejection, and never rejected without a warning and a
/// state that says why.
pub proof fn law_rejected_repo_is_not_ready(stage: RepoStage, repo: GitRepo, schema: Option<GitRepoUriSchema>)
    requires
        is_first_stage(stage, repo, schema),
        stage.next is Fail,
    ensures
        !effect_views(stage.effects@).contains(EffectView::State(SourceState::Ready)),
        effect_views(stage.effects@).len() >= 2,
        effect_views(stage.effects@).last() is Warning,
        effect_views(stage.effects@)[effect_views(stage.effects@).len() - 2] is State,
{
    let views = effect_views(stage.effects@);
    if schema is Some {
        let warnings = plaintext_warnings(schema->0);
        assert(forall|i: int| 0 <= i < warnings.len() ==> warnings[i] is Warning);
    }
    assert forall|i: int| 0 <= i < views.len() implies views[i] != EffectView::State(SourceState::Ready) by {}
}

/// A repository over SSH can be used only with a way to log in, and no repository with one that
/// doesn't go with its scheme.
pub proof fn law_unsuitable_login_is_rejected(stage: RepoStage, repo: GitRepo, schema: GitRepoUriSchema)
    requires
        is_first_stage(stage, repo, Some(schema)),
        match repo.spec.auth_config {
            Some(auth) => !compatible(auth.auth_type, schema),
            None => schema == GitRepoUriSchema::Ssh,
        },
    ensures
        stage.next == RepoNext::Fail(ControllerError::WrongAuthConfig),
{
}

/// The credentials are those that the configuration asks for. The user of SSH is the one that the URI
/// names.
pub open spec fn are_plain_credentials(
    credentials: Credentials,
    config: Option<GitAuthConfig>,
    texts: Map<Seq<char>, String>,
) -> bool {
    match config {
        None => credentials is Anonymous,
        Some(c) => match c.auth_type {
            GitAuthType::Basic => credentials matches Credentials::UserPass { username, password }
                && username == (if texts.contains_key("username"@) {
                Some(texts["username"@])
            } else {
                None
            }) && password == texts["password"@],
            GitAuthType::Token => credentials matches Credentials::Header(header) && header@
                == "Authorization: "@ + texts["token"@]@,
            GitAuthType::Ssh => credentials == Credentials::SshKey {
                private_key: texts["private_key"@],
                default_user: None,
            },
        },
    }
}

/// The check is the one that the configuration asks for, whatever the scheme.
pub open spec fn is_plain_certificate_check(
    check: CertificateCheck,
    config: Option<TlsConfig>,
    texts: Map<Seq<char>, String>,
) -> bool {
    match config {
        None => check is Untouched,
        Some(c) => if c.no_verify_ssl {
            check is AcceptAny
        } else if c.ca_cert is Some {
            check == CertificateCheck::CustomCa(texts["ca.crt"@])
        } else {
            check is System
        },
    }
}

/// The plan is how to fetch the latest commit of a reference with what the secrets hold.
pub open spec fn is_plain_plan(
    plan: FetchPlan,
    repo: GitRepo,
    ref_name: String,
    path: String,
    auth: Map<Seq<char>, String>,
    tls: Map<Seq<char>, String>,
) -> bool {
    &&& plan.uri == repo.spec.repo_uri
    &&& plan.reference == ref_name
    &&& plan.path == path
    &&& are_plain_credentials(plan.credentials, repo.spec.auth_config, auth)
    &&& is_plain_certificate_check(plan.certificate_check, repo.spec.tls_config, tls)
    &&& plan.depth == 1
}

fn plain_plan(repo: &GitRepo, ref_name: &String, path: &String, auth: &StringMap<String>, tls: &StringMap<String>) -> (r:
    FetchPlan)
    requires
        has_auth(repo.spec.auth_config, auth@),
        custom_ca(repo.spec.tls_config) is Some ==> tls@.contains_key("ca.crt"@),
    ensures
        is_plain_plan(r, *repo, *ref_name, *path, auth@, tls@),
{
    let credentials: Credentials = match &repo.spec.auth_config {
        None => Credentials::Anonymous,
        Some(config) => match config.auth_type {
            GitAuthType::Basic => Credentials::UserPass {
                username: find_text(auth, "username"),
                password: text_of(auth, "password"),
            },
            GitAuthType::Token => Credentials::Header(
                "Authorization: ".to_owned().concat(text_of(auth, "token").as_str()),
            ),
            GitAuthType::Ssh => Credentials::SshKey {
                private_key: text_of(auth, "private_key"),
                default_user: None,
            },
        },
    };
    let certificate_check: CertificateCheck = match &repo.spec.tls_config {
        None => CertificateCheck::Untouched,
        Some(config) => if config.no_verify_ssl {
            CertificateCheck::AcceptAny
        } else if config.ca_cert.is_some() {
            CertificateCheck::CustomCa(text_of(tls, "ca.crt"))
        } else {
            CertificateCheck::System
        },
    };
    FetchPlan {
        uri: repo.spec.repo_uri.clone(),
        reference: ref_name.clone(),
        path: path.clone(),
        credentials,
        certificate_check,
        depth: 1,
    }
}

/// What to do once it is known how to log in: read the certificate of the authority if there is one,
/// fetch otherwise.
pub open spec fn after_plain_auth(
    fetch: RepoFetch,
    repo: GitRepo,
    ref_name: String,
    path: String,
    auth: Map<Seq<char>, String>,
) -> bool {
    match custom_ca(repo.spec.tls_config) {
        Some(config) => fetch matches RepoFetch::ReadTlsSecret(request, texts) && asks_for_ca(
            request,
            config,
            true,
            repo.metadata.namespace->0@,
        ) && texts@ == auth,
        None => fetch matches RepoFetch::Fetch(plan) && is_plain_plan(
            plan,
            repo,
            ref_name,
            path,
            auth,
            Map::empty(),
        ),
    }
}

fn namespace_of(repo: &GitRepo) -> (r: String)
    ensures
        repo.metadata.namespace is Some ==> Some(r) == repo.metadata.namespace,
{
    match &repo.metadata.namespace {
        Some(namespace) => namespace.clone(),
        None => String::new(),
    }
}

fn with_plain_auth(repo: &GitRepo, ref_name: &String, path: &String, auth: StringMap<String>) -> (r: RepoFetch)
    requires
        custom_ca(repo.spec.tls_config) is Some ==> repo.metadata.namespace is Some,
        has_auth(repo.spec.auth_config, auth@),
    ensures
        after_plain_auth(r, *repo, *ref_name, *path, auth@),
{
    match repo.tls_secret_request(&namespace_of(repo)) {
        Some(request) => RepoFetch::ReadTlsSecret(request, auth),
        None => {
            let none: StringMap<String> = StringMap::new();
            RepoFetch::Fetch(plain_plan(repo, ref_name, path, &auth, &none))
        },
    }
}

/// Starts to fetch a reference of a repository to a folder, with secrets of the repository's
/// namespace. The server's certificate gets the `verdict` of the plan's check.
pub fn fetch_repo_ref(repo: &GitRepo, ref_name: &String, path: &String) -> (r: RepoFetch)
    requires
        repo.spec.auth_config is Some || custom_ca(repo.spec.tls_config) is Some
            ==> repo.metadata.namespace is Some,
    ensures
        match repo.spec.auth_config {
            Some(config) => r matches RepoFetch::ReadAuthSecret(request) && asks_for_auth(
                request,
                config,
                true,
                repo.metadata.namespace->0@,
            ),
            None => after_plain_auth(r, *repo, *ref_name, *path, Map::empty()),
        },
{
    match repo.auth_secret_request(&namespace_of(repo)) {
        Some(request) => RepoFetch::ReadAuthSecret(request),
        None => with_plain_auth(repo, ref_name, path, StringMap::new()),
    }
}

/// Goes on with a fetch after the secret to log in was read, or couldn't be.
pub fn auth_secret_read(
    repo: &GitRepo,
    request: &SecretRequest,
    secret: SecretContent,
    ref_name: &String,
    path: &String,
) -> (r: RepoFetch)
    requires
        repo.metadata.namespace is Some,
        repo.spec.auth_config matches Some(config) && asks_for_auth(
            *request,
            config,
            true,
            repo.metadata.namespace->0@,
        ),
    ensures
        match secret {
            Err(reason) => r == RepoFetch::Done(Err(Error::KubeError(reason))),
            Ok(None) => r matches RepoFetch::Done(Err(Error::SecretDecodingError(text))) && text@
                == no_data_message(request.name@),
            Ok(Some(data)) => if has_all_texts(data@, request.keys@) {
                exists|auth: Map<Seq<char>, String>|
                    are_texts_of(auth, data@, request.keys@) && #[trigger] after_plain_auth(
                        r,
                        *repo,
                        *ref_name,
                        *path,
                        auth,
                    )
            } else {
                r matches RepoFetch::Done(Err(Error::SecretDecodingError(text))) && is_text_error(
                    text@,
                    request.name@,
                    data@,
                    request.keys@,
                )
            },
        },
{
    match get_secret_strings(&request.name, &request.keys, secret) {
        Ok(auth) => {
            proof {
                lemma_has_auth(repo.spec.auth_config->0, *request, auth@, secret->Ok_0->0@);
            }
            with_plain_auth(repo, ref_name, path, auth)
        },
        Err(e) => RepoFetch::Done(Err(e)),
    }
}

/// Goes on with a fetch after the secret with the certificate of the authority was read, or couldn't
/// be.
pub fn tls_secret_read(
    repo: &GitRepo,
    request: &SecretRequest,
    auth: &StringMap<String>,
    secret: SecretContent,
    ref_name: &String,
    path: &String,
) -> (r: RepoFetch)
    requires
        repo.metadata.namespace is Some,
        has_auth(repo.spec.auth_config, auth@),
        custom_ca(repo.spec.tls_config) matches Some(config) && asks_for_ca(
            *request,
            config,
            true,
            repo.metadata.namespace->0@,
        ),
    ensures
        match secret {
            Err(reason) => r == RepoFetch::Done(Err(Error::KubeError(reason))),
            Ok(None) => r matches RepoFetch::Done(Err(Error::SecretDecodingError(text))) && text@
                == no_data_message(request.name@),
            Ok(Some(data)) => if has_all_texts(data@, request.keys@) {
                exists|tls: Map<Seq<char>, String>|
                    are_texts_of(tls, data@, request.keys@) && r is Fetch && #[trigger] is_plain_plan(
                        r->Fetch_0,
                        *repo,
                        *ref_name,
                        *path,
                        auth@,
                        tls,
                    )
            } else {
                r matches RepoFetch::Done(Err(Error::SecretDecodingError(text))) && is_text_error(
                    text@,
                    request.name@,
                    data@,
                    request.keys@,
                )
            },
        },
{
    match get_secret_strings(&request.name, &request.keys, secret) {
        Ok(tls) => {
            proof {
                let config = custom_ca(repo.spec.tls_config)->0;
                let names = crate::text::text_map(request.keys@);
                assert(names.contains_key(config.key@));
                assert(request.keys@.contains_key(config.key@));
                assert(names[config.key@] == "ca.crt"@);
            }
            RepoFetch::Fetch(plain_plan(repo, ref_name, path, auth, &tls))
        },
        Err(e) => RepoFetch::Done(Err(e)),
    }
}

} // verus!
