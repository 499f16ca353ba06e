//! Git repositories: the sources of triggers.
use super::{CustomApiResource, ObjectMeta};
use crate::error::{Error, KubeError};
use crate::string_map::StringMap;
use crate::text::{begins_with, copy_bytes, opt_view, starts_with, string_from_utf8, text_map};
use vstd::prelude::*;
use vstd::utf8::{decode_utf8, valid_utf8};

verus! {

/// Repository of a namespace.
#[derive(Debug)]
pub struct GitRepo {
    /// Metadata.
    pub metadata: ObjectMeta,
    /// Where the repository is, and how to get at it.
    pub spec: GitRepoSpec,
}

/// Where a repository is, and how to get at it.
#[derive(Debug)]
pub struct GitRepoSpec {
    /// Full URI of the repository.
    pub repo_uri: String,
    /// How to check the server's certificate.
    pub tls_config: Option<TlsConfig>,
    /// How to log in.
    pub auth_config: Option<GitAuthConfig>,
}

/// Repository of the whole cluster.
#[derive(Debug)]
pub struct ClusterGitRepo {
    /// Metadata.
    pub metadata: ObjectMeta,
    /// Where the repository is, and how to get at it.
    pub spec: ClusterGitRepoSpec,
}

/// Where a repository of the cluster is, and how to get at it.
#[derive(Debug)]
pub struct ClusterGitRepoSpec {
    /// Full URI of the repository.
    pub repo_uri: String,
    /// How to check the server's certificate.
    pub tls_config: Option<TlsConfig>,
    /// How to log in.
    pub auth_config: Option<GitAuthConfig>,
}

/// How to check a server's certificate.
#[derive(Debug)]
pub struct TlsConfig {
    /// Don't check it.
    pub no_verify_ssl: bool,
    /// Authority to trust besides those that the system trusts.
    pub ca_cert: Option<TlsCaConfig>,
}

impl Default for TlsConfig {
    fn default() -> (r: Self)
        ensures
            !r.no_verify_ssl,
            r.ca_cert is None,
    {
        TlsConfig { no_verify_ssl: false, ca_cert: None }
    }
}

/// Certificate of an authority.
#[derive(Debug)]
pub struct TlsCaConfig {
    /// Secret that holds the certificate.
    pub secret_ref: SecretRef,
    /// Key of the certificate in the secret.
    pub key: String,
}

impl TlsCaConfig {
    /// Key of a certificate where none is given.
    pub fn default_ca_data_key() -> (r: String)
        ensures
            r@ == "ca.crt"@,
    {
        "ca.crt".to_owned()
    }
}

/// How to log in.
#[derive(Debug)]
pub struct GitAuthConfig {
    /// Way to log in.
    pub auth_type: GitAuthType,
    /// Secret that holds what is needed.
    pub secret_ref: SecretRef,
    /// Keys in the secret.
    pub keys: GitAuthSecretKeys,
}

/// Way to log in.
#[derive(Clone, Copy, Debug, PartialEq, Eq, Structural)]
pub enum GitAuthType {
    /// With a name and a password.
    Basic,
    /// With a token in the header `Authorization`.
    Token,
    /// With a private key of SSH.
    Ssh,
}

impl GitAuthType {
    /// Names the way to log in.
    pub fn to_string(&self) -> (r: String)
        ensures
            r@ == match *self {
                GitAuthType::Basic => "basic"@,
                GitAuthType::Token => "token"@,
                GitAuthType::Ssh => "ssh"@,
            },
    {
        match self {
            GitAuthType::Basic => "basic".to_owned(),
            GitAuthType::Token => "token".to_owned(),
            GitAuthType::Ssh => "ssh".to_owned(),
        }
    }
}

/// Keys in the secret of a login.
#[derive(Debug)]
pub struct GitAuthSecretKeys {
    /// Key of the name.
    pub username: String,
    /// Key of the password.
    pub password: String,
    /// Key of the token.
    pub token: String,
    /// Key of the private key.
    pub private_key: String,
}

impl Default for GitAuthSecretKeys {
    fn default() -> (r: Self)
        ensures
            r.username@ == "username"@,
            r.password@ == "password"@,
            r.token@ == "token"@,
            r.private_key@ == "ssh-privatekey"@,
    {
        GitAuthSecretKeys {
            username: "username".to_owned(),
            password: "password".to_owned(),
            token: "token".to_owned(),
            private_key: "ssh-privatekey".to_owned(),
        }
    }
}

/// Reference to a secret.
#[derive(Debug)]
pub struct SecretRef {
    /// Name of the secret.
    pub name: String,
    /// Namespace of the secret, for repositories of the cluster.
    pub namespace: Option<String>,
}

/// Scheme of a repository's URI.
#[derive(Clone, Copy, Debug, PartialEq, Eq, Structural)]
pub enum GitRepoUriSchema {
    /// HTTP.
    Http,
    /// HTTP over TLS.
    Https,
    /// SSH.
    Ssh,
    /// SSH in the short form of Git.
    Git,
}

/// Scheme of a URI, if it is one of those that can be fetched from.
pub open spec fn schema_of(uri: Seq<char>) -> Option<GitRepoUriSchema> {
    if begins_with(uri, "http://"@) {
        Some(GitRepoUriSchema::Http)
    } else if begins_with(uri, "https://"@) {
        Some(GitRepoUriSchema::Https)
    } else if begins_with(uri, "ssh://"@) {
        Some(GitRepoUriSchema::Ssh)
    } else if begins_with(uri, "git@"@) {
        Some(GitRepoUriSchema::Git)
    } else {
        None
    }
}

/// Values of a secret to read.
#[derive(Debug)]
pub struct SecretRequest {
    /// Name of the secret.
    pub name: String,
    /// Namespace of the secret.
    pub namespace: String,
    /// Keys in the secret, and the names under which their values are used.
    pub keys: StringMap<String>,
}

/// What a secret holds: nothing, or bytes for each of its keys. Or the reason why it can't be read.
pub type SecretContent = Result<Option<StringMap<Vec<u8>>>, KubeError>;

/// How to log in to a repository.
#[derive(Debug)]
pub enum Credentials {
    /// Without anything.
    Anonymous,
    /// With a name and a password. There is no name where both have the same key in the secret.
    UserPass {
        /// The name.
        username: Option<String>,
        /// The password.
        password: String,
    },
    /// With a header.
    Header(String),
    /// With a private key of SSH, for the user that the URI names.
    SshKey {
        /// The private key.
        private_key: String,
        /// User where the URI names none.
        default_user: Option<String>,
    },
}

/// How to check the certificate of a repository's server. What becomes of a certificate is its
/// `verdict`.
#[derive(Debug)]
pub enum CertificateCheck {
    /// As the Git library does.
    Untouched,
    /// Every certificate is good.
    AcceptAny,
    /// Certificates of this authority are good besides those that the system trusts.
    CustomCa(String),
    /// As the system does.
    System,
}

/// How to fetch a reference of a repository.
#[derive(Debug)]
pub struct FetchPlan {
    /// URI of the repository.
    pub uri: String,
    /// Reference to fetch.
    pub reference: String,
    /// Folder to fetch to.
    pub path: String,
    /// How to log in.
    pub credentials: Credentials,
    /// How to check the server's certificate.
    pub certificate_check: CertificateCheck,
    /// Number of commits to fetch, or zero for all.
    pub depth: u32,
}

/// Fetch of a reference of a repository: what to do next.
#[derive(Debug)]
pub enum RepoFetch {
    /// Read what is needed to log in.
    ReadAuthSecret(SecretRequest),
    /// Read what is needed to check the certificate. What is needed to log in is known.
    ReadTlsSecret(SecretRequest, StringMap<String>),
    /// Fetch.
    Fetch(FetchPlan),
    /// Nothing: the reference was fetched, or it couldn't be.
    Done(Result<(), Error>),
}

/// Reason why a secret has no values.
pub open spec fn no_data_message(secret_name: Seq<char>) -> Seq<char> {
    "no `data` part in the secret `"@ + secret_name + "`"@
}

/// Reason why a key of a secret has no value.
pub open spec fn no_key_message(secret_key: Seq<char>, secret_name: Seq<char>) -> Seq<char> {
    "no `"@ + secret_key + "` key in the secret `"@ + secret_name + "`"@
}

/// Reason why a value of a secret isn't a text.
pub open spec fn not_utf8_message(secret_key: Seq<char>, secret_name: Seq<char>) -> Seq<char> {
    "error converting string `"@ + secret_key + "` from UTF8 in the secret `"@ + secret_name + "`"@
}

/// Each requested key has a value that is a text.
pub open spec fn has_all_texts(data: Map<Seq<char>, Vec<u8>>, keys: Map<Seq<char>, String>) -> bool {
    forall|key: Seq<char>| #[trigger]
        keys.contains_key(key) ==> data.contains_key(key) && valid_utf8(data[key]@)
}

/// The secret was read, and each requested key has a value that is a text.
pub open spec fn gives_texts(secret: SecretContent, keys: Map<Seq<char>, String>) -> bool {
    secret matches Ok(Some(data)) && has_all_texts(data@, keys)
}

/// The texts are those of the requested keys, each under the name that was asked for.
pub open spec fn are_texts_of(
    texts: Map<Seq<char>, String>,
    data: Map<Seq<char>, Vec<u8>>,
    keys: Map<Seq<char>, String>,
) -> bool {
    &&& forall|key: Seq<char>| #[trigger] keys.contains_key(key) ==> texts.contains_key(keys[key]@)
    &&& forall|name: Seq<char>| #[trigger]
        texts.contains_key(name) ==> exists|key: Seq<char>| #[trigger]
            keys.contains_key(key) && keys[key]@ == name && texts[name]@ == decode_utf8(data[key]@)
}

/// The reason is why a requested key has no text.
pub open spec fn is_text_error(
    reason: Seq<char>,
    secret_name: Seq<char>,
    data: Map<Seq<char>, Vec<u8>>,
    keys: Map<Seq<char>, String>,
) -> bool {
    exists|key: Seq<char>| #[trigger]
        keys.contains_key(key) && ((!data.contains_key(key) && reason == no_key_message(key, secret_name))
            || (data.contains_key(key) && !valid_utf8(data[key]@) && reason == not_utf8_message(
            key,
            secret_name,
        )))
}

/// Texts that a secret holds under some of its keys. `secret_keys` gives the name of each text by
/// its key in the secret.
pub fn get_secret_strings(
    secret_name: &String,
    secret_keys: &StringMap<String>,
    secret: SecretContent,
) -> (r: Result<StringMap<String>, Error>)
    ensures
        match secret {
            Err(reason) => r == Err::<StringMap<String>, Error>(Error::KubeError(reason)),
            Ok(None) => r matches Err(Error::SecretDecodingError(text)) && text@ == no_data_message(
                secret_name@,
            ),
            Ok(Some(data)) => match r {
                Ok(texts) => has_all_texts(data@, secret_keys@) && are_texts_of(
                    texts@,
                    data@,
                    secret_keys@,
                ),
                Err(e) => e matches Error::SecretDecodingError(text) && is_text_error(
                    text@,
                    secret_name@,
                    data@,
                    secret_keys@,
                ),
            },
        },
{
    let data = match secret {
        Err(reason) => {
            return Err(Error::KubeError(reason));
        },
        Ok(None) => {
            return Err(
                Error::SecretDecodingError(
                    "no `data` part in the secret `".to_owned().concat(secret_name.as_str()).concat("`"),
                ),
            );
        },
        Ok(Some(data)) => data,
    };
    let mut texts: StringMap<String> = StringMap::new();
    let count: usize = secret_keys.len();
    for i in 0..count
        invariant
            count == secret_keys.entries().len(),
            crate::string_map::unique_keys(secret_keys.entries()),
            secret_keys@ == crate::string_map::entries_map(secret_keys.entries()),
            secret == Ok::<Option<StringMap<Vec<u8>>>, KubeError>(Some(data)),
            forall|j: int|
                0 <= j < i ==> {
                    let e = #[trigger] secret_keys.entries()[j];
                    &&& data@.contains_key(e.0@)
                    &&& valid_utf8(data@[e.0@]@)
                    &&& texts@.contains_key(e.1@)
                },
            forall|name: Seq<char>| #[trigger]
                texts@.contains_key(name) ==> exists|key: Seq<char>| #[trigger]
                    secret_keys@.contains_key(key) && secret_keys@[key]@ == name && texts@[name]@
                        == decode_utf8(data@[key]@),
    {
        let (secret_key, name) = secret_keys.entry(i);
        let bytes = match data.get(secret_key.as_str()) {
            Some(bytes) => copy_bytes(bytes),
            None => {
                return Err(
                    Error::SecretDecodingError(
                        "no `".to_owned().concat(secret_key.as_str()).concat(
                            "` key in the secret `",
                        ).concat(secret_name.as_str()).concat("`"),
                    ),
                );
            },
        };
        let text = match string_from_utf8(bytes) {
            Some(text) => text,
            None => {
                return Err(
                    Error::SecretDecodingError(
                        "error converting string `".to_owned().concat(secret_key.as_str()).concat(
                            "` from UTF8 in the secret `",
                        ).concat(secret_name.as_str()).concat("`"),
                    ),
                );
            },
        };
        let ghost before = texts@;
        texts.insert(name.clone(), text);
        proof {
            assert forall|n: Seq<char>| #[trigger] texts@.contains_key(n) implies exists|key: Seq<char>|
             #[trigger]
                secret_keys@.contains_key(key) && secret_keys@[key]@ == n && texts@[n]@ == decode_utf8(
                    data@[key]@,
                ) by {
                if n == name@ {
                    assert(secret_keys@.contains_key(secret_key@));
                } else {
                    assert(before.contains_key(n));
                }
            }
        }
    }
    proof {
        assert forall|key: Seq<char>| #[trigger] secret_keys@.contains_key(key) implies data@.contains_key(
            key,
        ) && valid_utf8(data@[key]@) && texts@.contains_key(secret_keys@[key]@) by {
            let p = crate::string_map::position(secret_keys.entries(), key);
            assert(secret_keys.entries()[p].0@ == key);
        }
    }
    Ok(texts)
}

/// Namespace of a secret that a repository refers to: a repository of a namespace uses its own
/// secrets, one of the cluster those of the namespace that the reference names, if it names one.
pub open spec fn secret_namespace(namespaced: bool, secret_ref: SecretRef, secrets_ns: Seq<char>) -> Seq<char> {
    match secret_ref.namespace {
        Some(namespace) => if namespaced {
            secrets_ns
        } else {
            namespace@
        },
        None => secrets_ns,
    }
}

/// Names under which the values of a login are used, by their keys in the secret.
pub open spec fn auth_keys(config: GitAuthConfig) -> Map<Seq<char>, Seq<char>> {
    match config.auth_type {
        GitAuthType::Basic => map![config.keys.username@ => "username"@].insert(
            config.keys.password@,
            "password"@,
        ),
        GitAuthType::Token => map![config.keys.token@ => "token"@],
        GitAuthType::Ssh => map![config.keys.private_key@ => "private_key"@],
    }
}

/// Certificate authority that a configuration names.
pub open spec fn custom_ca(config: Option<TlsConfig>) -> Option<TlsCaConfig> {
    match config {
        Some(c) => c.ca_cert,
        None => None,
    }
}

/// The request is for what is needed to log in.
pub open spec fn asks_for_auth(
    request: SecretRequest,
    config: GitAuthConfig,
    namespaced: bool,
    secrets_ns: Seq<char>,
) -> bool {
    &&& request.name == config.secret_ref.name
    &&& request.namespace@ == secret_namespace(namespaced, config.secret_ref, secrets_ns)
    &&& text_map(request.keys@) == auth_keys(config)
}

/// The request is for the certificate of the authority.
pub open spec fn asks_for_ca(
    request: SecretRequest,
    config: TlsCaConfig,
    namespaced: bool,
    secrets_ns: Seq<char>,
) -> bool {
    &&& request.name == config.secret_ref.name
    &&& request.namespace@ == secret_namespace(namespaced, config.secret_ref, secrets_ns)
    &&& text_map(request.keys@) == map![config.key@ => "ca.crt"@]
}

/// The texts hold what is needed to log in.
pub open spec fn has_auth(config: Option<GitAuthConfig>, texts: Map<Seq<char>, String>) -> bool {
    match config {
        None => true,
        Some(c) => match c.auth_type {
            GitAuthType::Basic => texts.contains_key("password"@),
            GitAuthType::Token => texts.contains_key("token"@),
            GitAuthType::Ssh => texts.contains_key("private_key"@),
        },
    }
}

/// The credentials are those that the configuration asks for.
pub open spec fn are_credentials(
    credentials: Credentials,
    config: Option<GitAuthConfig>,
    texts: Map<Seq<char>, String>,
) -> bool {
    match config {
        None => credentials is Anonymous,
        Some(c) => match c.auth_type {
            GitAuthType::Basic => credentials matches Credentials::UserPass { username, password }
                && username == (if texts.contains_key("username"@) {
                Some(texts["username"@])
            } else {
                None
            }) && password == texts["password"@],
            GitAuthType::Token => credentials matches Credentials::Header(header) && header@
                == "Authorization: "@ + texts["token"@]@,
            GitAuthType::Ssh => credentials matches Credentials::SshKey { private_key, default_user }
                && private_key == texts["private_key"@] && opt_view(default_user) == Some("git"@),
        },
    }
}

/// The check is the one that the scheme and the configuration ask for.
pub open spec fn is_certificate_check(
    check: CertificateCheck,
    schema: GitRepoUriSchema,
    config: Option<TlsConfig>,
    texts: Map<Seq<char>, String>,
) -> bool {
    match schema {
        GitRepoUriSchema::Http => check is Untouched,
        GitRepoUriSchema::Ssh | GitRepoUriSchema::Git => check is AcceptAny,
        GitRepoUriSchema::Https => match config {
            None => check is Untouched,
            Some(c) => if c.no_verify_ssl {
                check is AcceptAny
            } else if c.ca_cert is Some {
                check == CertificateCheck::CustomCa(texts["ca.crt"@])
            } else {
                check is System
            },
        },
    }
}

/// What all kinds of repositories have.
pub trait GitRepoInternals: Sized {
    /// How to log in.
    spec fn the_auth_config(&self) -> Option<GitAuthConfig>;

    /// How to check the server's certificate.
    spec fn the_tls_config(&self) -> Option<TlsConfig>;

    /// URI of the repository.
    spec fn the_uri(&self) -> String;

    /// The repository belongs to a namespace.
    spec fn namespaced() -> bool;

    /// How to log in.
    fn auth_config(&self) -> (r: &Option<GitAuthConfig>)
        ensures
            *r == self.the_auth_config(),
    ;

    /// How to check the server's certificate.
    fn tls_config(&self) -> (r: &Option<TlsConfig>)
        ensures
            *r == self.the_tls_config(),
    ;

    /// URI of the repository.
    fn repo_uri(&self) -> (r: &String)
        ensures
            *r == self.the_uri(),
    ;

    /// Tells whether the repository belongs to a namespace.
    fn is_namespaced(&self) -> (r: bool)
        ensures
            r == Self::namespaced(),
    ;

}

/// Repository that can be fetched from.
pub trait GitRepoGetter: GitRepoInternals {
    /// Tells whether the scheme of the repository's URI is one of those that can be fetched from.
    fn has_known_schema(&self) -> (r: bool)
        ensures
            r == schema_of(self.the_uri()@) is Some,
    {
        let uri = self.repo_uri();
        starts_with(uri.as_str(), "http://") || starts_with(uri.as_str(), "https://") || starts_with(
            uri.as_str(),
            "ssh://",
        ) || starts_with(uri.as_str(), "git@")
    }

    /// Scheme of the repository's URI.
    fn uri_schema(&self) -> (r: GitRepoUriSchema)
        requires
            schema_of(self.the_uri()@) is Some,
        ensures
            Some(r) == schema_of(self.the_uri()@),
    {
        let uri = self.repo_uri();
        if starts_with(uri.as_str(), "http://") {
            GitRepoUriSchema::Http
        } else if starts_with(uri.as_str(), "https://") {
            GitRepoUriSchema::Https
        } else if starts_with(uri.as_str(), "ssh://") {
            GitRepoUriSchema::Ssh
        } else {
            GitRepoUriSchema::Git
        }
    }

    /// Secret to read to log in, if there is one.
    fn auth_secret_request(&self, secrets_ns: &String) -> (r: Option<SecretRequest>)
        ensures
            match self.the_auth_config() {
                Some(config) => r matches Some(request) && asks_for_auth(
                    request,
                    config,
                    Self::namespaced(),
                    secrets_ns@,
                ),
                None => r is None,
            },
    {
        match self.auth_config() {
            Some(config) => {
                let mut keys: StringMap<String> = StringMap::new();
                match config.auth_type {
                    GitAuthType::Basic => {
                        keys.insert(config.keys.username.clone(), "username".to_owned());
                        keys.insert(config.keys.password.clone(), "password".to_owned());
                    },
                    GitAuthType::Token => {
                        keys.insert(config.keys.token.clone(), "token".to_owned());
                    },
                    GitAuthType::Ssh => {
                        keys.insert(config.keys.private_key.clone(), "private_key".to_owned());
                    },
                }
                assert(text_map(keys@) =~= auth_keys(*config));
                Some(
                    SecretRequest {
                        name: config.secret_ref.name.clone(),
                        namespace: namespace_of(&config.secret_ref, self.is_namespaced(), secrets_ns),
                        keys,
                    },
                )
            },
            None => None,
        }
    }

    /// Secret to read to check the server's certificate, if there is one.
    fn tls_secret_request(&self, secrets_ns: &String) -> (r: Option<SecretRequest>)
        ensures
            match custom_ca(self.the_tls_config()) {
                Some(config) => r matches Some(request) && asks_for_ca(
                    request,
                    config,
                    Self::namespaced(),
                    secrets_ns@,
                ),
                None => r is None,
            },
    {
        match self.tls_config() {
            Some(config) => match &config.ca_cert {
                Some(ca_cert) => {
                    let mut keys: StringMap<String> = StringMap::new();
                    keys.insert(ca_cert.key.clone(), "ca.crt".to_owned());
                    assert(text_map(keys@) =~= map![ca_cert.key@ => "ca.crt"@]);
                    Some(
                        SecretRequest {
                            name: ca_cert.secret_ref.name.clone(),
                            namespace: namespace_of(
                                &ca_cert.secret_ref,
                                self.is_namespaced(),
                                secrets_ns,
                            ),
                            keys,
                        },
                    )
                },
                None => None,
            },
            None => None,
        }
    }

    /// How to fetch a reference, with what the secrets hold.
    fn fetch_plan(
        &self,
        ref_name: &String,
        path: &String,
        auth: &StringMap<String>,
        tls: &StringMap<String>,
    ) -> (r: FetchPlan)
        requires
            schema_of(self.the_uri()@) is Some,
            has_auth(self.the_auth_config(), auth@),
            custom_ca(self.the_tls_config()) is Some ==> tls@.contains_key("ca.crt"@),
        ensures
            plans(*self, r, *ref_name, *path, auth@, tls@),
    {
        let credentials: Credentials = match self.auth_config() {
            None => Credentials::Anonymous,
            Some(config) => match config.auth_type {
                GitAuthType::Basic => Credentials::UserPass {
                    username: find_text(auth, "username"),
                    password: text_of(auth, "password"),
                },
                GitAuthType::Token => Credentials::Header(
                    "Authorization: ".to_owned().concat(text_of(auth, "token").as_str()),
                ),
                GitAuthType::Ssh => Credentials::SshKey {
                    private_key: text_of(auth, "private_key"),
                    default_user: Some("git".to_owned()),
                },
            },
        };
        let schema = self.uri_schema();
        let certificate_check: CertificateCheck = match schema {
            GitRepoUriSchema::Http => CertificateCheck::Untouched,
            GitRepoUriSchema::Ssh | GitRepoUriSchema::Git => CertificateCheck::AcceptAny,
            GitRepoUriSchema::Https => match self.tls_config() {
                None => CertificateCheck::Untouched,
                Some(config) => if config.no_verify_ssl {
                    CertificateCheck::AcceptAny
                } else if config.ca_cert.is_some() {
                    CertificateCheck::CustomCa(text_of(tls, "ca.crt"))
                } else {
                    CertificateCheck::System
                },
            },
        };
        let depth: u32 = match schema {
            GitRepoUriSchema::Http | GitRepoUriSchema::Https => 1,
            GitRepoUriSchema::Ssh | GitRepoUriSchema::Git => 0,
        };
        FetchPlan {
            uri: self.repo_uri().clone(),
            reference: ref_name.clone(),
            path: path.clone(),
            credentials,
            certificate_check,
            depth,
        }
    }

    /// What to do once it is known how to log in.
    fn with_auth(&self, ref_name: &String, path: &String, secrets_ns: &String, auth: StringMap<String>) -> (r:
        RepoFetch)
        requires
            custom_ca(self.the_tls_config()) is None ==> schema_of(self.the_uri()@) is Some,
            has_auth(self.the_auth_config(), auth@),
        ensures
            after_auth(*self, r, *ref_name, *path, secrets_ns@, auth@),
    {
        match self.tls_secret_request(secrets_ns) {
            Some(request) => RepoFetch::ReadTlsSecret(request, auth),
            None => {
                let none: StringMap<String> = StringMap::new();
                RepoFetch::Fetch(self.fetch_plan(ref_name, path, &auth, &none))
            },
        }
    }

    /// Starts to fetch a reference to a folder. Secrets are read first: those to log in, then those
    /// to check the server's certificate. The scheme of the URI has to be known once there is nothing
    /// more to read.
    fn fetch_repo_ref(&self, ref_name: &String, path: &String, secrets_ns: &String) -> (r: RepoFetch)
        requires
            self.the_auth_config() is None && custom_ca(self.the_tls_config()) is None ==> schema_of(
                self.the_uri()@,
            ) is Some,
        ensures
            match self.the_auth_config() {
                Some(config) => r matches RepoFetch::ReadAuthSecret(request) && asks_for_auth(
                    request,
                    config,
                    Self::namespaced(),
                    secrets_ns@,
                ),
                None => after_auth(*self, r, *ref_name, *path, secrets_ns@, Map::empty()),
            },
    {
        match self.auth_secret_request(secrets_ns) {
            Some(request) => RepoFetch::ReadAuthSecret(request),
            None => self.with_auth(ref_name, path, secrets_ns, StringMap::new()),
        }
    }

    /// Goes on with a fetch after the secret to log in was read, or couldn't be.
    fn auth_secret_read(
        &self,
        request: &SecretRequest,
        secret: SecretContent,
        ref_name: &String,
        path: &String,
        secrets_ns: &String,
    ) -> (r: RepoFetch)
        requires
            gives_texts(secret, request.keys@) && custom_ca(self.the_tls_config()) is None
                ==> schema_of(self.the_uri()@) is Some,
            self.the_auth_config() matches Some(config) && asks_for_auth(
                *request,
                config,
                Self::namespaced(),
                secrets_ns@,
            ),
        ensures
            match secret {
                Err(reason) => r == RepoFetch::Done(Err(Error::KubeError(reason))),
                Ok(None) => r matches RepoFetch::Done(Err(Error::SecretDecodingError(text))) && text@
                    == no_data_message(request.name@),
                Ok(Some(data)) => if has_all_texts(data@, request.keys@) {
                    exists|auth: Map<Seq<char>, String>|
                        are_texts_of(auth, data@, request.keys@) && #[trigger] after_auth(
                            *self,
                            r,
                            *ref_name,
                            *path,
                            secrets_ns@,
                            auth,
                        )
                } else {
                    r matches RepoFetch::Done(Err(Error::SecretDecodingError(text))) && is_text_error(
                        text@,
                        request.name@,
                        data@,
                        request.keys@,
                    )
                },
            },
    {
        match get_secret_strings(&request.name, &request.keys, secret) {
            Ok(auth) => {
                proof {
                    lemma_has_auth(self.the_auth_config()->0, *request, auth@, secret->Ok_0->0@);
                }
                self.with_auth(ref_name, path, secrets_ns, auth)
            },
            Err(e) => RepoFetch::Done(Err(e)),
        }
    }

    /// Goes on with a fetch after the secret to check the certificate was read, or couldn't be.
    fn tls_secret_read(
        &self,
        request: &SecretRequest,
        auth: &StringMap<String>,
        secret: SecretContent,
        ref_name: &String,
        path: &String,
        secrets_ns: &String,
    ) -> (r: RepoFetch)
        requires
            gives_texts(secret, request.keys@) ==> schema_of(self.the_uri()@) is Some,
            has_auth(self.the_auth_config(), auth@),
            custom_ca(self.the_tls_config()) matches Some(config) && asks_for_ca(
                *request,
                config,
                Self::namespaced(),
                secrets_ns@,
            ),
        ensures
            match secret {
                Err(reason) => r == RepoFetch::Done(Err(Error::KubeError(reason))),
                Ok(None) => r matches RepoFetch::Done(Err(Error::SecretDecodingError(text))) && text@
                    == no_data_message(request.name@),
                Ok(Some(data)) => if has_all_texts(data@, request.keys@) {
                    exists|tls: Map<Seq<char>, String>|
                        are_texts_of(tls, data@, request.keys@) && r is Fetch && #[trigger] plans(
                            *self,
                            r->Fetch_0,
                            *ref_name,
                            *path,
                            auth@,
                            tls,
                        )
                } else {
                    r matches RepoFetch::Done(Err(Error::SecretDecodingError(text))) && is_text_error(
                        text@,
                        request.name@,
                        data@,
                        request.keys@,
                    )
                },
            },
    {
        match get_secret_strings(&request.name, &request.keys, secret) {
            Ok(tls) => {
                proof {
                    let config = custom_ca(self.the_tls_config())->0;
                    assert(text_map(request.keys@).contains_key(config.key@));
                    assert(request.keys@.contains_key(config.key@));
                    assert(text_map(request.keys@)[config.key@] == "ca.crt"@);
                }
                RepoFetch::Fetch(self.fetch_plan(ref_name, path, auth, &tls))
            },
            Err(e) => RepoFetch::Done(Err(e)),
        }
    }
}

/// The plan is how to fetch the reference with what the secrets hold.
pub open spec fn plans<R: GitRepoInternals>(
    repo: R,
    plan: FetchPlan,
    ref_name: String,
    path: String,
    auth: Map<Seq<char>, String>,
    tls: Map<Seq<char>, String>,
) -> bool {
    let schema = schema_of(repo.the_uri()@)->0;
    &&& plan.uri == repo.the_uri()
    &&& plan.reference == ref_name
    &&& plan.path == path
    &&& are_credentials(plan.credentials, repo.the_auth_config(), auth)
    &&& is_certificate_check(plan.certificate_check, schema, repo.the_tls_config(), tls)
    &&& plan.depth == if schema == GitRepoUriSchema::Http || schema == GitRepoUriSchema::Https {
        1u32
    } else {
        0u32
    }
}

/// What to do once it is known how to log in: read the certificate of the authority if there is
/// one, fetch otherwise.
pub open spec fn after_auth<R: GitRepoInternals>(
    repo: R,
    fetch: RepoFetch,
    ref_name: String,
    path: String,
    secrets_ns: Seq<char>,
    auth: Map<Seq<char>, String>,
) -> bool {
    match custom_ca(repo.the_tls_config()) {
        Some(config) => fetch matches RepoFetch::ReadTlsSecret(request, texts) && asks_for_ca(
            request,
            config,
            R::namespaced(),
            secrets_ns,
        ) && texts@ == auth,
        None => fetch matches RepoFetch::Fetch(plan) && plans(
            repo,
            plan,
            ref_name,
            path,
            auth,
            Map::empty(),
        ),
    }
}

/// Texts of the keys of a login hold what is needed to log in.
pub(crate) proof fn lemma_has_auth(
    config: GitAuthConfig,
    request: SecretRequest,
    texts: Map<Seq<char>, String>,
    data: Map<Seq<char>, Vec<u8>>,
)
    requires
        text_map(request.keys@) == auth_keys(config),
        are_texts_of(texts, data, request.keys@),
    ensures
        has_auth(Some(config), texts),
{
    let key = match config.auth_type {
        GitAuthType::Basic => config.keys.password@,
        GitAuthType::Token => config.keys.token@,
        GitAuthType::Ssh => config.keys.private_key@,
    };
    assert(auth_keys(config).contains_key(key));
    assert(text_map(request.keys@).contains_key(key));
    assert(request.keys@.contains_key(key));
    assert(text_map(request.keys@)[key] == request.keys@[key]@);
}

impl RepoFetch {
    /// Ends a fetch with what came of it.
    pub fn fetched(self, outcome: Result<(), String>) -> (r: RepoFetch)
        requires
            self is Fetch,
        ensures
            r == RepoFetch::Done(
                match outcome {
                    Ok(_) => Ok(()),
                    Err(reason) => Err(Error::GitrepoAccessError(reason)),
                },
            ),
    {
        match outcome {
            Ok(_) => RepoFetch::Done(Ok(())),
            Err(reason) => RepoFetch::Done(Err(Error::GitrepoAccessError(reason))),
        }
    }
}

fn namespace_of(secret_ref: &SecretRef, namespaced: bool, secrets_ns: &String) -> (r: String)
    ensures
        r@ == secret_namespace(namespaced, *secret_ref, secrets_ns@),
{
    if namespaced {
        secrets_ns.clone()
    } else {
        match &secret_ref.namespace {
            Some(namespace) => namespace.clone(),
            None => secrets_ns.clone(),
        }
    }
}

pub(crate) fn find_text(texts: &StringMap<String>, name: &str) -> (r: Option<String>)
    ensures
        r == (if texts@.contains_key(name@) {
            Some(texts@[name@])
        } else {
            None
        }),
{
    match texts.get(name) {
        Some(text) => Some(text.clone()),
        None => None,
    }
}

pub(crate) fn text_of(texts: &StringMap<String>, name: &str) -> (r: String)
    requires
        texts@.contains_key(name@),
    ensures
        r == texts@[name@],
{
    match texts.get(name) {
        Some(text) => text.clone(),
        None => String::new(),
    }
}

impl GitRepoGetter for GitRepo {

}

impl GitRepoGetter for ClusterGitRepo {

}

impl GitRepoInternals for GitRepo {
    open spec fn the_auth_config(&self) -> Option<GitAuthConfig> {
        self.spec.auth_config
    }

    open spec fn the_tls_config(&self) -> Option<TlsConfig> {
        self.spec.tls_config
    }

    open spec fn the_uri(&self) -> String {
        self.spec.repo_uri
    }

    open spec fn namespaced() -> bool {
        true
    }

    fn auth_config(&self) -> (r: &Option<GitAuthConfig>) {
        &self.spec.auth_config
    }

    fn tls_config(&self) -> (r: &Option<TlsConfig>) {
        &self.spec.tls_config
    }

    fn repo_uri(&self) -> (r: &String) {
        &self.spec.repo_uri
    }

    fn is_namespaced(&self) -> (r: bool) {
        true
    }
}

impl GitRepoInternals for ClusterGitRepo {
    open spec fn the_auth_config(&self) -> Option<GitAuthConfig> {
        self.spec.auth_config
    }

    open spec fn the_tls_config(&self) -> Option<TlsConfig> {
        self.spec.tls_config
    }

    open spec fn the_uri(&self) -> String {
        self.spec.repo_uri
    }

    open spec fn namespaced() -> bool {
        false
    }

    fn auth_config(&self) -> (r: &Option<GitAuthConfig>) {
        &self.spec.auth_config
    }

    fn tls_config(&self) -> (r: &Option<TlsConfig>) {
        &self.spec.tls_config
    }

    fn repo_uri(&self) -> (r: &String) {
        &self.spec.repo_uri
    }

    fn is_namespaced(&self) -> (r: bool) {
        false
    }
}

impl CustomApiResource for GitRepo {
    open spec fn kind_name() -> Seq<char> {
        "GitRepo"@
    }

    fn crd_kind() -> (r: &'static str) {
        "GitRepo"
    }
}

impl CustomApiResource for ClusterGitRepo {
    open spec fn kind_name() -> Seq<char> {
        "ClusterGitRepo"@
    }

    fn crd_kind() -> (r: &'static str) {
        "ClusterGitRepo"
    }
}

/// A repository of a namespace reads no secrets but those of the namespace, whatever its references
/// say.
pub proof fn law_namespaced_secrets_stay_home(
    repo: GitRepo,
    request: SecretRequest,
    secrets_ns: Seq<char>,
)
    requires
        (repo.the_auth_config() matches Some(config) && asks_for_auth(
            request,
            config,
            GitRepo::namespaced(),
            secrets_ns,
        )) || (custom_ca(repo.the_tls_config()) matches Some(ca) && asks_for_ca(
            request,
            ca,
            GitRepo::namespaced(),
            secrets_ns,
        )),
    ensures
        request.namespace@ == secrets_ns,
{
}

/// A server's certificate goes unchecked only over SSH, or where the configuration says so.
pub proof fn law_certificates_are_checked<R: GitRepoInternals>(
    repo: R,
    plan: FetchPlan,
    ref_name: String,
    path: String,
    auth: Map<Seq<char>, String>,
    tls: Map<Seq<char>, String>,
)
    requires
        plans(repo, plan, ref_name, path, auth, tls),
        plan.certificate_check is AcceptAny,
    ensures
        schema_of(repo.the_uri()@) == Some(GitRepoUriSchema::Https) ==> (repo.the_tls_config()
            matches Some(config) && config.no_verify_ssl),
        schema_of(repo.the_uri()@) != Some(GitRepoUriSchema::Http),
{
}

} // verus!
