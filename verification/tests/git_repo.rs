//! Repositories, their secrets and plans to fetch from them.
use git_events_runner::resources::git_repo::{
    get_secret_strings, CertificateCheck, ClusterGitRepo, ClusterGitRepoSpec, Credentials, GitAuthConfig,
    GitAuthSecretKeys, GitAuthType, GitRepo, GitRepoGetter, GitRepoSpec, GitRepoUriSchema, RepoFetch, SecretRef,
    TlsCaConfig, TlsConfig,
};
use git_events_runner::resources::ObjectMeta;
use git_events_runner::string_map::StringMap;
use git_events_runner::{Error, KubeError};

fn map(entries: &[(&str, &str)]) -> StringMap<String> {
    let mut map = StringMap::new();
    for (key, value) in entries {
        map.insert(key.to_string(), value.to_string());
    }
    map
}

fn data(entries: &[(&str, &str)]) -> StringMap<Vec<u8>> {
    let mut map = StringMap::new();
    for (key, value) in entries {
        map.insert(key.to_string(), value.as_bytes().to_vec());
    }
    map
}

#[test]
fn get_secret_strings_with_data() {
    let secrets = get_secret_strings(
        &"test-secret-get-secret-strings-with-data".to_string(),
        &map(&[("u", "username"), ("p", "password")]),
        Ok(Some(data(&[("u", "user"), ("p", "pass")]))),
    )
    .unwrap();
    assert_eq!(secrets.get("username").unwrap(), "user");
    assert_eq!(secrets.get("password").unwrap(), "pass");
}

#[test]
fn get_secret_strings_wrong_keys() {
    let err = get_secret_strings(
        &"test-secret-get-secret-strings-wrong-keys".to_string(),
        &map(&[("qqq", "www")]),
        Ok(Some(data(&[("u", "user"), ("p", "pass")]))),
    )
    .unwrap_err();
    assert!(err.to_string().contains("no `qqq` key in the secret"));
    assert!(matches!(err, Error::SecretDecodingError(_)));
}

#[test]
fn get_secret_strings_no_data() {
    let err = get_secret_strings(
        &"test-secret-get-secret-strings-no-data".to_string(),
        &map(&[("u", "username"), ("p", "password")]),
        Ok(None),
    )
    .unwrap_err();
    assert!(err.to_string().contains("no `data` part in the secret"));
    assert_eq!(
        err.to_string(),
        "GitRepo Secret Decoding Error: no `data` part in the secret `test-secret-get-secret-strings-no-data`"
    );
    assert!(matches!(err, Error::SecretDecodingError(_)));
}

#[test]
fn get_secret_strings_no_secret() {
    let reason = KubeError::Api {
        code: 404,
        response: "not found".to_string(),
        text: "ApiError: not found".to_string(),
    };
    let err = get_secret_strings(
        &"test-secret-get-secret-strings-no-secret".to_string(),
        &map(&[("u", "username"), ("p", "password")]),
        Err(reason),
    )
    .unwrap_err();
    assert!(err.to_string().contains("not found"));
    assert_eq!(err.to_string(), "Kube Error: ApiError: not found");
    assert!(matches!(err, Error::KubeError(_)));
}

#[test]
fn values_that_are_not_texts_are_refused() {
    let mut broken: StringMap<Vec<u8>> = StringMap::new();
    broken.insert("u".to_string(), vec![0xff, 0xfe]);
    let err = get_secret_strings(&"name".to_string(), &map(&[("u", "username")]), Ok(Some(broken))).unwrap_err();
    assert_eq!(
        err.to_string(),
        "GitRepo Secret Decoding Error: error converting string `u` from UTF8 in the secret `name`"
    );
}

fn secret_ref(name: &str, namespace: Option<&str>) -> SecretRef {
    SecretRef {
        name: name.to_string(),
        namespace: namespace.map(String::from),
    }
}

fn auth(auth_type: GitAuthType, namespace: Option<&str>) -> Option<GitAuthConfig> {
    Some(GitAuthConfig {
        auth_type,
        secret_ref: secret_ref("login", namespace),
        keys: GitAuthSecretKeys::default(),
    })
}

fn repo(uri: &str, tls_config: Option<TlsConfig>, auth_config: Option<GitAuthConfig>) -> GitRepo {
    GitRepo {
        metadata: ObjectMeta::named("repo", Some("home".to_string())),
        spec: GitRepoSpec {
            repo_uri: uri.to_string(),
            tls_config,
            auth_config,
        },
    }
}

fn cluster_repo(uri: &str, tls_config: Option<TlsConfig>, auth_config: Option<GitAuthConfig>) -> ClusterGitRepo {
    ClusterGitRepo {
        metadata: ObjectMeta::named("repo", None),
        spec: ClusterGitRepoSpec {
            repo_uri: uri.to_string(),
            tls_config,
            auth_config,
        },
    }
}

fn args() -> (String, String, String) {
    ("main".to_string(), "/tmp/x".to_string(), "trigger-ns".to_string())
}

#[test]
fn schemes_are_told_by_prefix() {
    assert_eq!(repo("http://a/b", None, None).uri_schema(), GitRepoUriSchema::Http);
    assert_eq!(repo("https://a/b", None, None).uri_schema(), GitRepoUriSchema::Https);
    assert_eq!(repo("ssh://a/b", None, None).uri_schema(), GitRepoUriSchema::Ssh);
    assert_eq!(repo("git@a:b/c", None, None).uri_schema(), GitRepoUriSchema::Git);
}

#[test]
fn unknown_schemes_are_recognised() {
    for uri in ["http://h/r", "https://h/r", "ssh://h/r", "git@h:o/r"] {
        assert!(repo(uri, None, None).has_known_schema());
    }
    for uri in ["", "ftp://h/r", "HTTP://h/r", "http:/h/r"] {
        assert!(!repo(uri, None, None).has_known_schema());
    }
}

#[test]
fn secrets_are_read_before_the_scheme_matters() {
    let (reference, path, ns) = args();
    let repo = repo("ftp://h/r", None, auth(GitAuthType::Token, None));
    let request = match repo.fetch_repo_ref(&reference, &path, &ns) {
        RepoFetch::ReadAuthSecret(request) => request,
        other => panic!("unexpected step {other:?}"),
    };
    let done = repo.auth_secret_read(&request, Ok(None), &reference, &path, &ns);
    assert!(matches!(done, RepoFetch::Done(Err(Error::SecretDecodingError(_)))));
}

#[test]
fn open_repositories_are_fetched_at_once() {
    let (reference, path, ns) = args();
    match repo("https://a/b", None, None).fetch_repo_ref(&reference, &path, &ns) {
        RepoFetch::Fetch(plan) => {
            assert_eq!(plan.uri, "https://a/b");
            assert_eq!(plan.reference, "main");
            assert_eq!(plan.path, "/tmp/x");
            assert_eq!(plan.depth, 1);
            assert!(matches!(plan.credentials, Credentials::Anonymous));
            assert!(matches!(plan.certificate_check, CertificateCheck::Untouched));
        }
        other => panic!("unexpected step {other:?}"),
    }
    match repo("git@a:b/c", None, None).fetch_repo_ref(&reference, &path, &ns) {
        RepoFetch::Fetch(plan) => {
            assert_eq!(plan.depth, 0);
            assert!(matches!(plan.certificate_check, CertificateCheck::AcceptAny));
        }
        other => panic!("unexpected step {other:?}"),
    }
}

#[test]
fn login_with_name_and_password() {
    let (reference, path, ns) = args();
    let repo = repo("https://a/b", Some(TlsConfig::default()), auth(GitAuthType::Basic, Some("elsewhere")));
    let request = match repo.fetch_repo_ref(&reference, &path, &ns) {
        RepoFetch::ReadAuthSecret(request) => request,
        other => panic!("unexpected step {other:?}"),
    };
    assert_eq!(request.name, "login");
    assert_eq!(request.namespace, "trigger-ns");
    assert_eq!(request.keys.get("username"), Some(&"username".to_string()));
    assert_eq!(request.keys.get("password"), Some(&"password".to_string()));
    let secret = data(&[("username", "me"), ("password", "pw")]);
    let fetch = repo.auth_secret_read(&request, Ok(Some(secret)), &reference, &path, &ns);
    match fetch {
        RepoFetch::Fetch(plan) => {
            match &plan.credentials {
                Credentials::UserPass { username, password } => {
                    assert_eq!(username, &Some("me".to_string()));
                    assert_eq!(password, "pw");
                }
                other => panic!("unexpected credentials {other:?}"),
            }
            assert!(matches!(plan.certificate_check, CertificateCheck::System));
            match RepoFetch::Fetch(plan).fetched(Err("no route".to_string())) {
                RepoFetch::Done(Err(Error::GitrepoAccessError(text))) => assert_eq!(text, "no route"),
                other => panic!("unexpected step {other:?}"),
            }
        }
        other => panic!("unexpected step {other:?}"),
    }
}

#[test]
fn login_with_token_and_key() {
    let (reference, path, ns) = args();
    let token = repo("http://a/b", None, auth(GitAuthType::Token, None));
    let request = token.auth_secret_request(&ns).unwrap();
    match token.auth_secret_read(&request, Ok(Some(data(&[("token", "t0")]))), &reference, &path, &ns) {
        RepoFetch::Fetch(plan) => match plan.credentials {
            Credentials::Header(header) => assert_eq!(header, "Authorization: t0"),
            other => panic!("unexpected credentials {other:?}"),
        },
        other => panic!("unexpected step {other:?}"),
    }
    let ssh = cluster_repo("ssh://a/b", None, auth(GitAuthType::Ssh, Some("elsewhere")));
    let request = ssh.auth_secret_request(&ns).unwrap();
    assert_eq!(request.namespace, "elsewhere");
    assert_eq!(request.keys.get("ssh-privatekey"), Some(&"private_key".to_string()));
    match ssh.auth_secret_read(&request, Ok(Some(data(&[("ssh-privatekey", "k")]))), &reference, &path, &ns) {
        RepoFetch::Fetch(plan) => match plan.credentials {
            Credentials::SshKey { private_key, default_user } => {
                assert_eq!(private_key, "k");
                assert_eq!(default_user, Some("git".to_string()));
            }
            other => panic!("unexpected credentials {other:?}"),
        },
        other => panic!("unexpected step {other:?}"),
    }
    match ssh.auth_secret_read(&request, Ok(Some(data(&[]))), &reference, &path, &ns) {
        RepoFetch::Done(Err(Error::SecretDecodingError(text))) => {
            assert_eq!(text, "no `ssh-privatekey` key in the secret `login`")
        }
        other => panic!("unexpected step {other:?}"),
    }
}

#[test]
fn same_key_for_name_and_password_leaves_the_password() {
    let (reference, path, ns) = args();
    let mut config = auth(GitAuthType::Basic, None);
    if let Some(c) = config.as_mut() {
        c.keys.username = "both".to_string();
        c.keys.password = "both".to_string();
    }
    let repo = repo("https://a/b", None, config);
    let request = repo.auth_secret_request(&ns).unwrap();
    assert_eq!(request.keys.len(), 1);
    match repo.auth_secret_read(&request, Ok(Some(data(&[("both", "x")]))), &reference, &path, &ns) {
        RepoFetch::Fetch(plan) => match plan.credentials {
            Credentials::UserPass { username, password } => {
                assert_eq!(username, None);
                assert_eq!(password, "x");
            }
            other => panic!("unexpected credentials {other:?}"),
        },
        other => panic!("unexpected step {other:?}"),
    }
}

#[test]
fn certificates_of_an_own_authority() {
    let (reference, path, ns) = args();
    let tls = |no_verify_ssl: bool| {
        Some(TlsConfig {
            no_verify_ssl,
            ca_cert: Some(TlsCaConfig {
                secret_ref: secret_ref("ca", Some("certs")),
                key: TlsCaConfig::default_ca_data_key(),
            }),
        })
    };
    let repo = cluster_repo("https://a/b", tls(false), auth(GitAuthType::Token, None));
    let request = repo.auth_secret_request(&ns).unwrap();
    assert_eq!(request.namespace, "trigger-ns");
    let fetch = repo.auth_secret_read(&request, Ok(Some(data(&[("token", "t0")]))), &reference, &path, &ns);
    let (request, texts) = match fetch {
        RepoFetch::ReadTlsSecret(request, texts) => (request, texts),
        other => panic!("unexpected step {other:?}"),
    };
    assert_eq!(request.name, "ca");
    assert_eq!(request.namespace, "certs");
    match repo.tls_secret_read(&request, &texts, Ok(Some(data(&[("ca.crt", "PEM")]))), &reference, &path, &ns) {
        RepoFetch::Fetch(plan) => match plan.certificate_check {
            CertificateCheck::CustomCa(text) => assert_eq!(text, "PEM"),
            other => panic!("unexpected check {other:?}"),
        },
        other => panic!("unexpected step {other:?}"),
    }
    match repo.tls_secret_read(&request, &texts, Ok(None), &reference, &path, &ns) {
        RepoFetch::Done(Err(Error::SecretDecodingError(text))) => {
            assert_eq!(text, "no `data` part in the secret `ca`")
        }
        other => panic!("unexpected step {other:?}"),
    }
    let careless = cluster_repo("https://a/b", tls(true), None);
    let request = match careless.fetch_repo_ref(&reference, &path, &ns) {
        RepoFetch::ReadTlsSecret(request, _) => request,
        other => panic!("unexpected step {other:?}"),
    };
    match careless.tls_secret_read(
        &request,
        &StringMap::new(),
        Ok(Some(data(&[("ca.crt", "PEM")]))),
        &reference,
        &path,
        &ns,
    ) {
        RepoFetch::Fetch(plan) => assert!(matches!(plan.certificate_check, CertificateCheck::AcceptAny)),
        other => panic!("unexpected step {other:?}"),
    }
}

#[test]
fn ways_to_log_in_have_names() {
    assert_eq!(GitAuthType::Basic.to_string(), "basic");
    assert_eq!(GitAuthType::Token.to_string(), "token");
    assert_eq!(GitAuthType::Ssh.to_string(), "ssh");
}
