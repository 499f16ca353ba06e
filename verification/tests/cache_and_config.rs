//! Caches, the command line and the dynamic configuration.
use git_events_runner::cache::{cache_key, cached, SecretsCache};
use git_events_runner::cli::{tls_from_secret, Cli, CliConfig, CliConfigDumpOptions, TlsSource};
use git_events_runner::config::{ConfigChannel, ConfigValues, RuntimeConfig, YamlConfigOpts};
use git_events_runner::string_map::StringMap;
use git_events_runner::time::{Duration, Timestamp};
use git_events_runner::{Error, KubeError};

const TEST_SECRET_NAME: &str = "test-secrets-cache-data";
const TEST_SECRET_KEY: &str = "token";
const TEST_SECRET_TOKEN: &str = "1234567890";
const NAMESPACE: &str = "secret-cache-test";

fn data(entries: &[(&str, &[u8])]) -> StringMap<Vec<u8>> {
    let mut map = StringMap::new();
    for (key, value) in entries {
        map.insert(key.to_string(), value.to_vec());
    }
    map
}

fn at(secs: i64, nanos: u32) -> Timestamp {
    Timestamp { secs, nanos }
}

#[test]
fn secrets_cache() {
    let mut cache = SecretsCache::new(Duration::from_secs(1));
    let start = at(1_700_000_000, 0);

    // A secret that doesn't exist.
    assert!(cache.get(NAMESPACE, TEST_SECRET_NAME, TEST_SECRET_KEY, start).is_none());
    let missing = KubeError::Api {
        code: 404,
        response: "not found".to_string(),
        text: "ApiError: not found".to_string(),
    };
    let res = cache.save(NAMESPACE, TEST_SECRET_NAME, TEST_SECRET_KEY, Err(missing), start);
    assert!(matches!(res, Err(Error::KubeError(_))));

    // A key that doesn't exist.
    let secret = || Ok(Some(data(&[("token", TEST_SECRET_TOKEN.as_bytes())])));
    let res = cache.save(NAMESPACE, TEST_SECRET_NAME, "some-non-existent-key", secret(), start);
    assert!(matches!(res, Err(Error::SecretDecodingError(_))));
    assert!(cache.get(NAMESPACE, TEST_SECRET_NAME, TEST_SECRET_KEY, start).is_none());

    // A key that exists.
    let res = cache.save(NAMESPACE, TEST_SECRET_NAME, TEST_SECRET_KEY, secret(), start);
    assert_eq!(res.unwrap(), TEST_SECRET_TOKEN);

    // The cache is good until it expires.
    let res = cache.get(NAMESPACE, TEST_SECRET_NAME, TEST_SECRET_KEY, at(1_700_000_000, 999_999_999));
    assert_eq!(res.unwrap().unwrap(), TEST_SECRET_TOKEN);
    assert!(cache
        .get(NAMESPACE, TEST_SECRET_NAME, TEST_SECRET_KEY, at(1_700_000_001, 0))
        .is_none());
    assert!(cache.get("other", TEST_SECRET_NAME, TEST_SECRET_KEY, start).is_none());
    assert!(cache.get(NAMESPACE, TEST_SECRET_NAME, "other", start).is_none());
}

#[test]
fn cached_values_that_are_not_texts_are_refused() {
    let mut cache = SecretsCache::new(Duration::from_secs(60));
    let now = at(0, 0);
    let secret = Ok(Some(data(&[("good", b"x"), ("bad", &[0xc3, 0x28])])));
    assert_eq!(cache.save("ns", "s", "good", secret, now).unwrap(), "x");
    match cache.get("ns", "s", "bad", now) {
        Some(Err(Error::SecretDecodingError(text))) => {
            assert_eq!(text, "error converting string `bad` from UTF8 in the secret `s`")
        }
        other => panic!("unexpected result {other:?}"),
    }
}

#[test]
fn resources_are_looked_up_by_name_and_namespace() {
    let key = cache_key("name", Some("ns"));
    assert_eq!((key.name.as_str(), key.namespace.as_str()), ("name", "ns"));
    assert_eq!(cache_key("name", None).namespace, "default");
    assert_eq!(cached(Some(5), "name", None).unwrap(), 5);
    let err = cached::<u8>(None, "name", Some("ns")).unwrap_err();
    assert_eq!(err.to_string(), "Resource not found in cache: ns/name");
    let err = cached::<u8>(None, "name", None).unwrap_err();
    assert_eq!(err.to_string(), "Resource not found in cache: name");
}

#[test]
fn default_cli_consistency() {
    let cli = CliConfig::default();
    assert_eq!(cli.webhooks_port, 8080);
    assert_eq!(cli.utility_port, 3000);
    assert_eq!(cli.webhooks_parallelism, 16);
    assert_eq!(cli.schedule_parallelism, 16);
    assert_eq!(cli.secrets_cache_time, 60);
    assert_eq!(cli.source_clone_folder, "/tmp/git-events-runner");
    assert_eq!(cli.config_map_name, "git-events-runner-config");
    assert_eq!(cli.leader_lease_name, "git-events-runner-leader-lock");
    assert_eq!(cli.leader_lease_duration, 30);
    assert_eq!(cli.leader_lease_grace, 5);
    assert_eq!(cli.metrics_prefix, "git_events_runner");
    assert!(cli.hooks_rrl_global.is_none());
    assert!(cli.hooks_rrl_trigger.is_none());
    assert!(cli.hooks_rrl_source.is_none());
    assert!(cli.tls_cert_path.is_none());
    assert!(cli.tls_key_path.is_none());
    assert!(cli.tls_secret_name.is_none());
    assert!(cli.tls_secret_namespace.is_none());
    assert!(!cli.json_logs);
}

#[test]
fn shared_config_is_that_of_a_run() {
    let mut config = CliConfig::default();
    config.webhooks_port = 81;
    let shared = Cli::Run(config).shared_config();
    assert_eq!(CliConfig::get(&shared).webhooks_port, 81);
    assert!(Cli::Crds.shared_config().is_none());
    let options = CliConfigDumpOptions { helm_template: true };
    assert!(Cli::Config(options).shared_config().is_none());
    assert_eq!(options.yaml_opts(), YamlConfigOpts::HelmTemplate);
    assert_eq!(
        CliConfigDumpOptions { helm_template: false }.yaml_opts(),
        YamlConfigOpts::Raw
    );
}

#[test]
fn rate_limits_come_from_the_command_line() {
    let params = Cli::rrl_parser("10/5").unwrap();
    assert_eq!(params.burst, 10);
    assert_eq!(params.period, Duration::from_millis(500));
    assert_eq!(
        Cli::rrl_parser("x").unwrap_err(),
        "Incorrect request rate limit parameter: x"
    );
    let mut config = CliConfig::default();
    config.hooks_rrl_trigger = Some(params);
    let limits = config.request_rate_limits();
    assert!(limits.global.is_none());
    assert_eq!(limits.trigger, Some(params));
    assert!(limits.source.is_none());
}

#[test]
fn tls_config_nothing() {
    assert!(matches!(CliConfig::default().tls_source(), TlsSource::Nowhere));
}

#[test]
fn tls_config_cert_key() {
    let mut cli = CliConfig::default();
    cli.tls_cert_path = Some("/end.crt".to_string());
    assert!(matches!(cli.tls_source(), TlsSource::Nowhere));
    cli.tls_key_path = Some("/test-server.key".to_string());
    cli.tls_secret_name = Some("ignored".to_string());
    let source = cli.tls_source();
    assert_eq!(
        source.error_context(),
        "Unable to apply TLS config with cert=/end.crt and key=/test-server.key"
    );
    match source {
        TlsSource::Files { cert, key } => {
            assert_eq!(cert, "/end.crt");
            assert_eq!(key, "/test-server.key");
        }
        other => panic!("unexpected source {other:?}"),
    }
}

#[test]
fn tls_config_secret() {
    let mut cli = CliConfig::default();
    cli.tls_secret_name = Some("test-tls-certificates".to_string());
    cli.tls_secret_namespace = Some("secret-tls-test".to_string());
    let source = cli.tls_source();
    assert_eq!(source.error_context(), "Unable to get TLS secret test-tls-certificates");
    assert!(matches!(source, TlsSource::Secret { namespace: Some(ns), .. } if ns == "secret-tls-test"));

    let secret = data(&[("tls.crt", b"CERT"), ("tls.key", b"KEY")]);
    let (cert, key) = tls_from_secret(&Some(secret), "s").unwrap();
    assert_eq!(cert, b"CERT".to_vec());
    assert_eq!(key, b"KEY".to_vec());

    let failures: Vec<(Option<StringMap<Vec<u8>>>, &str)> = vec![
        (None, "GitRepo Secret Decoding Error: no `data` part in the secret `s`"),
        (
            Some(data(&[("tls.key", b"KEY")])),
            "GitRepo Secret Decoding Error: no `tls.crt` key in the secret `s`",
        ),
        (
            Some(data(&[("tls.crt", &[0xff]), ("tls.key", b"KEY")])),
            "TLS cert is not a valid UTF-8 string",
        ),
        (
            Some(data(&[("tls.crt", b"CERT")])),
            "GitRepo Secret Decoding Error: no `tls.key` key in the secret `s`",
        ),
        (
            Some(data(&[("tls.crt", b"CERT"), ("tls.key", &[0xff])])),
            "TLS key is not a valid UTF-8 string",
        ),
    ];
    for (secret, message) in failures {
        assert_eq!(tls_from_secret(&secret, "s").unwrap_err(), message);
    }
}

#[test]
fn yaml_config_consistency() {
    let config = RuntimeConfig::for_opts(YamlConfigOpts::HelmTemplate);
    assert_eq!(
        config.action.default_service_account,
        Some(r#"{{ include "git-events-runner.actionJobServiceAccountName" . }}"#.to_string())
    );
    assert_eq!(
        config.action.containers.cloner.image,
        "ghcr.io/alex-karpenko/git-events-runner/gitrepo-cloner:{{ .Chart.AppVersion }}"
    );
    assert_eq!(
        config.action.containers.worker.image,
        "ghcr.io/alex-karpenko/git-events-runner/action-worker:{{ .Chart.AppVersion }}"
    );
    assert_eq!(config.action.max_running_jobs, 16);
    assert_eq!(config.action.job_waiting_timeout_seconds, 300);
    assert_eq!(config.action.active_deadline_seconds, 3600);
    assert_eq!(config.action.ttl_seconds_after_finished, 7200);
    assert_eq!(config.action.workdir.mount_path, "/action_workdir");
    assert_eq!(config.action.workdir.volume_name, "action_workdir");
    assert_eq!(config.action.containers.cloner.name, "gitrepo-cloner");
    assert_eq!(config.action.containers.worker.name, "action-worker");
    assert_eq!(config.action.containers.worker.variables_prefix, "ACTION_JOB_");
    assert_eq!(config.trigger.webhook.default_auth_header, "x-trigger-auth");

    let raw = RuntimeConfig::for_opts(YamlConfigOpts::Raw);
    assert_eq!(raw.action.default_service_account, None);
    assert_eq!(
        raw.action.containers.worker.image,
        "ghcr.io/alex-karpenko/git-events-runner/action-worker:v0.4.8"
    );
}

#[test]
fn config_maps_hold_the_config_under_a_key() {
    let mut map = StringMap::new();
    map.insert("runtimeConfig".to_string(), "action: {}".to_string());
    assert_eq!(RuntimeConfig::config_map_text(&Some(map)).unwrap(), "action: {}");
    let empty: StringMap<String> = StringMap::new();
    assert!(matches!(
        RuntimeConfig::config_map_text(&Some(empty)),
        Err(Error::RuntimeConfigFormatError)
    ));
    assert!(matches!(
        RuntimeConfig::config_map_text(&None),
        Err(Error::RuntimeConfigFormatError)
    ));
    let err = RuntimeConfig::try_from(Err("line 1".to_string())).unwrap_err();
    assert_eq!(err.to_string(), "Config deserialization error: line 1");
}

#[test]
fn values_that_are_not_given_have_their_defaults() {
    let values = ConfigValues {
        max_running_jobs: Some(3),
        worker_image: Some("image".to_string()),
        default_service_account: Some("account".to_string()),
        ..Default::default()
    };
    let config = RuntimeConfig::try_from(Ok(values)).unwrap();
    assert_eq!(config.action.max_running_jobs, 3);
    assert_eq!(config.action.containers.worker.image, "image");
    assert_eq!(config.action.default_service_account, Some("account".to_string()));
    assert_eq!(config.action.job_waiting_timeout_seconds, 300);
    assert_eq!(config.action.active_deadline_seconds, 3600);
    assert_eq!(config.action.ttl_seconds_after_finished, 7200);
    assert_eq!(config.action.workdir.mount_path, "/action_workdir");
    assert_eq!(config.action.workdir.volume_name, "action_workdir");
    assert_eq!(config.action.containers.cloner.name, "gitrepo-cloner");
    assert_eq!(
        config.action.containers.cloner.image,
        "ghcr.io/alex-karpenko/git-events-runner/gitrepo-cloner:v0.4.8"
    );
    assert_eq!(config.action.containers.worker.name, "action-worker");
    assert_eq!(config.action.containers.worker.variables_prefix, "ACTION_JOB_");
    assert_eq!(config.trigger.webhook.default_auth_header, "x-trigger-auth");
}

#[test]
fn written_config_is_read_back() {
    for opts in [YamlConfigOpts::Raw, YamlConfigOpts::HelmTemplate] {
        let config = RuntimeConfig::for_opts(opts);
        let before = format!("{config:?}");
        let read = RuntimeConfig::filled(config.values());
        assert_eq!(format!("{read:?}"), before);
    }
    let default = RuntimeConfig::filled(ConfigValues::default());
    assert_eq!(format!("{default:?}"), format!("{:?}", RuntimeConfig::default()));
}

#[test]
fn broken_changes_of_the_config_are_skipped() {
    let mut channel = ConfigChannel::init(Err(Error::RuntimeConfigFormatError));
    assert_eq!(RuntimeConfig::get(&channel).action.max_running_jobs, 16);
    let mut config = RuntimeConfig::default();
    config.action.max_running_jobs = 3;
    channel.update(Ok(config));
    assert_eq!(RuntimeConfig::get(&channel).action.max_running_jobs, 3);
    channel.update(Err(Error::RuntimeConfigFormatError));
    assert_eq!(RuntimeConfig::get(&channel).action.max_running_jobs, 3);
}
