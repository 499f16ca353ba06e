//! Command line of the controller.
use crate::config::YamlConfigOpts;
use crate::error::Error;
use crate::string_map::StringMap;
use crate::text::{copy_bytes, copy_opt, string_from_utf8};
use crate::web::rate_limit::{
    limit_in_range, parsed_limit, replenish_nanos, RequestRateLimitsConfig, RequestsRateLimitParams,
};
use vstd::prelude::*;
use vstd::utf8::valid_utf8;

verus! {

/// Folder to clone repositories to.
pub const DEFAULT_SOURCE_CLONE_FOLDER: &'static str = "/tmp/git-events-runner";

/// Config map of the dynamic configuration.
pub const DEFAULT_CONFIG_MAP_NAME: &'static str = "git-events-runner-config";

/// Lease of the leader.
pub const DEFAULT_LEADER_LOCK_LEASE_NAME: &'static str = "git-events-runner-leader-lock";

/// What the names of metrics begin with.
pub const DEFAULT_METRICS_PREFIX: &'static str = "git_events_runner";

/// Port of the webhooks.
pub const DEFAULT_WEBHOOKS_PORT: u16 = 8080;

/// Port of the utilities.
pub const DEFAULT_UTILITY_PORT: u16 = 3000;

/// Number of triggers that run at the same time.
pub const DEFAULT_PARALLELISM: u16 = 16;

/// Seconds that secrets are cached.
pub const DEFAULT_SECRETS_CACHE_TIME: u64 = 60;

/// Seconds that the leader's lease lasts.
pub const DEFAULT_LEADER_LEASE_DURATION: u64 = 30;

/// Seconds before its end at which the leader's lease is renewed.
pub const DEFAULT_LEADER_LEASE_GRACE: u64 = 5;

/// What to do.
#[derive(Debug)]
pub enum Cli {
    /// Print the definitions of the custom resources.
    Crds,
    /// Print the default dynamic configuration.
    Config(CliConfigDumpOptions),
    /// Run the controller.
    Run(CliConfig),
}

/// How to run the controller.
#[derive(Debug)]
pub struct CliConfig {
    /// Port of the webhooks.
    pub webhooks_port: u16,
    /// Port of the utilities.
    pub utility_port: u16,
    /// Number of webhook triggers that run at the same time.
    pub webhooks_parallelism: u16,
    /// Number of schedule triggers that run at the same time.
    pub schedule_parallelism: u16,
    /// Seconds that secrets are cached.
    pub secrets_cache_time: u64,
    /// Folder to clone repositories to.
    pub source_clone_folder: String,
    /// Config map of the dynamic configuration.
    pub config_map_name: String,
    /// Lease of the leader.
    pub leader_lease_name: String,
    /// Seconds that the leader's lease lasts.
    pub leader_lease_duration: u64,
    /// Seconds before its end at which the leader's lease is renewed.
    pub leader_lease_grace: u64,
    /// What the names of metrics begin with.
    pub metrics_prefix: String,
    /// Limit of the rate of all requests to webhooks together.
    pub hooks_rrl_global: Option<RequestsRateLimitParams>,
    /// Limit of the rate of requests to each trigger.
    pub hooks_rrl_trigger: Option<RequestsRateLimitParams>,
    /// Limit of the rate of requests to each source.
    pub hooks_rrl_source: Option<RequestsRateLimitParams>,
    /// File of the TLS certificate.
    pub tls_cert_path: Option<String>,
    /// File of the TLS key.
    pub tls_key_path: Option<String>,
    /// Secret of the TLS certificate and key.
    pub tls_secret_name: Option<String>,
    /// Namespace of that secret.
    pub tls_secret_namespace: Option<String>,
    /// Write logs in JSON.
    pub json_logs: bool,
}

/// How to print the default dynamic configuration.
#[derive(Clone, Copy, Debug, PartialEq, Eq, Structural)]
pub struct CliConfigDumpOptions {
    /// With templates of the Helm chart.
    pub helm_template: bool,
}

impl CliConfigDumpOptions {
    /// Form of the configuration to print.
    pub fn yaml_opts(&self) -> (r: YamlConfigOpts)
        ensures
            r == if self.helm_template {
                YamlConfigOpts::HelmTemplate
            } else {
                YamlConfigOpts::Raw
            },
    {
        if self.helm_template {
            YamlConfigOpts::HelmTemplate
        } else {
            YamlConfigOpts::Raw
        }
    }
}

impl Clone for CliConfig {
    fn clone(&self) -> (r: Self)
        ensures
            r == *self,
    {
        CliConfig {
            webhooks_port: self.webhooks_port,
            utility_port: self.utility_port,
            webhooks_parallelism: self.webhooks_parallelism,
            schedule_parallelism: self.schedule_parallelism,
            secrets_cache_time: self.secrets_cache_time,
            source_clone_folder: self.source_clone_folder.clone(),
            config_map_name: self.config_map_name.clone(),
            leader_lease_name: self.leader_lease_name.clone(),
            leader_lease_duration: self.leader_lease_duration,
            leader_lease_grace: self.leader_lease_grace,
            metrics_prefix: self.metrics_prefix.clone(),
            hooks_rrl_global: self.hooks_rrl_global,
            hooks_rrl_trigger: self.hooks_rrl_trigger,
            hooks_rrl_source: self.hooks_rrl_source,
            tls_cert_path: copy_opt(&self.tls_cert_path),
            tls_key_path: copy_opt(&self.tls_key_path),
            tls_secret_name: copy_opt(&self.tls_secret_name),
            tls_secret_namespace: copy_opt(&self.tls_secret_namespace),
            json_logs: self.json_logs,
        }
    }
}

impl Default for CliConfig {
    fn default() -> (r: Self)
        ensures
            r.webhooks_port == 8080,
            r.utility_port == 3000,
            r.webhooks_parallelism == 16,
            r.schedule_parallelism == 16,
            r.secrets_cache_time == 60,
            r.source_clone_folder@ == "/tmp/git-events-runner"@,
            r.config_map_name@ == "git-events-runner-config"@,
            r.leader_lease_name@ == "git-events-runner-leader-lock"@,
            r.leader_lease_duration == 30,
            r.leader_lease_grace == 5,
            r.metrics_prefix@ == "git_events_runner"@,
            r.hooks_rrl_global is None,
            r.hooks_rrl_trigger is None,
            r.hooks_rrl_source is None,
            r.tls_cert_path is None,
            r.tls_key_path is None,
            r.tls_secret_name is None,
            r.tls_secret_namespace is None,
            !r.json_logs,
    {
        CliConfig {
            webhooks_port: DEFAULT_WEBHOOKS_PORT,
            utility_port: DEFAULT_UTILITY_PORT,
            webhooks_parallelism: DEFAULT_PARALLELISM,
            schedule_parallelism: DEFAULT_PARALLELISM,
            secrets_cache_time: DEFAULT_SECRETS_CACHE_TIME,
            source_clone_folder: DEFAULT_SOURCE_CLONE_FOLDER.to_owned(),
            config_map_name: DEFAULT_CONFIG_MAP_NAME.to_owned(),
            leader_lease_name: DEFAULT_LEADER_LOCK_LEASE_NAME.to_owned(),
            leader_lease_duration: DEFAULT_LEADER_LEASE_DURATION,
            leader_lease_grace: DEFAULT_LEADER_LEASE_GRACE,
            metrics_prefix: DEFAULT_METRICS_PREFIX.to_owned(),
            hooks_rrl_global: None,
            hooks_rrl_trigger: None,
            hooks_rrl_source: None,
            tls_cert_path: None,
            tls_key_path: None,
            tls_secret_name: None,
            tls_secret_namespace: None,
            json_logs: false,
        }
    }
}

impl Cli {
    /// Configuration to share with the whole controller, if it is to run.
    pub fn shared_config(&self) -> (r: Option<CliConfig>)
        ensures
            r == match *self {
                Cli::Run(config) => Some(config),
                _ => None,
            },
    {
        match self {
            Cli::Run(config) => Some(config.clone()),
            _ => None,
        }
    }

    /// Reads a limit of the rate of requests, or describes what is wrong with it.
    pub fn rrl_parser(s: &str) -> (r: Result<RequestsRateLimitParams, String>)
        requires
            limit_in_range(s@),
        ensures
            match parsed_limit(s@) {
                Some(limit) => r matches Ok(params) && params.burst == limit.0 && params.period.wf()
                    && params.period@ == replenish_nanos(limit.1, limit.0),
                None => r matches Err(text) && text@ == "Incorrect request rate limit parameter: "@ + s@,
            },
    {
        match RequestsRateLimitParams::try_from(s) {
            Ok(params) => Ok(params),
            Err(e) => Err(e.to_string()),
        }
    }
}

/// Where the TLS certificate and key come from.
#[derive(Debug)]
pub enum TlsSource {
    /// From files.
    Files {
        /// File of the certificate.
        cert: String,
        /// File of the key.
        key: String,
    },
    /// From a secret.
    Secret {
        /// Name of the secret.
        name: String,
        /// Namespace of the secret, or the default one.
        namespace: Option<String>,
    },
    /// From nowhere: TLS isn't used.
    Nowhere,
}

impl TlsSource {
    /// Describes what failed when the certificate and key couldn't be had.
    pub fn error_context(&self) -> (r: String)
        ensures
            r@ == match *self {
                TlsSource::Files { cert, key } => "Unable to apply TLS config with cert="@ + cert@
                    + " and key="@ + key@,
                TlsSource::Secret { name, .. } => "Unable to get TLS secret "@ + name@,
                TlsSource::Nowhere => Seq::<char>::empty(),
            },
    {
        match self {
            TlsSource::Files { cert, key } => "Unable to apply TLS config with cert=".to_owned().concat(
                cert.as_str(),
            ).concat(" and key=").concat(key.as_str()),
            TlsSource::Secret { name, .. } => "Unable to get TLS secret ".to_owned().concat(
                name.as_str(),
            ),
            TlsSource::Nowhere => String::new(),
        }
    }
}

/// Reason why a secret has no TLS certificate and key.
pub open spec fn tls_secret_error(data: Option<StringMap<Vec<u8>>>, secret_name: Seq<char>) -> Option<
    Seq<char>,
> {
    let decoding = "GitRepo Secret Decoding Error: "@;
    match data {
        None => Some(decoding + ("no `data` part in the secret `"@ + secret_name + "`"@)),
        Some(map) => if !map@.contains_key("tls.crt"@) {
            Some(decoding + ("no `tls.crt` key in the secret `"@ + secret_name + "`"@))
        } else if !valid_utf8(map@["tls.crt"@]@) {
            Some("TLS cert is not a valid UTF-8 string"@)
        } else if !map@.contains_key("tls.key"@) {
            Some(decoding + ("no `tls.key` key in the secret `"@ + secret_name + "`"@))
        } else if !valid_utf8(map@["tls.key"@]@) {
            Some("TLS key is not a valid UTF-8 string"@)
        } else {
            None
        },
    }
}

fn decoding_error(text: String) -> (r: String)
    ensures
        r@ == "GitRepo Secret Decoding Error: "@ + text@,
{
    Error::SecretDecodingError(text).to_string()
}

/// TLS certificate and key of a secret, or the reason why it has none.
pub fn tls_from_secret(data: &Option<StringMap<Vec<u8>>>, secret_name: &str) -> (r: Result<
    (Vec<u8>, Vec<u8>),
    String,
>)
    ensures
        match tls_secret_error(*data, secret_name@) {
            Some(reason) => r matches Err(text) && text@ == reason,
            None => r matches Ok(pair) && pair.0@ == data->0@["tls.crt"@]@ && pair.1@
                == data->0@["tls.key"@]@,
        },
{
    let map = match data {
        Some(map) => map,
        None => {
            return Err(
                decoding_error(
                    "no `data` part in the secret `".to_owned().concat(secret_name).concat("`"),
                ),
            );
        },
    };
    let cert = match map.get("tls.crt") {
        Some(value) => copy_bytes(value),
        None => {
            return Err(
                decoding_error(
                    "no `tls.crt` key in the secret `".to_owned().concat(secret_name).concat("`"),
                ),
            );
        },
    };
    if string_from_utf8(copy_bytes(&cert)).is_none() {
        return Err("TLS cert is not a valid UTF-8 string".to_owned());
    }
    let key = match map.get("tls.key") {
        Some(value) => copy_bytes(value),
        None => {
            return Err(
                decoding_error(
                    "no `tls.key` key in the secret `".to_owned().concat(secret_name).concat("`"),
                ),
            );
        },
    };
    if string_from_utf8(copy_bytes(&key)).is_none() {
        return Err("TLS key is not a valid UTF-8 string".to_owned());
    }
    Ok((cert, key))
}

impl CliConfig {
    /// Configuration that the controller was started with.
    pub fn get(shared: &Option<CliConfig>) -> (r: &CliConfig)
        requires
            shared is Some,
        ensures
            Some(*r) == *shared,
    {
        shared.as_ref().unwrap()
    }

    /// Where the TLS certificate and key come from: from files if both are given, otherwise from a
    /// secret if one is given.
    pub fn tls_source(&self) -> (r: TlsSource)
        ensures
            r == match (self.tls_cert_path, self.tls_key_path, self.tls_secret_name) {
                (Some(cert), Some(key), _) => TlsSource::Files { cert, key },
                (_, _, Some(name)) => TlsSource::Secret { name, namespace: self.tls_secret_namespace },
                (_, _, None) => TlsSource::Nowhere,
            },
    {
        match (&self.tls_cert_path, &self.tls_key_path, &self.tls_secret_name) {
            (Some(cert), Some(key), _) => TlsSource::Files { cert: cert.clone(), key: key.clone() },
            (_, _, Some(name)) => TlsSource::Secret {
                name: name.clone(),
                namespace: copy_opt(&self.tls_secret_namespace),
            },
            (_, _, None) => TlsSource::Nowhere,
        }
    }

    /// Limits of the rate of requests to webhooks.
    pub fn request_rate_limits(&self) -> (r: RequestRateLimitsConfig)
        ensures
            r.global == self.hooks_rrl_global,
            r.trigger == self.hooks_rrl_trigger,
            r.source == self.hooks_rrl_source,
    {
        RequestRateLimitsConfig {
            global: self.hooks_rrl_global,
            trigger: self.hooks_rrl_trigger,
            source: self.hooks_rrl_source,
        }
    }
}

} // verus!
