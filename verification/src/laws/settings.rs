//! Configuration and command line.
use crate::cli::{tls_from_secret, Cli, CliConfig, CliConfigDumpOptions, TlsSource};
use crate::config::{ConfigChannel, ConfigValues, RuntimeConfig, YamlConfigOpts};
use crate::error::Error;
use crate::string_map::StringMap;
use crate::web::rate_limit::{RequestRateLimitsConfig, RequestsRateLimitParams};
use vstd::prelude::*;
use vstd::utf8::valid_utf8;

verus! {

/// The text is the given one, or the default one.
pub open spec fn is_given_or(text: String, given: Option<String>, default: Seq<char>) -> bool {
    &&& given matches Some(value) ==> text@ == value@
    &&& given is None ==> text@ == default
}

/// Image in the repository.
pub open spec fn image_of(name: Seq<char>, tag: Seq<char>) -> Seq<char> {
    "ghcr.io/alex-karpenko/git-events-runner"@ + "/"@ + name + ":"@ + tag
}

/// The configuration is as given, and the default one in all else, with images of a version.
pub open spec fn is_given(config: RuntimeConfig, given: ConfigValues, version: Seq<char>) -> bool {
    &&& given.max_running_jobs matches Some(n) ==> config.action.max_running_jobs == n
    &&& given.max_running_jobs is None ==> config.action.max_running_jobs == 16
    &&& given.job_waiting_timeout_seconds matches Some(n) ==> config.action.job_waiting_timeout_seconds == n
    &&& given.job_waiting_timeout_seconds is None ==> config.action.job_waiting_timeout_seconds == 300
    &&& given.default_service_account matches Some(name) ==> (
        config.action.default_service_account matches Some(text) && text@ == name@)
    &&& given.default_service_account is None ==> config.action.default_service_account is None
    &&& given.active_deadline_seconds matches Some(n) ==> config.action.active_deadline_seconds == n
    &&& given.active_deadline_seconds is None ==> config.action.active_deadline_seconds == 3600
    &&& given.ttl_seconds_after_finished matches Some(n) ==> config.action.ttl_seconds_after_finished == n
    &&& given.ttl_seconds_after_finished is None ==> config.action.ttl_seconds_after_finished == 7200
    &&& is_given_or(config.action.workdir.mount_path, given.mount_path, "/action_workdir"@)
    &&& is_given_or(config.action.workdir.volume_name, given.volume_name, "action_workdir"@)
    &&& is_given_or(config.action.containers.cloner.name, given.cloner_name, "gitrepo-cloner"@)
    &&& is_given_or(
        config.action.containers.cloner.image,
        given.cloner_image,
        image_of("gitrepo-cloner"@, version),
    )
    &&& is_given_or(config.action.containers.worker.name, given.worker_name, "action-worker"@)
    &&& is_given_or(
        config.action.containers.worker.image,
        given.worker_image,
        image_of("action-worker"@, version),
    )
    &&& is_given_or(
        config.action.containers.worker.variables_prefix,
        given.variables_prefix,
        "ACTION_JOB_"@,
    )
    &&& is_given_or(
        config.trigger.webhook.default_auth_header,
        given.default_auth_header,
        "x-trigger-auth"@,
    )
}

/// Values that give nothing.
pub open spec fn nothing_given() -> ConfigValues {
    ConfigValues {
        max_running_jobs: None,
        job_waiting_timeout_seconds: None,
        default_service_account: None,
        active_deadline_seconds: None,
        ttl_seconds_after_finished: None,
        mount_path: None,
        volume_name: None,
        cloner_name: None,
        cloner_image: None,
        worker_name: None,
        worker_image: None,
        variables_prefix: None,
        default_auth_header: None,
    }
}

/// Where nothing is given, the configuration has its default values.
pub proof fn law_config_has_defaults(
    raw: RuntimeConfig,
    default: RuntimeConfig,
    kept: ConfigChannel,
    error: Error,
)
    requires
        call_ensures(RuntimeConfig::for_opts, (YamlConfigOpts::Raw,), raw),
        call_ensures(<RuntimeConfig as Default>::default, (), default),
        call_ensures(ConfigChannel::init, (Err(error),), kept),
    ensures
        is_given(raw, nothing_given(), "v"@ + "0.4.8"@),
        is_given(default, nothing_given(), "v"@ + "0.4.8"@),
        is_given(kept.current, nothing_given(), "v"@ + "0.4.8"@),
{
}

/// For the Helm chart the default configuration names the chart's service account, and has images of the
/// chart's version.
pub proof fn law_chart_has_its_own_defaults(helm: RuntimeConfig, account: String)
    requires
        call_ensures(RuntimeConfig::for_opts, (YamlConfigOpts::HelmTemplate,), helm),
        account@ == "{{ include \"git-events-runner.actionJobServiceAccountName\" . }}"@,
    ensures
        is_given(
            helm,
            ConfigValues { default_service_account: Some(account), ..nothing_given() },
            "{{ .Chart.AppVersion }}"@,
        ),
{
}

/// A configuration is what is given, and the default one in all else.
pub proof fn law_given_values_are_taken(
    given: ConfigValues,
    config: RuntimeConfig,
    read: Result<RuntimeConfig, Error>,
)
    requires
        call_ensures(RuntimeConfig::filled, (given,), config),
        call_ensures(RuntimeConfig::try_from, (Ok(given),), read),
    ensures
        is_given(config, given, "v"@ + "0.4.8"@),
        read matches Ok(other) && is_given(other, given, "v"@ + "0.4.8"@),
{
}

/// A text that can't be read gives no configuration but the reason.
pub proof fn law_unreadable_config_is_an_error(reason: String, r: Result<RuntimeConfig, Error>)
    requires
        call_ensures(RuntimeConfig::try_from, (Err(reason),), r),
    ensures
        r == Err::<RuntimeConfig, Error>(Error::ConfigDeserializationError(reason)),
{
}

/// A configuration that is written out and read again says the same.
pub proof fn law_config_survives_writing(
    config: RuntimeConfig,
    values: ConfigValues,
    read: RuntimeConfig,
)
    requires
        call_ensures(RuntimeConfig::values, (config,), values),
        call_ensures(RuntimeConfig::filled, (values,), read),
    ensures
        read.action.max_running_jobs == config.action.max_running_jobs,
        read.action.job_waiting_timeout_seconds == config.action.job_waiting_timeout_seconds,
        read.action.default_service_account == config.action.default_service_account,
        read.action.active_deadline_seconds == config.action.active_deadline_seconds,
        read.action.ttl_seconds_after_finished == config.action.ttl_seconds_after_finished,
        read.action.workdir.mount_path@ == config.action.workdir.mount_path@,
        read.action.workdir.volume_name@ == config.action.workdir.volume_name@,
        read.action.containers.cloner.name@ == config.action.containers.cloner.name@,
        read.action.containers.cloner.image@ == config.action.containers.cloner.image@,
        read.action.containers.worker.name@ == config.action.containers.worker.name@,
        read.action.containers.worker.image@ == config.action.containers.worker.image@,
        read.action.containers.worker.variables_prefix@ == config.action.containers.worker.variables_prefix@,
        read.trigger.webhook.default_auth_header@ == config.trigger.webhook.default_auth_header@,
{
}

/// The configuration is the one that was last loaded. One that couldn't be loaded changes nothing.
pub proof fn law_last_loaded_config_is_current(
    first: RuntimeConfig,
    kept: ConfigChannel,
    channel: &mut ConfigChannel,
    loaded: Result<RuntimeConfig, Error>,
    r: &RuntimeConfig,
)
    requires
        call_ensures(ConfigChannel::init, (Ok(first),), kept),
        *old(channel) == kept,
        call_ensures(ConfigChannel::update, (channel, loaded), ()),
        call_ensures(RuntimeConfig::get, (final(channel),), r),
    ensures
        loaded matches Ok(config) ==> *r == config,
        loaded is Err ==> *r == first,
{
}

/// The configuration stands under its key in the config map.
pub proof fn law_config_stands_in_the_config_map(data: &Option<StringMap<String>>, r: Result<String, Error>)
    requires
        call_ensures(RuntimeConfig::config_map_text, (data,), r),
    ensures
        r is Ok == (data is Some && data->0@.contains_key("runtimeConfig"@)),
        r matches Ok(text) ==> text == data->0@["runtimeConfig"@],
        r matches Err(e) ==> e == Error::RuntimeConfigFormatError,
{
}

/// The certificate and key for TLS come from files if both are named, otherwise from the secret if it is
/// named.
pub proof fn law_files_win_over_the_secret(config: &CliConfig, r: TlsSource)
    requires
        call_ensures(CliConfig::tls_source, (config,), r),
    ensures
        r is Files == (config.tls_cert_path is Some && config.tls_key_path is Some),
        r matches TlsSource::Files { cert, key } ==> config.tls_cert_path == Some(cert)
            && config.tls_key_path == Some(
            key,
        ),
        r is Secret == (!(config.tls_cert_path is Some && config.tls_key_path is Some)
            && config.tls_secret_name is Some),
        r matches TlsSource::Secret { name, namespace } ==> config.tls_secret_name == Some(name)
            && config.tls_secret_namespace == namespace,
{
}

/// A secret gives the certificate and key if it has both and both are texts. Otherwise the first thing
/// that is wrong is named, the certificate before the key.
pub proof fn law_tls_secret_has_certificate_and_key(
    data: &Option<StringMap<Vec<u8>>>,
    name: &str,
    r: Result<(Vec<u8>, Vec<u8>), String>,
)
    requires
        call_ensures(tls_from_secret, (data, name), r),
    ensures
        r is Ok == (*data matches Some(map) && map@.contains_key("tls.crt"@) && map@.contains_key("tls.key"@)
            && valid_utf8(map@["tls.crt"@]@) && valid_utf8(map@["tls.key"@]@)),
        r matches Ok(pair) ==> pair.0@ == data->0@["tls.crt"@]@ && pair.1@ == data->0@["tls.key"@]@,
        data is None ==> (r matches Err(text) && text@ == "GitRepo Secret Decoding Error: "@ + (
        "no `data` part in the secret `"@ + name@ + "`"@)),
        *data matches Some(map) ==> (!map@.contains_key("tls.crt"@) ==> (r matches Err(text) && text@
            == "GitRepo Secret Decoding Error: "@ + ("no `tls.crt` key in the secret `"@ + name@ + "`"@))),
        *data matches Some(map) ==> (map@.contains_key("tls.crt"@) && !valid_utf8(map@["tls.crt"@]@) ==> (
        r matches Err(text) && text@ == "TLS cert is not a valid UTF-8 string"@)),
        *data matches Some(map) ==> (map@.contains_key("tls.crt"@) && valid_utf8(map@["tls.crt"@]@)
            && !map@.contains_key("tls.key"@) ==> (r matches Err(text) && text@
            == "GitRepo Secret Decoding Error: "@ + ("no `tls.key` key in the secret `"@ + name@ + "`"@))),
        *data matches Some(map) ==> (map@.contains_key("tls.crt"@) && valid_utf8(map@["tls.crt"@]@)
            && map@.contains_key("tls.key"@) && !valid_utf8(map@["tls.key"@]@) ==> (r matches Err(text)
            && text@ == "TLS key is not a valid UTF-8 string"@)),
{
}

/// What failed is described by what was tried.
pub proof fn law_tls_failure_is_described(source: &TlsSource, r: String)
    requires
        call_ensures(TlsSource::error_context, (source,), r),
    ensures
        *source matches TlsSource::Files { cert, key } ==> r@ == "Unable to apply TLS config with cert="@ + cert@
            + " and key="@ + key@,
        *source matches TlsSource::Secret { name, namespace } ==> r@ == "Unable to get TLS secret "@ + name@,
        source is Nowhere ==> r@.len() == 0,
{
}

/// The limits are those of the command line.
pub proof fn law_limits_are_those_of_the_command_line(config: &CliConfig, r: RequestRateLimitsConfig)
    requires
        call_ensures(CliConfig::request_rate_limits, (config,), r),
    ensures
        r.global == config.hooks_rrl_global,
        r.trigger == config.hooks_rrl_trigger,
        r.source == config.hooks_rrl_source,
{
}

/// On the command line a limit is what a text of a limit says everywhere.
pub proof fn law_limit_of_the_command_line(
    text: &str,
    r: Result<RequestsRateLimitParams, String>,
    params: Result<RequestsRateLimitParams, Error>,
)
    requires
        call_ensures(Cli::rrl_parser, (text,), r),
        call_ensures(RequestsRateLimitParams::try_from, (text,), params),
    ensures
        r is Ok == params is Ok,
        r is Ok ==> r->Ok_0.burst == params->Ok_0.burst && super::queue::length_nanos(r->Ok_0.period)
            == super::queue::length_nanos(params->Ok_0.period),
        r matches Err(reason) ==> reason@ == "Incorrect request rate limit parameter: "@ + text@,
{
}

/// Only a running controller has a configuration to share, which is that of its command line.
pub proof fn law_running_controller_shares_its_config(cli: &Cli, shared: Option<CliConfig>, r: &CliConfig)
    requires
        call_ensures(Cli::shared_config, (cli,), shared),
        shared is Some ==> call_ensures(CliConfig::get, (&shared,), r),
    ensures
        shared is Some == *cli is Run,
        *cli matches Cli::Run(config) ==> *r == config,
{
}

/// The default configuration is printed for the Helm chart if that is asked for.
pub proof fn law_chart_is_printed_if_asked_for(opts: &CliConfigDumpOptions, r: YamlConfigOpts)
    requires
        call_ensures(CliConfigDumpOptions::yaml_opts, (opts,), r),
    ensures
        (r == YamlConfigOpts::HelmTemplate) == opts.helm_template,
{
}

/// Without arguments the controller runs with its default settings, and a copy has the same.
pub proof fn law_command_line_has_defaults(r: CliConfig, copy: CliConfig)
    requires
        call_ensures(<CliConfig as Default>::default, (), r),
        call_ensures(<CliConfig as Clone>::clone, (&r,), copy),
    ensures
        copy == r,
        r.webhooks_port == 8080 && r.utility_port == 3000,
        r.webhooks_parallelism == 16 && r.schedule_parallelism == 16,
        r.secrets_cache_time == 60,
        r.leader_lease_duration == 30 && r.leader_lease_grace == 5,
        r.source_clone_folder@ == "/tmp/git-events-runner"@,
        r.config_map_name@ == "git-events-runner-config"@,
        r.leader_lease_name@ == "git-events-runner-leader-lock"@,
        r.metrics_prefix@ == "git_events_runner"@,
        r.hooks_rrl_global is None && r.hooks_rrl_trigger is None && r.hooks_rrl_source is None,
        r.tls_cert_path is None && r.tls_key_path is None,
        r.tls_secret_name is None && r.tls_secret_namespace is None,
        !r.json_logs,
{
}

} // verus!
