//! Dynamic configuration of the controller.
use crate::error::Error;
use crate::string_map::StringMap;
use crate::text::{opt_view, text_or};
use vstd::prelude::*;

verus! {

/// Version of the controller.
pub const VERSION: &'static str = "0.4.8";

/// Key of the configuration in the config map.
pub const CONFIG_MAP_DATA_NAME: &'static str = "runtimeConfig";

/// Repository of the images.
pub const DEFAULT_CONTAINER_REPO: &'static str = "ghcr.io/alex-karpenko/git-events-runner";

/// Template of the service account's name in the Helm chart.
pub const DEFAULT_SERVICE_ACCOUNT_NAME_TEMPLATE: &'static str = "{{ include \"git-events-runner.actionJobServiceAccountName\" . }}";

/// Template of the version in the Helm chart.
pub const APP_VERSION_TEMPLATE: &'static str = "{{ .Chart.AppVersion }}";

/// Image of the cloner.
pub const DEFAULT_CLONER_IMAGE_NAME: &'static str = "gitrepo-cloner";

/// Container of the cloner.
pub const DEFAULT_CLONER_CONTAINER_NAME: &'static str = "gitrepo-cloner";

/// Image of the worker.
pub const DEFAULT_WORKER_IMAGE_NAME: &'static str = "action-worker";

/// Container of the worker.
pub const DEFAULT_WORKER_CONTAINER_NAME: &'static str = "action-worker";

/// What the names of the worker's variables begin with.
pub const DEFAULT_WORKER_ENV_VARIABLES_PREFIX: &'static str = "ACTION_JOB_";

/// Folder of an action.
pub const DEFAULT_ACTION_WORKDIR_MOUNT_PATH: &'static str = "/action_workdir";

/// Volume of an action's folder.
pub const DEFAULT_ACTION_WORKDIR_VOLUME_NAME: &'static str = "action_workdir";

/// Header that a request to a webhook shows its secret in.
pub const DEFAULT_WEBHOOK_TRIGGER_AUTH_HEADER: &'static str = "x-trigger-auth";

/// Seconds that a finished job is kept.
pub const DEFAULT_TTL_SECONDS_AFTER_FINISHED: i32 = 7200;

/// Seconds that a job may take.
pub const DEFAULT_ACTIVE_DEADLINE_SECONDS: i64 = 3600;

/// Number of jobs that run at the same time.
pub const DEFAULT_MAX_RUNNING_ACTION_JOBS: usize = 16;

/// Seconds that a job waits for its turn.
pub const DEFAULT_ACTION_JOB_WAITING_TIMEOUT_SECONDS: u64 = 300;

/// Configuration of the controller.
#[derive(Debug)]
pub struct RuntimeConfig {
    /// Actions.
    pub action: ActionConfig,
    /// Triggers.
    pub trigger: TriggerConfig,
}

/// Configuration of actions.
#[derive(Debug)]
pub struct ActionConfig {
    /// Number of jobs that run at the same time.
    pub max_running_jobs: usize,
    /// Seconds that a job waits for its turn.
    pub job_waiting_timeout_seconds: u64,
    /// Service account of jobs.
    pub default_service_account: Option<String>,
    /// Seconds that a job may take.
    pub active_deadline_seconds: i64,
    /// Seconds that a finished job is kept.
    pub ttl_seconds_after_finished: i32,
    /// Folder of an action.
    pub workdir: ActionWorkdirConfig,
    /// Containers of an action.
    pub containers: ActionContainersConfig,
}

/// Folder of an action.
#[derive(Debug)]
pub struct ActionWorkdirConfig {
    /// Path of the folder.
    pub mount_path: String,
    /// Volume of the folder.
    pub volume_name: String,
}

/// Containers of an action.
#[derive(Debug)]
pub struct ActionContainersConfig {
    /// Container that clones the source.
    pub cloner: ActionContainersClonerConfig,
    /// Container that does the work.
    pub worker: ActionContainersWorkerConfig,
}

/// Container that clones the source.
#[derive(Debug)]
pub struct ActionContainersClonerConfig {
    /// Name of the container.
    pub name: String,
    /// Image of the container.
    pub image: String,
}

/// Container that does the work.
#[derive(Debug)]
pub struct ActionContainersWorkerConfig {
    /// Name of the container.
    pub name: String,
    /// Image of the container.
    pub image: String,
    /// What the names of its variables begin with.
    pub variables_prefix: String,
}

/// Configuration of triggers.
#[derive(Debug)]
pub struct TriggerConfig {
    /// Webhooks.
    pub webhook: TriggerWebhookConfig,
}

/// Configuration of webhooks.
#[derive(Debug)]
pub struct TriggerWebhookConfig {
    /// Header that a request shows its secret in.
    pub default_auth_header: String,
}

/// Name of an image in the repository, with a tag.
pub open spec fn image_name(image: Seq<char>, tag: Seq<char>) -> Seq<char> {
    "ghcr.io/alex-karpenko/git-events-runner"@ + "/"@ + image + ":"@ + tag
}

fn image(name: &str, tag: &str) -> (r: String)
    ensures
        r@ == image_name(name@, tag@),
{
    DEFAULT_CONTAINER_REPO.to_owned().concat("/").concat(name).concat(":").concat(tag)
}

impl ActionConfig {
    /// The configuration is the default one.
    pub open spec fn is_default(self) -> bool {
        &&& self.max_running_jobs == 16
        &&& self.job_waiting_timeout_seconds == 300
        &&& self.default_service_account is None
        &&& self.active_deadline_seconds == 3600
        &&& self.ttl_seconds_after_finished == 7200
        &&& self.workdir.mount_path@ == "/action_workdir"@
        &&& self.workdir.volume_name@ == "action_workdir"@
        &&& self.containers.cloner.name@ == "gitrepo-cloner"@
        &&& self.containers.cloner.image@ == image_name("gitrepo-cloner"@, "v"@ + "0.4.8"@)
        &&& self.containers.worker.name@ == "action-worker"@
        &&& self.containers.worker.image@ == image_name("action-worker"@, "v"@ + "0.4.8"@)
        &&& self.containers.worker.variables_prefix@ == "ACTION_JOB_"@
    }
}

impl Default for ActionWorkdirConfig {
    fn default() -> (r: Self)
        ensures
            r.mount_path@ == "/action_workdir"@,
            r.volume_name@ == "action_workdir"@,
    {
        ActionWorkdirConfig {
            mount_path: DEFAULT_ACTION_WORKDIR_MOUNT_PATH.to_owned(),
            volume_name: DEFAULT_ACTION_WORKDIR_VOLUME_NAME.to_owned(),
        }
    }
}

impl Default for ActionContainersClonerConfig {
    fn default() -> (r: Self)
        ensures
            r.name@ == "gitrepo-cloner"@,
            r.image@ == image_name("gitrepo-cloner"@, "v"@ + "0.4.8"@),
    {
        ActionContainersClonerConfig {
            name: DEFAULT_CLONER_CONTAINER_NAME.to_owned(),
            image: image(DEFAULT_CLONER_IMAGE_NAME, "v".to_owned().concat(VERSION).as_str()),
        }
    }
}

impl Default for ActionContainersWorkerConfig {
    fn default() -> (r: Self)
        ensures
            r.name@ == "action-worker"@,
            r.image@ == image_name("action-worker"@, "v"@ + "0.4.8"@),
            r.variables_prefix@ == "ACTION_JOB_"@,
    {
        ActionContainersWorkerConfig {
            name: DEFAULT_WORKER_CONTAINER_NAME.to_owned(),
            image: image(DEFAULT_WORKER_IMAGE_NAME, "v".to_owned().concat(VERSION).as_str()),
            variables_prefix: DEFAULT_WORKER_ENV_VARIABLES_PREFIX.to_owned(),
        }
    }
}

impl Default for ActionContainersConfig {
    fn default() -> (r: Self)
        ensures
            r.cloner.name@ == "gitrepo-cloner"@,
            r.cloner.image@ == image_name("gitrepo-cloner"@, "v"@ + "0.4.8"@),
            r.worker.name@ == "action-worker"@,
            r.worker.image@ == image_name("action-worker"@, "v"@ + "0.4.8"@),
            r.worker.variables_prefix@ == "ACTION_JOB_"@,
    {
        ActionContainersConfig {
            cloner: ActionContainersClonerConfig::default(),
            worker: ActionContainersWorkerConfig::default(),
        }
    }
}

impl Default for ActionConfig {
    fn default() -> (r: Self)
        ensures
            r.is_default(),
    {
        ActionConfig {
            max_running_jobs: DEFAULT_MAX_RUNNING_ACTION_JOBS,
            job_waiting_timeout_seconds: DEFAULT_ACTION_JOB_WAITING_TIMEOUT_SECONDS,
            default_service_account: None,
            active_deadline_seconds: DEFAULT_ACTIVE_DEADLINE_SECONDS,
            ttl_seconds_after_finished: DEFAULT_TTL_SECONDS_AFTER_FINISHED,
            workdir: ActionWorkdirConfig::default(),
            containers: ActionContainersConfig::default(),
        }
    }
}

impl Default for TriggerWebhookConfig {
    fn default() -> (r: Self)
        ensures
            r.default_auth_header@ == "x-trigger-auth"@,
    {
        TriggerWebhookConfig { default_auth_header: DEFAULT_WEBHOOK_TRIGGER_AUTH_HEADER.to_owned() }
    }
}

impl Default for TriggerConfig {
    fn default() -> (r: Self)
        ensures
            r.webhook.default_auth_header@ == "x-trigger-auth"@,
    {
        TriggerConfig { webhook: TriggerWebhookConfig::default() }
    }
}

impl Default for RuntimeConfig {
    fn default() -> (r: Self)
        ensures
            r.is_default(),
    {
        RuntimeConfig { action: ActionConfig::default(), trigger: TriggerConfig::default() }
    }
}

/// Form of the default configuration.
#[derive(Clone, Copy, Debug, PartialEq, Eq, Structural)]
pub enum YamlConfigOpts {
    /// As it is.
    Raw,
    /// With templates of the Helm chart in place of some values.
    HelmTemplate,
}

/// Values that the text of a configuration gives. There is none for what it doesn't name.
#[derive(Debug, Default)]
pub struct ConfigValues {
    /// Number of jobs that run at the same time.
    pub max_running_jobs: Option<usize>,
    /// Seconds that a job waits for its turn.
    pub job_waiting_timeout_seconds: Option<u64>,
    /// Service account of jobs.
    pub default_service_account: Option<String>,
    /// Seconds that a job may take.
    pub active_deadline_seconds: Option<i64>,
    /// Seconds that a finished job is kept.
    pub ttl_seconds_after_finished: Option<i32>,
    /// Path of the folder of an action.
    pub mount_path: Option<String>,
    /// Volume of the folder of an action.
    pub volume_name: Option<String>,
    /// Name of the container that clones the source.
    pub cloner_name: Option<String>,
    /// Image of the container that clones the source.
    pub cloner_image: Option<String>,
    /// Name of the container that does the work.
    pub worker_name: Option<String>,
    /// Image of the container that does the work.
    pub worker_image: Option<String>,
    /// What the names of variables begin with.
    pub variables_prefix: Option<String>,
    /// Header that a request shows its secret in.
    pub default_auth_header: Option<String>,
}

/// The configuration has the given values, and the default values for the others.
pub open spec fn is_filled(config: RuntimeConfig, values: ConfigValues) -> bool {
    &&& config.action.max_running_jobs == match values.max_running_jobs {
        Some(value) => value,
        None => 16,
    }
    &&& config.action.job_waiting_timeout_seconds == match values.job_waiting_timeout_seconds {
        Some(value) => value,
        None => 300,
    }
    &&& config.action.default_service_account == values.default_service_account
    &&& config.action.active_deadline_seconds == match values.active_deadline_seconds {
        Some(value) => value,
        None => 3600,
    }
    &&& config.action.ttl_seconds_after_finished == match values.ttl_seconds_after_finished {
        Some(value) => value,
        None => 7200,
    }
    &&& config.action.workdir.mount_path@ == text_or(values.mount_path, "/action_workdir"@)
    &&& config.action.workdir.volume_name@ == text_or(values.volume_name, "action_workdir"@)
    &&& config.action.containers.cloner.name@ == text_or(values.cloner_name, "gitrepo-cloner"@)
    &&& config.action.containers.cloner.image@ == text_or(
        values.cloner_image,
        image_name("gitrepo-cloner"@, "v"@ + "0.4.8"@),
    )
    &&& config.action.containers.worker.name@ == text_or(values.worker_name, "action-worker"@)
    &&& config.action.containers.worker.image@ == text_or(
        values.worker_image,
        image_name("action-worker"@, "v"@ + "0.4.8"@),
    )
    &&& config.action.containers.worker.variables_prefix@ == text_or(
        values.variables_prefix,
        "ACTION_JOB_"@,
    )
    &&& config.trigger.webhook.default_auth_header@ == text_or(
        values.default_auth_header,
        "x-trigger-auth"@,
    )
}

/// The values are all those of the configuration.
pub open spec fn gives_all(values: ConfigValues, config: RuntimeConfig) -> bool {
    &&& values.max_running_jobs == Some(config.action.max_running_jobs)
    &&& values.job_waiting_timeout_seconds == Some(config.action.job_waiting_timeout_seconds)
    &&& values.default_service_account == config.action.default_service_account
    &&& values.active_deadline_seconds == Some(config.action.active_deadline_seconds)
    &&& values.ttl_seconds_after_finished == Some(config.action.ttl_seconds_after_finished)
    &&& values.mount_path == Some(config.action.workdir.mount_path)
    &&& values.volume_name == Some(config.action.workdir.volume_name)
    &&& values.cloner_name == Some(config.action.containers.cloner.name)
    &&& values.cloner_image == Some(config.action.containers.cloner.image)
    &&& values.worker_name == Some(config.action.containers.worker.name)
    &&& values.worker_image == Some(config.action.containers.worker.image)
    &&& values.variables_prefix == Some(config.action.containers.worker.variables_prefix)
    &&& values.default_auth_header == Some(config.trigger.webhook.default_auth_header)
}

/// Both configurations say the same.
pub open spec fn same_config(a: RuntimeConfig, b: RuntimeConfig) -> bool {
    &&& a.action.max_running_jobs == b.action.max_running_jobs
    &&& a.action.job_waiting_timeout_seconds == b.action.job_waiting_timeout_seconds
    &&& opt_view(a.action.default_service_account) == opt_view(b.action.default_service_account)
    &&& a.action.active_deadline_seconds == b.action.active_deadline_seconds
    &&& a.action.ttl_seconds_after_finished == b.action.ttl_seconds_after_finished
    &&& a.action.workdir.mount_path@ == b.action.workdir.mount_path@
    &&& a.action.workdir.volume_name@ == b.action.workdir.volume_name@
    &&& a.action.containers.cloner.name@ == b.action.containers.cloner.name@
    &&& a.action.containers.cloner.image@ == b.action.containers.cloner.image@
    &&& a.action.containers.worker.name@ == b.action.containers.worker.name@
    &&& a.action.containers.worker.image@ == b.action.containers.worker.image@
    &&& a.action.containers.worker.variables_prefix@ == b.action.containers.worker.variables_prefix@
    &&& a.trigger.webhook.default_auth_header@ == b.trigger.webhook.default_auth_header@
}

fn given_or(value: Option<String>, default: String) -> (r: String)
    ensures
        r@ == text_or(value, default@),
{
    match value {
        Some(given) => given,
        None => default,
    }
}

/// A configuration whose values are all written out is read back as the same configuration.
pub proof fn law_written_config_is_read_back(config: RuntimeConfig, values: ConfigValues, read: RuntimeConfig)
    requires
        gives_all(values, config),
        is_filled(read, values),
    ensures
        same_config(read, config),
{
}

/// A text that gives nothing is read as the default configuration.
pub proof fn law_empty_config_is_default(values: ConfigValues, read: RuntimeConfig)
    requires
        values.max_running_jobs is None,
        values.job_waiting_timeout_seconds is None,
        values.default_service_account is None,
        values.active_deadline_seconds is None,
        values.ttl_seconds_after_finished is None,
        values.mount_path is None,
        values.volume_name is None,
        values.cloner_name is None,
        values.cloner_image is None,
        values.worker_name is None,
        values.worker_image is None,
        values.variables_prefix is None,
        values.default_auth_header is None,
        is_filled(read, values),
    ensures
        read.is_default(),
{
}

/// Place where the current configuration is kept.
#[derive(Debug)]
pub struct ConfigChannel {
    /// The current configuration.
    pub current: RuntimeConfig,
}

impl RuntimeConfig {
    /// The configuration is the default one.
    pub open spec fn is_default(self) -> bool {
        &&& self.action.is_default()
        &&& self.trigger.webhook.default_auth_header@ == "x-trigger-auth"@
    }

    /// The configuration is the default one with templates of the Helm chart in it.
    pub open spec fn is_helm_template(self) -> bool {
        &&& self.action.max_running_jobs == 16
        &&& self.action.job_waiting_timeout_seconds == 300
        &&& opt_view(self.action.default_service_account) == Some(
            "{{ include \"git-events-runner.actionJobServiceAccountName\" . }}"@,
        )
        &&& self.action.active_deadline_seconds == 3600
        &&& self.action.ttl_seconds_after_finished == 7200
        &&& self.action.workdir.mount_path@ == "/action_workdir"@
        &&& self.action.workdir.volume_name@ == "action_workdir"@
        &&& self.action.containers.cloner.name@ == "gitrepo-cloner"@
        &&& self.action.containers.cloner.image@ == image_name(
            "gitrepo-cloner"@,
            "{{ .Chart.AppVersion }}"@,
        )
        &&& self.action.containers.worker.name@ == "action-worker"@
        &&& self.action.containers.worker.image@ == image_name(
            "action-worker"@,
            "{{ .Chart.AppVersion }}"@,
        )
        &&& self.action.containers.worker.variables_prefix@ == "ACTION_JOB_"@
        &&& self.trigger.webhook.default_auth_header@ == "x-trigger-auth"@
    }

    /// Current configuration.
    pub fn get(channel: &ConfigChannel) -> (r: &RuntimeConfig)
        ensures
            *r == channel.current,
    {
        &channel.current
    }

    /// Default configuration in the given form.
    pub fn for_opts(opts: YamlConfigOpts) -> (r: RuntimeConfig)
        ensures
            match opts {
                YamlConfigOpts::Raw => r.is_default(),
                YamlConfigOpts::HelmTemplate => r.is_helm_template(),
            },
    {
        let mut config = RuntimeConfig::default();
        match opts {
            YamlConfigOpts::Raw => config,
            YamlConfigOpts::HelmTemplate => {
                config.action.default_service_account = Some(
                    DEFAULT_SERVICE_ACCOUNT_NAME_TEMPLATE.to_owned(),
                );
                config.action.containers.cloner.image = image(
                    DEFAULT_CLONER_IMAGE_NAME,
                    APP_VERSION_TEMPLATE,
                );
                config.action.containers.worker.image = image(
                    DEFAULT_WORKER_IMAGE_NAME,
                    APP_VERSION_TEMPLATE,
                );
                config
            },
        }
    }

    /// Text of the configuration in the data of a config map.
    pub fn config_map_text(data: &Option<StringMap<String>>) -> (r: Result<String, Error>)
        ensures
            match *data {
                Some(map) => if map@.contains_key("runtimeConfig"@) {
                    r == Ok::<String, Error>(map@["runtimeConfig"@])
                } else {
                    r == Err::<String, Error>(Error::RuntimeConfigFormatError)
                },
                None => r == Err::<String, Error>(Error::RuntimeConfigFormatError),
            },
    {
        match data {
            Some(map) => match map.get(CONFIG_MAP_DATA_NAME) {
                Some(text) => Ok(text.clone()),
                None => Err(Error::RuntimeConfigFormatError),
            },
            None => Err(Error::RuntimeConfigFormatError),
        }
    }

    /// Configuration of a config map, from the values that its text gives, or the reason why it
    /// couldn't be read. What the text doesn't give has its default value.
    pub fn try_from(parsed: Result<ConfigValues, String>) -> (r: Result<RuntimeConfig, Error>)
        ensures
            match parsed {
                Ok(values) => r matches Ok(config) && is_filled(config, values),
                Err(reason) => r == Err::<RuntimeConfig, Error>(
                    Error::ConfigDeserializationError(reason),
                ),
            },
    {
        match parsed {
            Ok(values) => Ok(RuntimeConfig::filled(values)),
            Err(reason) => Err(Error::ConfigDeserializationError(reason)),
        }
    }

    /// Configuration with the given values, and with the default values for the others.
    pub fn filled(values: ConfigValues) -> (r: RuntimeConfig)
        ensures
            is_filled(r, values),
    {
        let default = RuntimeConfig::default();
        RuntimeConfig {
            action: ActionConfig {
                max_running_jobs: match values.max_running_jobs {
                    Some(value) => value,
                    None => default.action.max_running_jobs,
                },
                job_waiting_timeout_seconds: match values.job_waiting_timeout_seconds {
                    Some(value) => value,
                    None => default.action.job_waiting_timeout_seconds,
                },
                default_service_account: values.default_service_account,
                active_deadline_seconds: match values.active_deadline_seconds {
                    Some(value) => value,
                    None => default.action.active_deadline_seconds,
                },
                ttl_seconds_after_finished: match values.ttl_seconds_after_finished {
                    Some(value) => value,
                    None => default.action.ttl_seconds_after_finished,
                },
                workdir: ActionWorkdirConfig {
                    mount_path: given_or(values.mount_path, default.action.workdir.mount_path),
                    volume_name: given_or(values.volume_name, default.action.workdir.volume_name),
                },
                containers: ActionContainersConfig {
                    cloner: ActionContainersClonerConfig {
                        name: given_or(values.cloner_name, default.action.containers.cloner.name),
                        image: given_or(values.cloner_image, default.action.containers.cloner.image),
                    },
                    worker: ActionContainersWorkerConfig {
                        name: given_or(values.worker_name, default.action.containers.worker.name),
                        image: given_or(values.worker_image, default.action.containers.worker.image),
                        variables_prefix: given_or(
                            values.variables_prefix,
                            default.action.containers.worker.variables_prefix,
                        ),
                    },
                },
            },
            trigger: TriggerConfig {
                webhook: TriggerWebhookConfig {
                    default_auth_header: given_or(
                        values.default_auth_header,
                        default.trigger.webhook.default_auth_header,
                    ),
                },
            },
        }
    }

    /// All values of the configuration, to be written out.
    pub fn values(self) -> (r: ConfigValues)
        ensures
            gives_all(r, self),
    {
        ConfigValues {
            max_running_jobs: Some(self.action.max_running_jobs),
            job_waiting_timeout_seconds: Some(self.action.job_waiting_timeout_seconds),
            default_service_account: self.action.default_service_account,
            active_deadline_seconds: Some(self.action.active_deadline_seconds),
            ttl_seconds_after_finished: Some(self.action.ttl_seconds_after_finished),
            mount_path: Some(self.action.workdir.mount_path),
            volume_name: Some(self.action.workdir.volume_name),
            cloner_name: Some(self.action.containers.cloner.name),
            cloner_image: Some(self.action.containers.cloner.image),
            worker_name: Some(self.action.containers.worker.name),
            worker_image: Some(self.action.containers.worker.image),
            variables_prefix: Some(self.action.containers.worker.variables_prefix),
            default_auth_header: Some(self.trigger.webhook.default_auth_header),
        }
    }
}

impl ConfigChannel {
    /// Keeps the configuration that was loaded first, or the default one where it couldn't be
    /// loaded.
    pub fn init(loaded: Result<RuntimeConfig, Error>) -> (r: ConfigChannel)
        ensures
            match loaded {
                Ok(config) => r.current == config,
                Err(_) => r.current.is_default(),
            },
    {
        match loaded {
            Ok(config) => ConfigChannel { current: config },
            Err(_) => ConfigChannel { current: RuntimeConfig::default() },
        }
    }

    /// Takes up a change of the configuration. One that couldn't be loaded changes nothing.
    pub fn update(&mut self, loaded: Result<RuntimeConfig, Error>)
        ensures
            final(self).current == match loaded {
                Ok(config) => config,
                Err(_) => old(self).current,
            },
    {
        match loaded {
            Ok(config) => {
                self.current = config;
            },
            Err(_) => {},
        }
    }
}

} // verus!
