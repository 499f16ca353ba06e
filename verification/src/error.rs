//! Errors of the library.
use vstd::prelude::*;

verus! {

/// Error of the Kubernetes API.
#[derive(Debug)]
pub enum KubeError {
    /// The API answered with an error.
    Api {
        /// Code of the answer.
        code: u16,
        /// Text of the answer.
        response: String,
        /// Text of the whole error.
        text: String,
    },
    /// The API couldn't be asked.
    Other {
        /// Text of the error.
        text: String,
    },
}

impl KubeError {
    /// Text of the error.
    pub open spec fn message(self) -> Seq<char> {
        match self {
            KubeError::Api { text, .. } => text@,
            KubeError::Other { text } => text@,
        }
    }

    /// Describes the error.
    pub fn to_string(&self) -> (r: String)
        ensures
            r@ == self.message(),
    {
        match self {
            KubeError::Api { text, .. } => text.clone(),
            KubeError::Other { text } => text.clone(),
        }
    }
}

/// Errors of `git-events-runner`. Errors from outside are held by their text.
#[derive(Debug)]
pub enum Error {
    /// An error of the Kubernetes API.
    KubeError(KubeError),
    /// An error of the leader election.
    LeaseManagerError(String),
    /// An error of a resource's finalizer.
    FinalizerError(String),
    /// The content of a repository can't be had.
    GitrepoAccessError(String),
    /// A value of a secret can't be had.
    SecretDecodingError(String),
    /// The config map of the runtime config has the wrong form.
    RuntimeConfigFormatError,
    /// A file can't be read while its hash is calculated.
    TriggerFileAccessError(String),
    /// A folder can't be walked while the hash of its files is calculated.
    TriggerDirWalkError(String),
    /// A file pattern is wrong.
    TriggerFilePatternError(String),
    /// An error of the task scheduler.
    SchedulerError(String),
    /// The runtime config isn't what its format asks for.
    ConfigDeserializationError(String),
    /// A resource isn't in the cache.
    ResourceNotFoundError(String),
    /// An error of the jobs queue.
    JobsQueueError(String),
    /// A limit of the rate of requests is written wrongly.
    InvalidRequestRateLimit(String),
}

impl Error {
    /// Text that describes the error.
    pub open spec fn message(self) -> Seq<char> {
        match self {
            Error::KubeError(error) => "Kube Error: "@ + error.message(),
            Error::LeaseManagerError(text) => "LeaseManager Error: "@ + text@,
            Error::FinalizerError(text) => "Finalizer Error: "@ + text@,
            Error::GitrepoAccessError(text) => "GitRepo Access Error: "@ + text@,
            Error::SecretDecodingError(text) => "GitRepo Secret Decoding Error: "@ + text@,
            Error::RuntimeConfigFormatError => "RuntimeConfig ConfigMap format Error"@,
            Error::TriggerFileAccessError(text) => "Trigger file access IO error: "@ + text@,
            Error::TriggerDirWalkError(text) => "Trigger dir walk error: "@ + text@,
            Error::TriggerFilePatternError(text) => "Trigger file pattern error: "@ + text@,
            Error::SchedulerError(text) => "Task scheduler error: "@ + text@,
            Error::ConfigDeserializationError(text) => "Config deserialization error: "@ + text@,
            Error::ResourceNotFoundError(text) => "Resource not found in cache: "@ + text@,
            Error::JobsQueueError(text) => "JobsQueue error: "@ + text@,
            Error::InvalidRequestRateLimit(text) => "Incorrect request rate limit parameter: "@
                + text@,
        }
    }

    /// Describes the error.
    pub fn to_string(&self) -> (r: String)
        ensures
            r@ == self.message(),
    {
        match self {
            Error::KubeError(error) => "Kube Error: ".to_owned().concat(error.to_string().as_str()),
            Error::LeaseManagerError(text) => "LeaseManager Error: ".to_owned().concat(text.as_str()),
            Error::FinalizerError(text) => "Finalizer Error: ".to_owned().concat(text.as_str()),
            Error::GitrepoAccessError(text) => "GitRepo Access Error: ".to_owned().concat(
                text.as_str(),
            ),
            Error::SecretDecodingError(text) => "GitRepo Secret Decoding Error: ".to_owned().concat(
                text.as_str(),
            ),
            Error::RuntimeConfigFormatError => "RuntimeConfig ConfigMap format Error".to_owned(),
            Error::TriggerFileAccessError(text) => "Trigger file access IO error: ".to_owned().concat(
                text.as_str(),
            ),
            Error::TriggerDirWalkError(text) => "Trigger dir walk error: ".to_owned().concat(
                text.as_str(),
            ),
            Error::TriggerFilePatternError(text) => "Trigger file pattern error: ".to_owned().concat(
                text.as_str(),
            ),
            Error::SchedulerError(text) => "Task scheduler error: ".to_owned().concat(text.as_str()),
            Error::ConfigDeserializationError(text) => "Config deserialization error: ".to_owned().concat(
                text.as_str(),
            ),
            Error::ResourceNotFoundError(text) => "Resource not found in cache: ".to_owned().concat(
                text.as_str(),
            ),
            Error::JobsQueueError(text) => "JobsQueue error: ".to_owned().concat(text.as_str()),
            Error::InvalidRequestRateLimit(text) => "Incorrect request rate limit parameter: ".to_owned().concat(
                text.as_str(),
            ),
        }
    }
}

} // verus!
