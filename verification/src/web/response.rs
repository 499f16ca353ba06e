//! Answers to requests.
use crate::error::{Error, KubeError};
use vstd::prelude::*;

verus! {

/// Answer to a request.
#[derive(Debug, PartialEq, Eq)]
pub struct WebResponseJson {
    /// Whether the request was accepted.
    pub status: WebResponseStatus,
    /// What came of the request.
    pub message: String,
    /// Task that was scheduled for the request.
    pub task_id: Option<String>,
}

/// Whether a request was accepted.
#[derive(Clone, Copy, Debug, PartialEq, Eq, Structural)]
pub enum WebResponseStatus {
    /// It was.
    Success,
    /// It wasn't.
    Error,
}

impl WebResponseStatus {
    /// Names the status.
    pub fn to_str(&self) -> (r: &'static str)
        ensures
            r@ == match *self {
                WebResponseStatus::Success => "ok"@,
                WebResponseStatus::Error => "error"@,
            },
    {
        match self {
            WebResponseStatus::Success => "ok",
            WebResponseStatus::Error => "error",
        }
    }
}

/// Reason why a request wasn't accepted.
#[derive(Debug, PartialEq, Eq)]
pub enum WebError {
    /// All sources were asked for, and the trigger doesn't allow that.
    ForbiddenMultiSource,
    /// There is no such trigger.
    TriggerNotFound,
    /// The trigger has no such source.
    SourceNotFound,
    /// The request doesn't show a secret.
    Unauthorized,
    /// The request shows the wrong secret.
    Forbidden,
    /// The secret couldn't be checked.
    AuthorizationError,
    /// The Kubernetes API failed.
    KubeError {
        /// Why.
        msg: String,
    },
    /// The task couldn't be scheduled.
    SchedulerError {
        /// Why.
        msg: String,
    },
    /// Something else failed.
    UnknownError {
        /// Why.
        msg: String,
    },
}

/// Error of the Kubernetes API as the reason why a request wasn't accepted.
pub open spec fn is_kube_web_error(error: KubeError, web: WebError) -> bool {
    match error {
        KubeError::Api { code, response, .. } => if code == 404 {
            web is TriggerNotFound
        } else {
            web == (WebError::KubeError { msg: response })
        },
        KubeError::Other { text } => web == (WebError::KubeError { msg: text }),
    }
}

/// Error as the reason why a request wasn't accepted.
pub open spec fn is_web_error(error: Error, web: WebError) -> bool {
    match error {
        Error::ResourceNotFoundError(_) => web is TriggerNotFound,
        Error::KubeError(kube_error) => is_kube_web_error(kube_error, web),
        _ => web matches WebError::UnknownError { msg } && msg@ == error.message(),
    }
}

impl WebError {
    /// Text of the reason.
    pub open spec fn message(self) -> Seq<char> {
        match self {
            WebError::ForbiddenMultiSource => "multi-source hook isn't allowed"@,
            WebError::TriggerNotFound => "trigger doesn't exist"@,
            WebError::SourceNotFound => "source doesn't exist in the trigger"@,
            WebError::Unauthorized => "authorization is required"@,
            WebError::Forbidden => "forbidden"@,
            WebError::AuthorizationError => "unable to complete authorization"@,
            WebError::KubeError { msg } => "KubeError: "@ + msg@,
            WebError::SchedulerError { msg } => "TaskScheduler: "@ + msg@,
            WebError::UnknownError { msg } => "Unknown: "@ + msg@,
        }
    }

    /// Describes the reason.
    pub fn to_string(&self) -> (r: String)
        ensures
            r@ == self.message(),
    {
        match self {
            WebError::ForbiddenMultiSource => "multi-source hook isn't allowed".to_owned(),
            WebError::TriggerNotFound => "trigger doesn't exist".to_owned(),
            WebError::SourceNotFound => "source doesn't exist in the trigger".to_owned(),
            WebError::Unauthorized => "authorization is required".to_owned(),
            WebError::Forbidden => "forbidden".to_owned(),
            WebError::AuthorizationError => "unable to complete authorization".to_owned(),
            WebError::KubeError { msg } => "KubeError: ".to_owned().concat(msg.as_str()),
            WebError::SchedulerError { msg } => "TaskScheduler: ".to_owned().concat(msg.as_str()),
            WebError::UnknownError { msg } => "Unknown: ".to_owned().concat(msg.as_str()),
        }
    }

    /// Status code of an answer with this reason.
    pub open spec fn code(self) -> u16 {
        match self {
            WebError::ForbiddenMultiSource => 400,
            WebError::TriggerNotFound => 404,
            WebError::SourceNotFound => 404,
            WebError::Unauthorized => 401,
            WebError::Forbidden => 403,
            _ => 500,
        }
    }

    /// Reason for an error of the Kubernetes API. What can't be found is taken for a trigger.
    pub fn from_kube(error: KubeError) -> (r: WebError)
        ensures
            is_kube_web_error(error, r),
    {
        match error {
            KubeError::Api { code, response, .. } => if code == 404 {
                WebError::TriggerNotFound
            } else {
                WebError::KubeError { msg: response }
            },
            KubeError::Other { text } => WebError::KubeError { msg: text },
        }
    }

    /// Reason for an error.
    pub fn from_error(error: Error) -> (r: WebError)
        ensures
            is_web_error(error, r),
    {
        match error {
            Error::ResourceNotFoundError(_) => WebError::TriggerNotFound,
            Error::KubeError(kube_error) => WebError::from_kube(kube_error),
            other => WebError::UnknownError { msg: other.to_string() },
        }
    }
}

impl WebResponseJson {
    /// Answer to a request for which a task was scheduled.
    pub fn from_task_id(task_id: String) -> (r: WebResponseJson)
        ensures
            r.status == WebResponseStatus::Success,
            r.message@ == "job has been scheduled"@,
            r.task_id == Some(task_id),
    {
        WebResponseJson {
            status: WebResponseStatus::Success,
            message: "job has been scheduled".to_owned(),
            task_id: Some(task_id),
        }
    }

    /// Answer to a request that was accepted, with a message.
    pub fn from(message: String) -> (r: WebResponseJson)
        ensures
            r == (WebResponseJson { status: WebResponseStatus::Success, message, task_id: None }),
    {
        WebResponseJson { status: WebResponseStatus::Success, message, task_id: None }
    }
}

/// Status code of an answer.
pub open spec fn response_code(result: Result<WebResponseJson, WebError>) -> u16 {
    match result {
        Ok(_) => 202,
        Err(e) => e.code(),
    }
}

/// Status code of an answer.
pub fn status_code(result: &Result<WebResponseJson, WebError>) -> (r: u16)
    ensures
        r == response_code(*result),
{
    match result {
        Ok(_) => 202,
        Err(e) => match e {
            WebError::ForbiddenMultiSource => 400,
            WebError::TriggerNotFound => 404,
            WebError::SourceNotFound => 404,
            WebError::Unauthorized => 401,
            WebError::Forbidden => 403,
            WebError::AuthorizationError | WebError::KubeError { .. } | WebError::SchedulerError {
                ..
            } | WebError::UnknownError { .. } => 500,
        },
    }
}

/// Status code and body of an answer. A request that wasn't accepted gets the reason.
pub fn into_response(result: Result<WebResponseJson, WebError>) -> (r: (u16, WebResponseJson))
    ensures
        r.0 == response_code(result),
        match result {
            Ok(response) => r.1 == response,
            Err(e) => r.1.status == WebResponseStatus::Error && r.1.message@ == e.message()
                && r.1.task_id is None,
        },
{
    let code: u16 = status_code(&result);
    match result {
        Ok(response) => (code, response),
        Err(e) => (
            code,
            WebResponseJson {
                status: WebResponseStatus::Error,
                message: e.to_string(),
                task_id: None,
            },
        ),
    }
}

} // verus!
