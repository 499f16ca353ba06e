//! Metrics of the controller.
use crate::text::views;
use vstd::prelude::*;

verus! {

/// Metric of the controller.
#[derive(Clone, Copy, Debug, PartialEq, Eq, Structural)]
pub enum Metric {
    /// Limit of running jobs.
    JobsQueueLimit,
    /// Running jobs.
    JobsQueueRunningJobs,
    /// Waiting jobs.
    JobsQueueWaitingJobs,
    /// Time that jobs wait.
    JobsQueueWaitingDuration,
    /// Jobs that have ended.
    JobsQueueCompletedCount,
    /// Time that jobs take.
    JobsQueueCompletedDuration,
    /// Reconciliations.
    ReconcileCount,
    /// Reconciliations that failed.
    FailedReconcileCount,
    /// Time that reconciliations take.
    ReconcileDuration,
    /// Checks of triggers.
    TriggerCheckCount,
    /// Time that checks of triggers take.
    TriggerCheckDuration,
    /// Time that requests to webhooks take.
    WebhookRequestsDuration,
    /// Requests to webhooks.
    WebhookRequestsCount,
}

impl Metric {
    /// Name of the metric behind its prefix.
    pub open spec fn suffix(self) -> Seq<char> {
        match self {
            Metric::JobsQueueLimit => "_jobs_queue_limit"@,
            Metric::JobsQueueRunningJobs => "_jobs_queue_running"@,
            Metric::JobsQueueWaitingJobs => "_jobs_queue_waiting"@,
            Metric::JobsQueueWaitingDuration => "_jobs_queue_waiting_duration_seconds"@,
            Metric::JobsQueueCompletedCount => "_jobs_queue_completed_count"@,
            Metric::JobsQueueCompletedDuration => "_jobs_queue_completed_duration_seconds"@,
            Metric::ReconcileCount => "_reconcile_count"@,
            Metric::FailedReconcileCount => "_failed_reconcile_count"@,
            Metric::ReconcileDuration => "_reconcile_duration_seconds"@,
            Metric::TriggerCheckCount => "_trigger_check_count"@,
            Metric::TriggerCheckDuration => "_trigger_check_duration_seconds"@,
            Metric::WebhookRequestsDuration => "_webhook_requests_duration_seconds"@,
            Metric::WebhookRequestsCount => "_webhook_requests_count"@,
        }
    }

    /// Name of the metric.
    pub fn name(&self, prefix: &str) -> (r: String)
        ensures
            r@ == prefix@ + self.suffix(),
    {
        let suffix: &str = match self {
            Metric::JobsQueueLimit => "_jobs_queue_limit",
            Metric::JobsQueueRunningJobs => "_jobs_queue_running",
            Metric::JobsQueueWaitingJobs => "_jobs_queue_waiting",
            Metric::JobsQueueWaitingDuration => "_jobs_queue_waiting_duration_seconds",
            Metric::JobsQueueCompletedCount => "_jobs_queue_completed_count",
            Metric::JobsQueueCompletedDuration => "_jobs_queue_completed_duration_seconds",
            Metric::ReconcileCount => "_reconcile_count",
            Metric::FailedReconcileCount => "_failed_reconcile_count",
            Metric::ReconcileDuration => "_reconcile_duration_seconds",
            Metric::TriggerCheckCount => "_trigger_check_count",
            Metric::TriggerCheckDuration => "_trigger_check_duration_seconds",
            Metric::WebhookRequestsDuration => "_webhook_requests_duration_seconds",
            Metric::WebhookRequestsCount => "_webhook_requests_count",
        };
        prefix.to_owned().concat(suffix)
    }

    /// Describes the metric.
    pub fn help(&self) -> (r: &'static str)
        ensures
            r@ == match *self {
                Metric::JobsQueueLimit => "The limit of simultaneously running jobs"@,
                Metric::JobsQueueRunningJobs => "The current number of running jobs"@,
                Metric::JobsQueueWaitingJobs => "The current number of waiting in the queue jobs"@,
                Metric::JobsQueueWaitingDuration => "The jobs queue waiting time in seconds"@,
                Metric::JobsQueueCompletedCount => "The number completed jobs"@,
                Metric::JobsQueueCompletedDuration => "The jobs execution time in seconds"@,
                Metric::ReconcileCount => "The number reconciliations"@,
                Metric::FailedReconcileCount => "The number failed reconciliations"@,
                Metric::ReconcileDuration => "The duration of reconciliations"@,
                Metric::TriggerCheckCount => "The number trigger checks for changes"@,
                Metric::TriggerCheckDuration => "The duration of trigger checks for changes"@,
                Metric::WebhookRequestsDuration => "The time of webhook request scheduling in seconds"@,
                Metric::WebhookRequestsCount => "The number of webhook requests"@,
            },
    {
        match self {
            Metric::JobsQueueLimit => "The limit of simultaneously running jobs",
            Metric::JobsQueueRunningJobs => "The current number of running jobs",
            Metric::JobsQueueWaitingJobs => "The current number of waiting in the queue jobs",
            Metric::JobsQueueWaitingDuration => "The jobs queue waiting time in seconds",
            Metric::JobsQueueCompletedCount => "The number completed jobs",
            Metric::JobsQueueCompletedDuration => "The jobs execution time in seconds",
            Metric::ReconcileCount => "The number reconciliations",
            Metric::FailedReconcileCount => "The number failed reconciliations",
            Metric::ReconcileDuration => "The duration of reconciliations",
            Metric::TriggerCheckCount => "The number trigger checks for changes",
            Metric::TriggerCheckDuration => "The duration of trigger checks for changes",
            Metric::WebhookRequestsDuration => "The time of webhook request scheduling in seconds",
            Metric::WebhookRequestsCount => "The number of webhook requests",
        }
    }

    /// Labels of the metric.
    pub open spec fn label_names(self) -> Seq<Seq<char>> {
        match self {
            Metric::JobsQueueLimit | Metric::JobsQueueRunningJobs | Metric::JobsQueueWaitingJobs
            | Metric::JobsQueueWaitingDuration => seq![],
            Metric::JobsQueueCompletedCount | Metric::JobsQueueCompletedDuration => seq![
                "namespace"@,
                "trigger_kind"@,
                "trigger_name"@,
                "source_kind"@,
                "source_name"@,
                "action_kind"@,
                "action_name"@,
                "status"@,
            ],
            Metric::ReconcileCount | Metric::FailedReconcileCount | Metric::ReconcileDuration => seq![
                "namespace"@,
                "resource_kind"@,
                "resource_name"@,
            ],
            Metric::TriggerCheckCount | Metric::TriggerCheckDuration => seq![
                "namespace"@,
                "trigger_kind"@,
                "trigger_name"@,
            ],
            Metric::WebhookRequestsDuration | Metric::WebhookRequestsCount => seq![
                "namespace"@,
                "trigger_name"@,
                "status"@,
            ],
        }
    }

    /// Names the labels of the metric.
    pub fn labels(&self) -> (r: Vec<String>)
        ensures
            views(r@) == self.label_names(),
    {
        let mut r: Vec<String> = Vec::new();
        match self {
            Metric::JobsQueueLimit | Metric::JobsQueueRunningJobs | Metric::JobsQueueWaitingJobs
            | Metric::JobsQueueWaitingDuration => {},
            Metric::JobsQueueCompletedCount | Metric::JobsQueueCompletedDuration => {
                r.push("namespace".to_owned());
                r.push("trigger_kind".to_owned());
                r.push("trigger_name".to_owned());
                r.push("source_kind".to_owned());
                r.push("source_name".to_owned());
                r.push("action_kind".to_owned());
                r.push("action_name".to_owned());
                r.push("status".to_owned());
            },
            Metric::ReconcileCount | Metric::FailedReconcileCount | Metric::ReconcileDuration => {
                r.push("namespace".to_owned());
                r.push("resource_kind".to_owned());
                r.push("resource_name".to_owned());
            },
            Metric::TriggerCheckCount | Metric::TriggerCheckDuration => {
                r.push("namespace".to_owned());
                r.push("trigger_kind".to_owned());
                r.push("trigger_name".to_owned());
            },
            Metric::WebhookRequestsDuration | Metric::WebhookRequestsCount => {
                r.push("namespace".to_owned());
                r.push("trigger_name".to_owned());
                r.push("status".to_owned());
            },
        }
        assert(views(r@) =~= self.label_names());
        r
    }
}

} // verus!
