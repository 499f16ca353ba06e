//! Metrics.
use crate::metrics::Metric;
use crate::text::views;
use vstd::prelude::*;

verus! {

/// Name of a metric without the prefix.
pub open spec fn plain_name(metric: Metric) -> Seq<char> {
    match metric {
        Metric::JobsQueueLimit => "_jobs_queue_limit"@,
        Metric::JobsQueueRunningJobs => "_jobs_queue_running"@,
        Metric::JobsQueueWaitingJobs => "_jobs_queue_waiting"@,
        Metric::JobsQueueWaitingDuration => "_jobs_queue_waiting_duration_seconds"@,
        Metric::JobsQueueCompletedCount => "_jobs_queue_completed_count"@,
        Metric::JobsQueueCompletedDuration => "_jobs_queue_completed_duration_seconds"@,
        Metric::ReconcileCount => "_reconcile_count"@,
        Metric::FailedReconcileCount => "_failed_reconcile_count"@,
        Metric::ReconcileDuration => "_reconcile_duration_seconds"@,
        Metric::TriggerCheckCount => "_trigger_check_count"@,
        Metric::TriggerCheckDuration => "_trigger_check_duration_seconds"@,
        Metric::WebhookRequestsDuration => "_webhook_requests_duration_seconds"@,
        Metric::WebhookRequestsCount => "_webhook_requests_count"@,
    }
}

/// A metric has its name behind the prefix.
pub proof fn law_metric_has_its_name(metric: &Metric, prefix: &str, r: String)
    requires
        call_ensures(Metric::name, (metric, prefix), r),
    ensures
        r@ == prefix@ + plain_name(*metric),
{
}

/// Metrics of one thing have the same labels: all of jobs, all of reconciliations, all of checks of
/// triggers, and all of requests. The numbers of the queue have none.
pub proof fn law_metric_has_its_labels(metric: &Metric, r: Vec<String>)
    requires
        call_ensures(Metric::labels, (metric,), r),
    ensures
        views(r@) == match *metric {
            Metric::JobsQueueLimit | Metric::JobsQueueRunningJobs | Metric::JobsQueueWaitingJobs
            | Metric::JobsQueueWaitingDuration => Seq::<Seq<char>>::empty(),
            Metric::JobsQueueCompletedCount | Metric::JobsQueueCompletedDuration => seq![
                "namespace"@,
                "trigger_kind"@,
                "trigger_name"@,
                "source_kind"@,
                "source_name"@,
                "action_kind"@,
                "action_name"@,
                "status"@,
            ],
            Metric::ReconcileCount | Metric::FailedReconcileCount | Metric::ReconcileDuration => seq![
                "namespace"@,
                "resource_kind"@,
                "resource_name"@,
            ],
            Metric::TriggerCheckCount | Metric::TriggerCheckDuration => seq![
                "namespace"@,
                "trigger_kind"@,
                "trigger_name"@,
            ],
            Metric::WebhookRequestsDuration | Metric::WebhookRequestsCount => seq![
                "namespace"@,
                "trigger_name"@,
                "status"@,
            ],
        },
{
}

/// Metrics are described.
pub proof fn law_metric_is_described(metric: &Metric, r: &'static str)
    requires
        call_ensures(Metric::help, (metric,), r),
    ensures
        r@ == match *metric {
            Metric::JobsQueueLimit => "The limit of simultaneously running jobs"@,
            Metric::JobsQueueRunningJobs => "The current number of running jobs"@,
            Metric::JobsQueueWaitingJobs => "The current number of waiting in the queue jobs"@,
            Metric::JobsQueueWaitingDuration => "The jobs queue waiting time in seconds"@,
            Metric::JobsQueueCompletedCount => "The number completed jobs"@,
            Metric::JobsQueueCompletedDuration => "The jobs execution time in seconds"@,
            Metric::ReconcileCount => "The number reconciliations"@,
            Metric::FailedReconcileCount => "The number failed reconciliations"@,
            Metric::ReconcileDuration => "The duration of reconciliations"@,
            Metric::TriggerCheckCount => "The number trigger checks for changes"@,
            Metric::TriggerCheckDuration => "The duration of trigger checks for changes"@,
            Metric::WebhookRequestsDuration => "The time of webhook request scheduling in seconds"@,
            Metric::WebhookRequestsCount => "The number of webhook requests"@,
        },
{
}

} // verus!
