//! Messages that a guest sends to the host while a benchmark runs.
use vstd::prelude::*;
use crate::metrics::types::{Metric, MetricBatch, MetricBatchView, RunStatus, RunStatusView, metrics_view};

verus! {

/// A message from the guest agent.
#[derive(Debug)]
pub enum HostMessage {
    Metric { batch: u64, scenario: String, vmm: String, metrics: Vec<Metric> },
    Status { scenario: String, vmm: String, status: String, progress: u8 },
    Complete { scenario: String, vmm: String, status: String, duration_ms: u64 },
}

/// The batch that a metric message carries: a running batch with its fields.
pub open spec fn message_batch(m: HostMessage) -> Option<MetricBatchView> {
    match m {
        HostMessage::Metric { batch, scenario, vmm, metrics } => Some(MetricBatchView {
            batch_id: batch,
            scenario: scenario@,
            vmm: vmm@,
            metrics: metrics_view(metrics@),
            status: RunStatusView::Running,
        }),
        _ => None,
    }
}

impl HostMessage {
    /// The metric batch that a metric message carries; other messages carry none.
    pub fn into_metric_batch(self) -> (r: Option<MetricBatch>)
        ensures
            match r {
                Some(b) => message_batch(self) == Some(b@),
                None => message_batch(self).is_none(),
            },
    {
        match self {
            HostMessage::Metric { batch, scenario, vmm, metrics } => Some(MetricBatch {
                batch_id: batch,
                scenario,
                vmm,
                metrics,
                status: RunStatus::Running,
            }),
            _ => None,
        }
    }
}

} // verus!
