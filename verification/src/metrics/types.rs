//! Metric values and the batches in which they are reported.
use vstd::prelude::*;
use crate::metrics::decimal::{Decimal, DecimalView};

verus! {

/// One measured value of a benchmark run.
#[derive(Debug)]
pub struct Metric {
    pub name: String,
    pub value: Decimal,
    pub ts: u64,
}

pub struct MetricView {
    pub name: Seq<char>,
    pub value: DecimalView,
    pub ts: u64,
}

impl View for Metric {
    type V = MetricView;

    open spec fn view(&self) -> MetricView {
        MetricView { name: self.name@, value: self.value@, ts: self.ts }
    }
}

/// The views of a sequence of metrics.
pub open spec fn metrics_view(v: Seq<Metric>) -> Seq<MetricView> {
    v.map_values(|m: Metric| m@)
}

impl Clone for Decimal {
    fn clone(&self) -> (r: Self)
        ensures
            r@ == self@,
    {
        Decimal { whole: self.whole.clone(), frac: self.frac.clone() }
    }
}

impl Clone for Metric {
    fn clone(&self) -> (r: Self)
        ensures
            r@ == self@,
    {
        Metric { name: self.name.clone(), value: self.value.clone(), ts: self.ts }
    }
}

/// A copy of each metric, in order.
pub fn clone_metrics(v: &Vec<Metric>) -> (r: Vec<Metric>)
    ensures
        metrics_view(r@) == metrics_view(v@),
{
    let mut r: Vec<Metric> = Vec::new();
    let n = v.len();
    for i in 0..n
        invariant
            n == v.len(),
            r.len() == i,
            forall|j: int| 0 <= j < i ==> r@[j]@ == v@[j]@,
    {
        let c = v[i].clone();
        assert(c@ == v@[i as int]@);
        r.push(c);
    }
    assert(metrics_view(r@) =~= metrics_view(v@));
    r
}

/// How a benchmark run stands.
#[derive(Debug)]
pub enum RunStatus {
    Running,
    Completed { duration_ms: u64 },
    Error { message: String },
}

pub enum RunStatusView {
    Running,
    Completed { duration_ms: u64 },
    Error { message: Seq<char> },
}

impl View for RunStatus {
    type V = RunStatusView;

    open spec fn view(&self) -> RunStatusView {
        match self {
            RunStatus::Running => RunStatusView::Running,
            RunStatus::Completed { duration_ms } => RunStatusView::Completed { duration_ms: *duration_ms },
            RunStatus::Error { message } => RunStatusView::Error { message: message@ },
        }
    }
}

impl Clone for RunStatus {
    fn clone(&self) -> (r: Self)
        ensures
            r@ == self@,
    {
        match self {
            RunStatus::Running => RunStatus::Running,
            RunStatus::Completed { duration_ms } => RunStatus::Completed { duration_ms: *duration_ms },
            RunStatus::Error { message } => RunStatus::Error { message: message.clone() },
        }
    }
}

/// The metrics of one VMM and scenario reported together.
#[derive(Debug)]
pub struct MetricBatch {
    pub batch_id: u64,
    pub scenario: String,
    pub vmm: String,
    pub metrics: Vec<Metric>,
    pub status: RunStatus,
}

pub struct MetricBatchView {
    pub batch_id: u64,
    pub scenario: Seq<char>,
    pub vmm: Seq<char>,
    pub metrics: Seq<MetricView>,
    pub status: RunStatusView,
}

impl View for MetricBatch {
    type V = MetricBatchView;

    open spec fn view(&self) -> MetricBatchView {
        MetricBatchView {
            batch_id: self.batch_id,
            scenario: self.scenario@,
            vmm: self.vmm@,
            metrics: metrics_view(self.metrics@),
            status: self.status@,
        }
    }
}

impl Clone for MetricBatch {
    fn clone(&self) -> (r: Self)
        ensures
            r@ == self@,
    {
        MetricBatch {
            batch_id: self.batch_id,
            scenario: self.scenario.clone(),
            vmm: self.vmm.clone(),
            metrics: clone_metrics(&self.metrics),
            status: self.status.clone(),
        }
    }
}

/// The views of a sequence of batches.
pub open spec fn batches_view(v: Seq<MetricBatch>) -> Seq<MetricBatchView> {
    v.map_values(|b: MetricBatch| b@)
}

/// A copy of each batch, in order.
pub fn clone_batches(v: &Vec<MetricBatch>) -> (r: Vec<MetricBatch>)
    ensures
        batches_view(r@) == batches_view(v@),
{
    let mut r: Vec<MetricBatch> = Vec::new();
    let n = v.len();
    for i in 0..n
        invariant
            n == v.len(),
            r.len() == i,
            forall|j: int| 0 <= j < i ==> r@[j]@ == v@[j]@,
    {
        let c = v[i].clone();
        r.push(c);
    }
    assert(batches_view(r@) =~= batches_view(v@));
    r
}

} // verus!
