//! The data that a report shows.
use vstd::prelude::*;
use crate::metrics::decimal::{Decimal, DecimalView};
use crate::text::views;

verus! {

/// Everything a report shows.
#[derive(Debug)]
pub struct ReportData {
    pub date: String,
    pub vmm_results: Vec<VmmResult>,
    pub charts: Vec<ChartData>,
    pub scenario_rows: Vec<ScenarioRow>,
}

/// The results of one VMM.
#[derive(Debug)]
pub struct VmmResult {
    pub name: String,
    pub scenarios: Vec<ScenarioResult>,
}

/// The outcome of one scenario on one VMM.
#[derive(Debug)]
pub struct ScenarioResult {
    pub name: String,
    pub metrics: Vec<NamedMetric>,
    pub status: String,
}

/// A metric with its value as shown.
#[derive(Debug)]
pub struct NamedMetric {
    pub name: String,
    pub value: Decimal,
    pub formatted: String,
}

/// One chart of the report.
#[derive(Debug)]
pub struct ChartData {
    pub id: String,
    pub title: String,
    /// e.g. "Tool: sysbench 1.0.20 | Test: 10s, 1 thread"
    pub subtitle: String,
    /// e.g. "CPU Sysbench: Measures CPU performance by calculating prime numbers."
    pub tooltip: String,
    pub config: String,
}

/// One row of the results table.
#[derive(Debug)]
pub struct ScenarioRow {
    /// internal name like "cpu-sysbench"
    pub name: String,
    /// display name with unit like "CPU Sysbench (events/s)"
    pub display_name: String,
    /// values without units
    pub cells: Vec<String>,
}

pub struct NamedMetricView {
    pub name: Seq<char>,
    pub value: DecimalView,
    pub formatted: Seq<char>,
}

impl View for NamedMetric {
    type V = NamedMetricView;

    open spec fn view(&self) -> NamedMetricView {
        NamedMetricView { name: self.name@, value: self.value@, formatted: self.formatted@ }
    }
}

pub struct ScenarioResultView {
    pub name: Seq<char>,
    pub metrics: Seq<NamedMetricView>,
    pub status: Seq<char>,
}

impl View for ScenarioResult {
    type V = ScenarioResultView;

    open spec fn view(&self) -> ScenarioResultView {
        ScenarioResultView {
            name: self.name@,
            metrics: self.metrics@.map_values(|m: NamedMetric| m@),
            status: self.status@,
        }
    }
}

pub struct VmmResultView {
    pub name: Seq<char>,
    pub scenarios: Seq<ScenarioResultView>,
}

impl View for VmmResult {
    type V = VmmResultView;

    open spec fn view(&self) -> VmmResultView {
        VmmResultView { name: self.name@, scenarios: self.scenarios@.map_values(|s: ScenarioResult| s@) }
    }
}

/// The views of a sequence of VMM results.
pub open spec fn vmm_results_view(v: Seq<VmmResult>) -> Seq<VmmResultView> {
    v.map_values(|r: VmmResult| r@)
}

pub struct ChartView {
    pub id: Seq<char>,
    pub title: Seq<char>,
    pub subtitle: Seq<char>,
    pub tooltip: Seq<char>,
    pub config: Seq<char>,
}

impl View for ChartData {
    type V = ChartView;

    open spec fn view(&self) -> ChartView {
        ChartView {
            id: self.id@,
            title: self.title@,
            subtitle: self.subtitle@,
            tooltip: self.tooltip@,
            config: self.config@,
        }
    }
}

pub struct ScenarioRowView {
    pub name: Seq<char>,
    pub display_name: Seq<char>,
    pub cells: Seq<Seq<char>>,
}

impl View for ScenarioRow {
    type V = ScenarioRowView;

    open spec fn view(&self) -> ScenarioRowView {
        ScenarioRowView { name: self.name@, display_name: self.display_name@, cells: views(self.cells@) }
    }
}

pub struct ReportView {
    pub date: Seq<char>,
    pub vmm_names: Seq<Seq<char>>,
    pub charts: Seq<ChartView>,
    pub rows: Seq<ScenarioRowView>,
}

impl View for ReportData {
    type V = ReportView;

    open spec fn view(&self) -> ReportView {
        ReportView {
            date: self.date@,
            vmm_names: self.vmm_results@.map_values(|r: VmmResult| r.name@),
            charts: self.charts@.map_values(|c: ChartData| c@),
            rows: self.scenario_rows@.map_values(|r: ScenarioRow| r@),
        }
    }
}

} // verus!
