//! Scenario Runner - Run VMM + scenario combination tests
use vstd::prelude::*;
use crate::catalog::{get_all_scenarios, spec_all_scenarios};
use crate::config::{Config, VmmConfig, VmmConfigView, enabled_vmms, vmm_views};
use crate::metrics::collector::{MetricsCollector, stored_after};
use crate::metrics::types::{Metric, MetricBatch, MetricView, metrics_view};
use crate::paths::{is_absolute, join_path, path_is_absolute, path_join};
use crate::runner::parse::{parse_scenario_metrics, spec_parse_metrics};
use crate::text::{views, concat3};
use crate::vmm::registry::{AnyRunner, RunnerView, VmmRegistry, lookup};
use crate::vmm::traits::{VmConfig, VmConfigView};

verus! {

/// The outcome of running one scenario on one VMM.
#[derive(Debug)]
pub struct RunResult {
    pub vmm: String,
    pub scenario: String,
    pub success: bool,
    pub error: Option<String>,
    pub duration_ms: Option<u64>,
    /// Actual benchmark metrics
    pub metrics: Vec<Metric>,
}

pub struct RunResultView {
    pub vmm: Seq<char>,
    pub scenario: Seq<char>,
    pub success: bool,
    pub error: Option<Seq<char>>,
    pub duration_ms: Option<u64>,
    pub metrics: Seq<MetricView>,
}

impl View for RunResult {
    type V = RunResultView;

    open spec fn view(&self) -> RunResultView {
        RunResultView {
            vmm: self.vmm@,
            scenario: self.scenario@,
            success: self.success,
            error: match self.error {
                Some(e) => Some(e@),
                None => None,
            },
            duration_ms: self.duration_ms,
            metrics: metrics_view(self.metrics@),
        }
    }
}

/// The views of a sequence of results.
pub open spec fn results_view(v: Seq<RunResult>) -> Seq<RunResultView> {
    v.map_values(|r: RunResult| r@)
}

/// The result of a run stopped by an interrupt.
pub open spec fn spec_interrupted_result(vmm: Seq<char>, scenario: Seq<char>, duration_ms: u64) -> RunResultView {
    RunResultView {
        vmm,
        scenario,
        success: false,
        error: Some("Interrupted"@),
        duration_ms: Some(duration_ms),
        metrics: Seq::empty(),
    }
}

/// The result of a run whose VM did not start.
pub open spec fn spec_spawn_failed_result(vmm: Seq<char>, scenario: Seq<char>, error: Seq<char>, duration_ms: u64) -> RunResultView {
    RunResultView {
        vmm,
        scenario,
        success: false,
        error: Some("VMM spawn failed: "@ + error),
        duration_ms: Some(duration_ms),
        metrics: Seq::empty(),
    }
}

/// A run stopped by an interrupt.
pub fn interrupted_result(vmm: &str, scenario: &str, duration_ms: u64) -> (r: RunResult)
    ensures
        r@ == spec_interrupted_result(vmm@, scenario@, duration_ms),
{
    let r = RunResult {
        vmm: vmm.to_owned(),
        scenario: scenario.to_owned(),
        success: false,
        error: Some("Interrupted".to_owned()),
        duration_ms: Some(duration_ms),
        metrics: Vec::new(),
    };
    assert(r@.metrics =~= Seq::<MetricView>::empty());
    r
}

/// A run whose VM failed to start with `error`.
pub fn spawn_failed_result(vmm: &str, scenario: &str, error: &str, duration_ms: u64) -> (r: RunResult)
    ensures
        r@ == spec_spawn_failed_result(vmm@, scenario@, error@, duration_ms),
{
    proof {
        reveal_strlit("");
    }
    let r = RunResult {
        vmm: vmm.to_owned(),
        scenario: scenario.to_owned(),
        success: false,
        error: Some(concat3("VMM spawn failed: ", error, "")),
        duration_ms: Some(duration_ms),
        metrics: Vec::new(),
    };
    assert(r@.metrics =~= Seq::<MetricView>::empty());
    r
}

pub const SEPARATOR_EQ: &'static str = "========================================";
pub const SEPARATOR_DASH: &'static str = "----------------------------------------";

/// The lines printed when a VM fails to start.
pub fn spawn_failure_lines(vmm: &str, error: &str) -> (r: Vec<String>)
    ensures
        views(r@) == seq![SEPARATOR_EQ@, "[VMM Failed] "@ + vmm@ + " | Error: "@ + error@, SEPARATOR_EQ@],
{
    let mut line = concat3("[VMM Failed] ", vmm, " | Error: ");
    line.append(error);
    let mut r: Vec<String> = Vec::new();
    r.push(SEPARATOR_EQ.to_owned());
    r.push(line);
    r.push(SEPARATOR_EQ.to_owned());
    assert(views(r@) =~= seq![SEPARATOR_EQ@, "[VMM Failed] "@ + vmm@ + " | Error: "@ + error@, SEPARATOR_EQ@]);
    r
}

/// The first configuration of the VMM called `name`.
pub open spec fn find_vmm(v: Seq<VmmConfigView>, name: Seq<char>) -> Option<VmmConfigView>
    decreases v.len(),
{
    if v.len() == 0 {
        None
    } else if v[0].name == name {
        Some(v[0])
    } else {
        find_vmm(v.drop_first(), name)
    }
}

/// Where a VM's kernel or root file system is: an absolute path as it is, a relative
/// one under the work directory (to be made canonical where it exists).
pub open spec fn spec_vm_path(workdir: Seq<char>, p: Seq<char>) -> Seq<char> {
    if is_absolute(p) {
        p
    } else {
        path_join(workdir, p)
    }
}

/// What a run needs before its VM starts.
pub struct RunPreparation<'a> {
    /// The runner of the VMM.
    pub runner: &'a AnyRunner,
    /// The work directory, under the configuration's directory (to be made canonical where it exists).
    pub workdir: String,
    /// The kernel and root file system as configured.
    pub kernel: String,
    pub rootfs: String,
}

/// How a run begins.
pub enum RunStart<'a> {
    /// An interrupt came first: the run ends with this result.
    Interrupted(RunResult),
    /// The VM can be configured and started.
    Ready(RunPreparation<'a>),
}

/// The step just before a VM starts: an interrupt seen then ends the run with its
/// result; otherwise the VM starts.
pub fn interrupt_before_spawn(vmm: &str, scenario: &str, interrupted: bool, elapsed_ms: u64) -> (r: Option<RunResult>)
    ensures
        match r {
            Some(x) => interrupted && x@ == spec_interrupted_result(vmm@, scenario@, elapsed_ms),
            None => !interrupted,
        },
{
    if interrupted {
        Some(interrupted_result(vmm, scenario, elapsed_ms))
    } else {
        None
    }
}

/// A VM that could not be started: the lines to print and the result of the run.
pub fn spawn_failure(vmm: &str, scenario: &str, error: &str, elapsed_ms: u64) -> (r: (Vec<String>, RunResult))
    ensures
        views(r.0@) == seq![SEPARATOR_EQ@, "[VMM Failed] "@ + vmm@ + " | Error: "@ + error@, SEPARATOR_EQ@],
        r.1@ == spec_spawn_failed_result(vmm@, scenario@, error@, elapsed_ms),
{
    (spawn_failure_lines(vmm, error), spawn_failed_result(vmm, scenario, error, elapsed_ms))
}

/// Runs scenarios on VMMs and reads their results.
pub struct ScenarioRunner {
    config: Config,
    vmm_registry: VmmRegistry,
    collector: Option<MetricsCollector>,
    config_dir: String,
}

impl ScenarioRunner {
    pub closed spec fn spec_config(&self) -> &Config {
        &self.config
    }

    pub closed spec fn spec_registry(&self) -> &VmmRegistry {
        &self.vmm_registry
    }

    pub closed spec fn spec_collector(&self) -> Option<MetricsCollector> {
        self.collector
    }

    pub closed spec fn spec_config_dir(&self) -> Seq<char> {
        self.config_dir@
    }

    /// The collector is well formed, where there is one.
    pub open spec fn wf(&self) -> bool {
        self.spec_collector() matches Some(c) ==> c.wf()
    }

    pub fn new(config: Config, vmm_registry: VmmRegistry, collector: Option<MetricsCollector>, config_dir: String) -> (r: Self)
        ensures
            r.spec_config() == &config,
            r.spec_registry() == &vmm_registry,
            r.spec_collector() == collector,
            r.spec_config_dir() == config_dir@,
    {
        Self { config, vmm_registry, collector, config_dir }
    }

    pub fn config(&self) -> (r: &Config)
        ensures
            r == self.spec_config(),
    {
        &self.config
    }

    pub fn registry(&self) -> (r: &VmmRegistry)
        ensures
            r == self.spec_registry(),
    {
        &self.vmm_registry
    }

    pub fn collector(&self) -> (r: &Option<MetricsCollector>)
        ensures
            *r == self.spec_collector(),
    {
        &self.collector
    }

    /// Parse metrics from serial output; `ts` stamps them (milliseconds since the Unix epoch).
    pub fn parse_metrics(&self, output: &str, scenario: &str, ts: u64) -> (r: Vec<Metric>)
        ensures
            metrics_view(r@) == spec_parse_metrics(output@, scenario@, ts),
    {
        parse_scenario_metrics(output, scenario, ts)
    }

    /// Get list of all available scenarios
    pub fn get_all_scenarios(&self) -> (r: Vec<String>)
        ensures
            views(r@) == spec_all_scenarios(),
    {
        get_all_scenarios()
    }

    /// The configuration of the VMM called `name`, if configured.
    fn vmm_config(&self, name: &str) -> (r: Option<&VmmConfig>)
        ensures
            match r {
                Some(c) => find_vmm(vmm_views(self.config.vmm_configs@), name@) == Some(c@),
                None => find_vmm(vmm_views(self.config.vmm_configs@), name@).is_none(),
            },
    {
        let ghost all = vmm_views(self.config.vmm_configs@);
        let n = self.config.vmm_configs.len();
        let mut i: usize = 0;
        assert(all.skip(0) =~= all);
        while i < n
            invariant
                n == self.config.vmm_configs.len(),
                all == vmm_views(self.config.vmm_configs@),
                i <= n,
                find_vmm(all.skip(i as int), name@) == find_vmm(all, name@),
            decreases n - i,
        {
            assert(all.skip(i as int)[0] == self.config.vmm_configs@[i as int]@);
            assert(all.skip(i as int).drop_first() =~= all.skip(i + 1));
            if crate::text::str_eq(self.config.vmm_configs[i].name.as_str(), name) {
                return Some(&self.config.vmm_configs[i]);
            }
            i = i + 1;
        }
        None
    }

    /// `p` is what a run on `vmm_name` needs: the VMM is configured, `p.runner` is the
    /// runner registered under its name, and the paths are those of the configuration.
    pub open spec fn prepared(&self, vmm_name: Seq<char>, p: RunPreparation) -> bool {
        &&& find_vmm(vmm_views(self.spec_config().vmm_configs@), vmm_name).is_some()
        &&& lookup(self.spec_registry().view(), vmm_name) == Some(p.runner@)
        &&& p.workdir@ == path_join(self.spec_config_dir(), self.spec_config().global.workdir@)
        &&& p.kernel@ == self.spec_config().global.kernel@
        &&& p.rootfs@ == self.spec_config().global.rootfs@
    }

    /// `e` is why a run on `vmm_name` cannot be prepared: the VMM is not configured,
    /// else no runner is registered under its name.
    pub open spec fn unprepared(&self, vmm_name: Seq<char>, e: Seq<char>) -> bool {
        if find_vmm(vmm_views(self.spec_config().vmm_configs@), vmm_name).is_none() {
            e == "VMM "@ + vmm_name + " not found in config"@
        } else {
            lookup(self.spec_registry().view(), vmm_name).is_none()
                && e == "VMM runner "@ + vmm_name + " not registered"@
        }
    }

    /// What running `scenario` on `vmm_name` needs before the VM starts: the VMM
    /// must be configured and its runner registered.
    pub fn prepare(&self, vmm_name: &str) -> (r: Result<RunPreparation<'_>, String>)
        ensures
            match r {
                Ok(p) => self.prepared(vmm_name@, p),
                Err(e) => self.unprepared(vmm_name@, e@),
            },
    {
        if self.vmm_config(vmm_name).is_none() {
            return Err(concat3("VMM ", vmm_name, " not found in config"));
        }
        match self.vmm_registry.get(vmm_name) {
            None => Err(concat3("VMM runner ", vmm_name, " not registered")),
            Some(runner) => Ok(RunPreparation {
                runner,
                workdir: join_path(self.config_dir.as_str(), self.config.global.workdir.as_str()),
                kernel: self.config.global.kernel.clone(),
                rootfs: self.config.global.rootfs.clone(),
            }),
        }
    }

    /// The first step of a run of `scenario` on `vmm_name`: an interrupt seen before
    /// anything is done ends the run at once; otherwise the run is prepared.
    /// `elapsed_ms` is the time since the run began.
    pub fn begin_run(&self, vmm_name: &str, scenario: &str, interrupted: bool, elapsed_ms: u64) -> (r: Result<RunStart<'_>, String>)
        ensures
            match r {
                Ok(RunStart::Interrupted(x)) => interrupted && x@ == spec_interrupted_result(vmm_name@, scenario@, elapsed_ms),
                Ok(RunStart::Ready(p)) => !interrupted && self.prepared(vmm_name@, p),
                Err(e) => !interrupted && self.unprepared(vmm_name@, e@),
            },
    {
        if interrupted {
            return Ok(RunStart::Interrupted(interrupted_result(vmm_name, scenario, elapsed_ms)));
        }
        match self.prepare(vmm_name) {
            Ok(p) => Ok(RunStart::Ready(p)),
            Err(e) => Err(e),
        }
    }

    /// Stores a batch in the collector, where there is one.
    pub fn record(&mut self, batch: MetricBatch)
        requires
            old(self).wf(),
        ensures
            final(self).wf(),
            final(self).spec_config() == old(self).spec_config(),
            final(self).spec_registry() == old(self).spec_registry(),
            final(self).spec_config_dir() == old(self).spec_config_dir(),
            match (old(self).spec_collector(), final(self).spec_collector()) {
                (Some(c0), Some(c1)) => c1.view() == stored_after(c0.view(), batch@)
                    && c1.spec_logs_enabled() == c0.spec_logs_enabled()
                    && c1.spec_logs_dir() == c0.spec_logs_dir(),
                (None, None) => true,
                _ => false,
            },
    {
        match self.collector.take() {
            Some(mut c) => {
                let _ = c.ingest(batch);
                self.collector = Some(c);
            },
            None => {},
        }
    }

    /// The VMMs a batch runs: those asked for, else the enabled ones in configuration
    /// order; the flag tells whether the enabled ones were taken.
    pub fn batch_vmms(&self, vmm_names: Option<Vec<String>>) -> (r: (Vec<String>, bool))
        ensures
            match vmm_names {
                Some(v) => views(r.0@) == views(v@) && !r.1,
                None => views(r.0@) == enabled_vmms(vmm_views(self.spec_config().vmm_configs@)).map_values(|c: VmmConfigView| c.name)
                    && r.1,
            },
    {
        match vmm_names {
            Some(v) => (v, false),
            None => {
                let enabled = self.config.get_enabled_vmm();
                let mut r: Vec<String> = Vec::new();
                let n = enabled.len();
                let mut i: usize = 0;
                while i < n
                    invariant
                        n == enabled.len(),
                        i <= n,
                        r.len() == i,
                        forall|j: int| 0 <= j < i ==> r@[j]@ == enabled@[j]@.name,
                    decreases n - i,
                {
                    r.push(enabled[i].name.clone());
                    i = i + 1;
                }
                let ghost ev = enabled@.map_values(|c: &VmmConfig| c@);
                assert(views(r@) =~= ev.map_values(|c: VmmConfigView| c.name));
                (r, true)
            },
        }
    }

    /// The scenarios a batch runs: those asked for, else all of them.
    pub fn batch_scenarios(&self, scenarios: Option<Vec<String>>) -> (r: Vec<String>)
        ensures
            views(r@) == match scenarios {
                Some(v) => views(v@),
                None => spec_all_scenarios(),
            },
    {
        match scenarios {
            Some(v) => v,
            None => get_all_scenarios(),
        }
    }
}

/// The kernel or root file system path of a VM before it is made canonical, and
/// whether it needs making canonical (relative paths do).
pub fn vm_path(workdir: &str, p: &str) -> (r: (String, bool))
    ensures
        r.0@ == spec_vm_path(workdir@, p@),
        r.1 == !is_absolute(p@),
{
    if path_is_absolute(p) {
        (p.to_owned(), false)
    } else {
        (join_path(workdir, p), true)
    }
}

/// The VM configuration of a run: no preset socket.
pub fn vm_config(kernel: String, rootfs: String, scenario: &str) -> (r: VmConfig)
    ensures
        r@ == (VmConfigView { kernel: kernel@, rootfs: rootfs@, scenario: scenario@, socket_path: None }),
{
    VmConfig { kernel, rootfs, scenario: scenario.to_owned(), socket_path: None }
}

} // verus!
