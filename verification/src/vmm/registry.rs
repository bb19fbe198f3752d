//! VMM Registry for managing and auto-detecting VMM runners.
use vstd::prelude::*;
use crate::text::concat3;
use crate::vmm::cloudhypervisor::{CloudHypervisorRunner, ch_plan};
use crate::vmm::crosvm::{CrosvmRunner, crosvm_plan};
use crate::vmm::firecracker::{FirecrackerRunner, firecracker_plan};
use crate::vmm::stratovirt::{StratovirtRunner, stratovirt_plan};
use crate::vmm::traits::{DetectCheck, LaunchPlan, LaunchPlanView, ProbeOutcome, VmConfig, VmConfigView, VmmRunner, detect_result, probe_matches};

verus! {

/// The VMMs that LingBench knows.
#[derive(Debug, Clone, Copy, PartialEq, Eq, Structural)]
pub enum VmmKind {
    Firecracker,
    CloudHypervisor,
    Crosvm,
    Stratovirt,
}

/// The name of each VMM.
pub open spec fn kind_name(k: VmmKind) -> Seq<char> {
    match k {
        VmmKind::Firecracker => "firecracker"@,
        VmmKind::CloudHypervisor => "cloud-hypervisor"@,
        VmmKind::Crosvm => "crosvm"@,
        VmmKind::Stratovirt => "stratovirt"@,
    }
}

/// What detection reports for a binary of each VMM whose check failed.
pub open spec fn invalid_message(k: VmmKind) -> Seq<char> {
    match k {
        VmmKind::Firecracker => "Firecracker binary not valid"@,
        VmmKind::CloudHypervisor => "Cloud-Hypervisor binary not valid"@,
        VmmKind::Crosvm => "Crosvm binary not found"@,
        VmmKind::Stratovirt => "Stratovirt binary not found"@,
    }
}

/// The check each VMM's binary needs.
pub open spec fn kind_check(k: VmmKind) -> DetectCheck {
    match k {
        VmmKind::Firecracker | VmmKind::CloudHypervisor => DetectCheck::VersionCommand,
        VmmKind::Crosvm | VmmKind::Stratovirt => DetectCheck::BinaryExists,
    }
}

/// The VMM a binary belongs to: the first of Firecracker, Cloud-Hypervisor, crosvm
/// and Stratovirt whose name its file name contains.
pub open spec fn spec_kind_of(binary: Seq<char>) -> Option<VmmKind> {
    if probe_matches(binary, "firecracker"@) {
        Some(VmmKind::Firecracker)
    } else if probe_matches(binary, "cloud-hypervisor"@) {
        Some(VmmKind::CloudHypervisor)
    } else if probe_matches(binary, "crosvm"@) {
        Some(VmmKind::Crosvm)
    } else if probe_matches(binary, "stratovirt"@) {
        Some(VmmKind::Stratovirt)
    } else {
        None
    }
}

impl VmmKind {
    /// The check that this VMM's binary needs before use.
    pub fn detect_check(&self) -> (r: DetectCheck)
        ensures
            r == kind_check(*self),
    {
        match self {
            VmmKind::Firecracker => FirecrackerRunner::detect_check(),
            VmmKind::CloudHypervisor => CloudHypervisorRunner::detect_check(),
            VmmKind::Crosvm => CrosvmRunner::detect_check(),
            VmmKind::Stratovirt => StratovirtRunner::detect_check(),
        }
    }
}

/// A runner of any known VMM.
pub enum AnyRunner {
    Firecracker(FirecrackerRunner),
    CloudHypervisor(CloudHypervisorRunner),
    Crosvm(CrosvmRunner),
    Stratovirt(StratovirtRunner),
}

/// The VMM and binary of a runner.
pub struct RunnerView {
    pub kind: VmmKind,
    pub binary: Seq<char>,
}

impl View for AnyRunner {
    type V = RunnerView;

    open spec fn view(&self) -> RunnerView {
        match self {
            AnyRunner::Firecracker(r) => RunnerView { kind: VmmKind::Firecracker, binary: r.spec_binary() },
            AnyRunner::CloudHypervisor(r) => RunnerView { kind: VmmKind::CloudHypervisor, binary: r.spec_binary() },
            AnyRunner::Crosvm(r) => RunnerView { kind: VmmKind::Crosvm, binary: r.spec_binary() },
            AnyRunner::Stratovirt(r) => RunnerView { kind: VmmKind::Stratovirt, binary: r.spec_binary() },
        }
    }
}

/// The plan that starts a VM of `config` with a runner.
pub open spec fn runner_plan(r: RunnerView, config: VmConfigView, run_id: Seq<char>) -> LaunchPlanView {
    match r.kind {
        VmmKind::Firecracker => firecracker_plan(r.binary, config, run_id),
        VmmKind::CloudHypervisor => ch_plan(r.binary, config, run_id),
        VmmKind::Crosvm => crosvm_plan(r.binary, config, run_id),
        VmmKind::Stratovirt => stratovirt_plan(r.binary, config, run_id),
    }
}

impl AnyRunner {
    /// VMM name.
    pub fn name(&self) -> (r: &'static str)
        ensures
            r@ == kind_name(self@.kind),
    {
        match self {
            AnyRunner::Firecracker(r) => r.name(),
            AnyRunner::CloudHypervisor(r) => r.name(),
            AnyRunner::Crosvm(r) => r.name(),
            AnyRunner::Stratovirt(r) => r.name(),
        }
    }

    pub fn kind(&self) -> (r: VmmKind)
        ensures
            r == self@.kind,
    {
        match self {
            AnyRunner::Firecracker(_) => VmmKind::Firecracker,
            AnyRunner::CloudHypervisor(_) => VmmKind::CloudHypervisor,
            AnyRunner::Crosvm(_) => VmmKind::Crosvm,
            AnyRunner::Stratovirt(_) => VmmKind::Stratovirt,
        }
    }

    pub fn binary_path(&self) -> (r: &str)
        ensures
            r@ == self@.binary,
    {
        match self {
            AnyRunner::Firecracker(r) => r.binary_path(),
            AnyRunner::CloudHypervisor(r) => r.binary_path(),
            AnyRunner::Crosvm(r) => r.binary_path(),
            AnyRunner::Stratovirt(r) => r.binary_path(),
        }
    }

    /// How to start a VM of `config`; `run_id` makes its file names unique.
    pub fn launch_plan(&self, config: &VmConfig, run_id: &str) -> (r: LaunchPlan)
        ensures
            r@ == runner_plan(self@, config@, run_id@),
    {
        match self {
            AnyRunner::Firecracker(r) => r.launch_plan(config, run_id),
            AnyRunner::CloudHypervisor(r) => r.launch_plan(config, run_id),
            AnyRunner::Crosvm(r) => r.launch_plan(config, run_id),
            AnyRunner::Stratovirt(r) => r.launch_plan(config, run_id),
        }
    }
}

/// Registry entry storing an actual runner instance
struct RegistryEntry {
    name: String,
    runner: AnyRunner,
}

/// The registered runners, each under its name, in registration order.
pub struct VmmRegistry {
    entries: Vec<RegistryEntry>,
}

/// The runner registered first under `name`.
pub open spec fn lookup(es: Seq<(Seq<char>, RunnerView)>, name: Seq<char>) -> Option<RunnerView>
    decreases es.len(),
{
    if es.len() == 0 {
        None
    } else if es[0].0 == name {
        Some(es[0].1)
    } else {
        lookup(es.drop_first(), name)
    }
}

/// What detecting `binary` yields, given the outcome of its check.
pub open spec fn spec_detect(binary: Seq<char>, outcome: ProbeOutcome) -> Result<RunnerView, Seq<char>> {
    match spec_kind_of(binary) {
        None => Err("Unknown VMM binary: "@ + binary),
        Some(k) => match detect_result(outcome, invalid_message(k)) {
            Ok(_) => Ok(RunnerView { kind: k, binary }),
            Err(e) => Err(e),
        },
    }
}

/// Where the standard runners are looked for.
pub const FIRECRACKER_STANDARD_PATH: &'static str = "/usr/local/bin/firecracker";
pub const CLOUD_HYPERVISOR_STANDARD_PATH: &'static str = "/usr/local/bin/cloud-hypervisor";

impl VmmRegistry {
    /// Each registered name with its runner, in registration order.
    pub closed spec fn view(&self) -> Seq<(Seq<char>, RunnerView)> {
        self.entries@.map_values(|e: RegistryEntry| (e.name@, e.runner@))
    }

    pub fn new() -> (r: Self)
        ensures
            r.view() == Seq::<(Seq<char>, RunnerView)>::empty(),
    {
        let r = Self { entries: Vec::new() };
        assert(r.view() =~= Seq::<(Seq<char>, RunnerView)>::empty());
        r
    }

    /// Register VMM Runner (via binary path detection)
    pub fn register(&mut self, runner: AnyRunner)
        ensures
            final(self).view() == old(self).view().push((kind_name(runner@.kind), runner@)),
    {
        let name = runner.name().to_owned();
        self.entries.push(RegistryEntry { name, runner });
        assert(self.view() =~= old(self).view().push((kind_name(runner@.kind), runner@)));
    }

    /// Register VMM Runner with explicit name: `runner`, as detection gave it, is
    /// registered under `name` rather than under its VMM's name. Deprecated: use
    /// [`VmmRegistry::register`] with a detected runner instead.
    pub fn register_with(&mut self, name: &str, runner: AnyRunner)
        ensures
            final(self).view() == old(self).view().push((name@, runner@)),
    {
        let ghost rv = runner@;
        self.entries.push(RegistryEntry { name: name.to_owned(), runner });
        assert(self.view() =~= old(self).view().push((name@, rv)));
    }

    /// Get registered Runner names
    pub fn names(&self) -> (r: Vec<String>)
        ensures
            r@.map_values(|s: String| s@) == self.view().map_values(|e: (Seq<char>, RunnerView)| e.0),
    {
        let mut r: Vec<String> = Vec::new();
        let n = self.entries.len();
        let mut i: usize = 0;
        while i < n
            invariant
                n == self.entries.len(),
                i <= n,
                r.len() == i,
                forall|j: int| 0 <= j < i ==> r@[j]@ == self.entries@[j].name@,
            decreases n - i,
        {
            r.push(self.entries[i].name.clone());
            i = i + 1;
        }
        assert(r@.map_values(|s: String| s@) =~= self.view().map_values(|e: (Seq<char>, RunnerView)| e.0));
        r
    }

    /// Get Runner by name
    pub fn get(&self, name: &str) -> (r: Option<&AnyRunner>)
        ensures
            match r {
                Some(x) => lookup(self.view(), name@) == Some(x@),
                None => lookup(self.view(), name@).is_none(),
            },
    {
        let n = self.entries.len();
        let mut i: usize = 0;
        assert(self.view().skip(0) =~= self.view());
        while i < n
            invariant
                n == self.entries.len(),
                i <= n,
                lookup(self.view().skip(i as int), name@) == lookup(self.view(), name@),
            decreases n - i,
        {
            let ghost rest = self.view().skip(i as int);
            assert(rest[0] == (self.entries@[i as int].name@, self.entries@[i as int].runner@));
            assert(rest.drop_first() =~= self.view().skip(i + 1));
            if crate::text::str_eq(self.entries[i].name.as_str(), name) {
                return Some(&self.entries[i].runner);
            }
            i = i + 1;
        }
        None
    }

    /// Get all registered runners
    pub fn runners(&self) -> (r: Vec<&AnyRunner>)
        ensures
            r.len() == self.view().len(),
            forall|i: int| 0 <= i < r.len() ==> r@[i]@ == #[trigger] self.view()[i].1,
    {
        let mut r: Vec<&AnyRunner> = Vec::new();
        let n = self.entries.len();
        let mut i: usize = 0;
        while i < n
            invariant
                n == self.entries.len(),
                i <= n,
                r.len() == i,
                forall|j: int| 0 <= j < i ==> r@[j]@ == self.entries@[j].runner@,
            decreases n - i,
        {
            r.push(&self.entries[i].runner);
            i = i + 1;
        }
        r
    }

    /// The VMM a binary belongs to, judged by its file name.
    pub fn kind_of(binary: &str) -> (r: Result<VmmKind, String>)
        ensures
            match r {
                Ok(k) => spec_kind_of(binary@) == Some(k),
                Err(e) => spec_kind_of(binary@).is_none() && e@ == "Unknown VMM binary: "@ + binary@,
            },
    {
        if FirecrackerRunner::probe(binary) {
            return Ok(VmmKind::Firecracker);
        }
        if CloudHypervisorRunner::probe(binary) {
            return Ok(VmmKind::CloudHypervisor);
        }
        if CrosvmRunner::probe(binary) {
            return Ok(VmmKind::Crosvm);
        }
        if StratovirtRunner::probe(binary) {
            return Ok(VmmKind::Stratovirt);
        }
        proof {
            reveal_strlit("");
        }
        Err(concat3("Unknown VMM binary: ", binary, ""))
    }

    /// Auto-detect binary type, given the outcome of the check its VMM needs.
    pub fn detect(&self, binary: &str, outcome: ProbeOutcome) -> (r: Result<AnyRunner, String>)
        ensures
            match r {
                Ok(x) => spec_detect(binary@, outcome) == Ok::<RunnerView, Seq<char>>(x@),
                Err(e) => spec_detect(binary@, outcome) == Err::<RunnerView, Seq<char>>(e@),
            },
    {
        let kind = Self::kind_of(binary)?;
        match kind {
            VmmKind::Firecracker => match FirecrackerRunner::detect(binary, outcome) {
                Ok(r) => Ok(AnyRunner::Firecracker(r)),
                Err(e) => Err(e),
            },
            VmmKind::CloudHypervisor => match CloudHypervisorRunner::detect(binary, outcome) {
                Ok(r) => Ok(AnyRunner::CloudHypervisor(r)),
                Err(e) => Err(e),
            },
            VmmKind::Crosvm => match CrosvmRunner::detect(binary, outcome) {
                Ok(r) => Ok(AnyRunner::Crosvm(r)),
                Err(e) => Err(e),
            },
            VmmKind::Stratovirt => match StratovirtRunner::detect(binary, outcome) {
                Ok(r) => Ok(AnyRunner::Stratovirt(r)),
                Err(e) => Err(e),
            },
        }
    }

    /// Auto-detect binary type and register
    pub fn detect_and_register(&mut self, binary: &str, outcome: ProbeOutcome) -> (r: Result<(), String>)
        ensures
            match spec_detect(binary@, outcome) {
                Ok(x) => r.is_ok() && final(self).view() == old(self).view().push((kind_name(x.kind), x)),
                Err(e) => (r matches Err(m) && m@ == e) && final(self).view() == old(self).view(),
            },
    {
        match self.detect(binary, outcome) {
            Ok(runner) => {
                self.register(runner);
                Ok(())
            },
            Err(e) => Err(e),
        }
    }

    /// A registry with the runners found at the standard paths, given the outcome of
    /// the version check of each.
    pub fn with_standard_runners(firecracker: ProbeOutcome, cloud_hypervisor: ProbeOutcome) -> (r: Self)
        ensures
            r.view() == (if firecracker is Passed {
                seq![("firecracker"@, RunnerView { kind: VmmKind::Firecracker, binary: FIRECRACKER_STANDARD_PATH@ })]
            } else {
                Seq::empty()
            }) + (if cloud_hypervisor is Passed {
                seq![("cloud-hypervisor"@, RunnerView { kind: VmmKind::CloudHypervisor, binary: CLOUD_HYPERVISOR_STANDARD_PATH@ })]
            } else {
                Seq::empty()
            }),
    {
        let mut registry = Self::new();
        let ghost fc_ok = firecracker is Passed;
        let ghost ch_ok = cloud_hypervisor is Passed;
        if let Ok(fc) = FirecrackerRunner::detect(FIRECRACKER_STANDARD_PATH, firecracker) {
            registry.register(AnyRunner::Firecracker(fc));
        }
        if let Ok(ch) = CloudHypervisorRunner::detect(CLOUD_HYPERVISOR_STANDARD_PATH, cloud_hypervisor) {
            registry.register(AnyRunner::CloudHypervisor(ch));
        }
        assert(registry.view() =~= (if fc_ok {
                seq![("firecracker"@, RunnerView { kind: VmmKind::Firecracker, binary: FIRECRACKER_STANDARD_PATH@ })]
            } else {
                Seq::empty()
            }) + (if ch_ok {
                seq![("cloud-hypervisor"@, RunnerView { kind: VmmKind::CloudHypervisor, binary: CLOUD_HYPERVISOR_STANDARD_PATH@ })]
            } else {
                Seq::empty()
            }));
        registry
    }
}

impl Default for VmmRegistry {
    fn default() -> (r: Self)
        ensures
            r.view() == Seq::<(Seq<char>, RunnerView)>::empty(),
    {
        Self::new()
    }
}

/// Registering a runner under `n` leaves every lookup as it was, except that a name
/// looked up in vain before now finds the new runner when it is `n`: a name keeps
/// the runner it was registered with first.
pub proof fn law_lookup_after_register(es: Seq<(Seq<char>, RunnerView)>, n: Seq<char>, r: RunnerView, name: Seq<char>)
    ensures
        lookup(es.push((n, r)), name) == (if name == n && lookup(es, name).is_none() {
            Some(r)
        } else {
            lookup(es, name)
        }),
    decreases es.len(),
{
    let es2 = es.push((n, r));
    if es.len() == 0 {
        assert(es2.drop_first() =~= Seq::<(Seq<char>, RunnerView)>::empty());
        assert(lookup(es2.drop_first(), name).is_none());
        assert(es2[0] == (n, r));
    } else {
        assert(es2[0] == es[0]);
        assert(es2.drop_first() =~= es.drop_first().push((n, r)));
        law_lookup_after_register(es.drop_first(), n, r, name);
    }
}

/// A runner found by a lookup is registered under that name.
pub proof fn law_lookup_finds_registered(es: Seq<(Seq<char>, RunnerView)>, name: Seq<char>)
    ensures
        lookup(es, name) matches Some(r) ==> es.contains((name, r)),
        lookup(es, name).is_none() ==> forall|i: int| 0 <= i < es.len() ==> #[trigger] es[i].0 != name,
    decreases es.len(),
{
    if es.len() > 0 {
        law_lookup_finds_registered(es.drop_first(), name);
        if es[0].0 == name {
            assert(es[0] == (name, es[0].1));
        } else {
            if let Some(r) = lookup(es.drop_first(), name) {
                let j = choose|j: int| 0 <= j < es.drop_first().len() && es.drop_first()[j] == (name, r);
                assert(es[j + 1] == (name, r));
            }
            assert forall|i: int| 0 <= i < es.len() && lookup(es, name).is_none() implies #[trigger] es[i].0 != name by {
                if i > 0 {
                    assert(es[i] == es.drop_first()[i - 1]);
                }
            }
        }
    }
}

} // verus!
