//! Running scenarios on VMMs one after another: the order, the pauses, and when to stop.
use vstd::prelude::*;
use crate::runner::scenario::{RunResult, RunResultView, SEPARATOR_EQ, results_view};
use crate::text::{concat3, seq_contains, str_contains, str_eq, views};

verus! {

/// The pause after each scenario, and after each VMM.
pub const SCENARIO_PAUSE_MS: u64 = 1000;
pub const VMM_PAUSE_MS: u64 = 2000;

/// A run whose VM could not be started.
pub open spec fn spawn_failed(r: RunResultView) -> bool {
    match r.error {
        Some(e) => seq_contains(e, "VMM spawn failed"@),
        None => false,
    }
}

/// A run that was interrupted.
pub open spec fn was_interrupted(r: RunResultView) -> bool {
    r.error == Some("Interrupted"@)
}

/// Where a batch stands.
#[derive(Debug, Clone, Copy, PartialEq, Eq, Structural)]
pub enum BatchPhase {
    /// Before VMM `vmm`: the interrupt flag has been asked for.
    CheckingBeforeVmm,
    /// Scenario `scenario` of VMM `vmm` is running.
    Running,
    /// Pausing after a scenario.
    PausingAfterScenario,
    /// After the scenarios of a VMM: the interrupt flag has been asked for.
    CheckingAfterVmm,
    /// The end of a VMM is being printed.
    Announcing,
    /// Pausing after a VMM.
    PausingAfterVmm,
    /// The batch is over.
    Done,
}

/// What the host observed.
#[derive(Debug)]
pub enum BatchEvent {
    /// The action is done (a pause or a print).
    Proceed,
    /// The interrupt flag.
    Interrupt { flag: bool },
    /// The result of the scenario that ran.
    Ran { result: RunResult },
}

pub enum BatchEventView {
    Proceed,
    Interrupt { flag: bool },
    Ran { result: RunResultView },
}

impl View for BatchEvent {
    type V = BatchEventView;

    open spec fn view(&self) -> BatchEventView {
        match self {
            BatchEvent::Proceed => BatchEventView::Proceed,
            BatchEvent::Interrupt { flag } => BatchEventView::Interrupt { flag: *flag },
            BatchEvent::Ran { result } => BatchEventView::Ran { result: result@ },
        }
    }
}

/// What the host does next.
#[derive(Debug)]
pub enum BatchAction {
    /// Read the interrupt flag.
    CheckInterrupt,
    /// Run one scenario on one VMM.
    Run { vmm: String, scenario: String },
    /// Pause.
    Sleep { ms: u64 },
    /// Print these lines.
    Print { lines: Vec<String> },
    /// The batch is over; its results are ready.
    Done,
    /// The event was not expected: nothing to do.
    Idle,
}

pub enum BatchActionView {
    CheckInterrupt,
    Run { vmm: Seq<char>, scenario: Seq<char> },
    Sleep { ms: u64 },
    Print { lines: Seq<Seq<char>> },
    Done,
    Idle,
}

impl View for BatchAction {
    type V = BatchActionView;

    open spec fn view(&self) -> BatchActionView {
        match self {
            BatchAction::CheckInterrupt => BatchActionView::CheckInterrupt,
            BatchAction::Run { vmm, scenario } => BatchActionView::Run { vmm: vmm@, scenario: scenario@ },
            BatchAction::Sleep { ms } => BatchActionView::Sleep { ms: *ms },
            BatchAction::Print { lines } => BatchActionView::Print { lines: views(lines@) },
            BatchAction::Done => BatchActionView::Done,
            BatchAction::Idle => BatchActionView::Idle,
        }
    }
}

/// The state of a batch.
pub struct BatchView {
    pub vmms: Seq<Seq<char>>,
    pub scenarios: Seq<Seq<char>>,
    pub vmm: int,
    pub scenario: int,
    pub vmm_failed: bool,
    pub phase: BatchPhase,
    pub results: Seq<RunResultView>,
}

/// The lines that announce the end of a VMM.
pub open spec fn finished_lines(vmm: Seq<char>) -> Seq<Seq<char>> {
    seq![SEPARATOR_EQ@, "[VMM Finished] "@ + vmm, SEPARATOR_EQ@]
}

/// Starting VMM `b.vmm`: the batch is over after the last one, else the flag is asked for.
pub open spec fn start_vmm(b: BatchView) -> (BatchView, BatchActionView) {
    if b.vmm >= b.vmms.len() {
        (BatchView { phase: BatchPhase::Done, ..b }, BatchActionView::Done)
    } else {
        (BatchView { phase: BatchPhase::CheckingBeforeVmm, ..b }, BatchActionView::CheckInterrupt)
    }
}

/// Starting scenario `b.scenario` of the current VMM, or ending the VMM after the last one.
pub open spec fn start_scenario(b: BatchView) -> (BatchView, BatchActionView) {
    if b.scenario < b.scenarios.len() {
        (
            BatchView { phase: BatchPhase::Running, ..b },
            BatchActionView::Run { vmm: b.vmms[b.vmm], scenario: b.scenarios[b.scenario] },
        )
    } else {
        end_vmm(b)
    }
}

/// Ending the current VMM: its end is announced unless it failed or an interrupt came.
pub open spec fn end_vmm(b: BatchView) -> (BatchView, BatchActionView) {
    if b.vmm_failed {
        (BatchView { phase: BatchPhase::PausingAfterVmm, ..b }, BatchActionView::Sleep { ms: VMM_PAUSE_MS })
    } else {
        (BatchView { phase: BatchPhase::CheckingAfterVmm, ..b }, BatchActionView::CheckInterrupt)
    }
}

/// How a batch proceeds after the event `e`.
pub open spec fn batch_next(b: BatchView, e: BatchEventView) -> (BatchView, BatchActionView) {
    match (b.phase, e) {
        (BatchPhase::CheckingBeforeVmm, BatchEventView::Interrupt { flag }) => {
            if flag {
                (BatchView { phase: BatchPhase::Done, ..b }, BatchActionView::Done)
            } else {
                start_scenario(BatchView { scenario: 0, vmm_failed: false, ..b })
            }
        },
        (BatchPhase::Running, BatchEventView::Ran { result }) => {
            let failed = b.vmm_failed || spawn_failed(result);
            let b2 = BatchView { vmm_failed: failed, results: b.results.push(result), ..b };
            if was_interrupted(result) || failed {
                end_vmm(b2)
            } else {
                (BatchView { phase: BatchPhase::PausingAfterScenario, ..b2 }, BatchActionView::Sleep { ms: SCENARIO_PAUSE_MS })
            }
        },
        (BatchPhase::PausingAfterScenario, BatchEventView::Proceed) =>
            start_scenario(BatchView { scenario: b.scenario + 1, ..b }),
        (BatchPhase::CheckingAfterVmm, BatchEventView::Interrupt { flag }) => {
            if flag {
                (BatchView { phase: BatchPhase::PausingAfterVmm, ..b }, BatchActionView::Sleep { ms: VMM_PAUSE_MS })
            } else {
                (BatchView { phase: BatchPhase::Announcing, ..b }, BatchActionView::Print { lines: finished_lines(b.vmms[b.vmm]) })
            }
        },
        (BatchPhase::Announcing, BatchEventView::Proceed) =>
            (BatchView { phase: BatchPhase::PausingAfterVmm, ..b }, BatchActionView::Sleep { ms: VMM_PAUSE_MS }),
        (BatchPhase::PausingAfterVmm, BatchEventView::Proceed) =>
            start_vmm(BatchView { vmm: b.vmm + 1, ..b }),
        _ => (b, BatchActionView::Idle),
    }
}

/// A batch of scenario runs over several VMMs.
pub struct BatchPlan {
    vmms: Vec<String>,
    scenarios: Vec<String>,
    vmm: usize,
    scenario: usize,
    vmm_failed: bool,
    phase: BatchPhase,
    results: Vec<RunResult>,
}

impl BatchPlan {
    pub closed spec fn view(&self) -> BatchView {
        BatchView {
            vmms: views(self.vmms@),
            scenarios: views(self.scenarios@),
            vmm: self.vmm as int,
            scenario: self.scenario as int,
            vmm_failed: self.vmm_failed,
            phase: self.phase,
            results: results_view(self.results@),
        }
    }

    /// The indexes stay within the lists.
    pub open spec fn inv(&self) -> bool {
        let b = self.view();
        &&& 0 <= b.vmm <= b.vmms.len()
        &&& 0 <= b.scenario <= b.scenarios.len()
        &&& b.phase != BatchPhase::Done ==> b.vmm < b.vmms.len()
        &&& (b.phase == BatchPhase::Running || b.phase == BatchPhase::PausingAfterScenario) ==> b.scenario < b.scenarios.len()
    }

    /// Starts a batch that runs each of `scenarios` on each of `vmms`.
    pub fn new(vmms: Vec<String>, scenarios: Vec<String>) -> (r: (Self, BatchAction))
        ensures
            r.0.inv(),
            (r.0.view(), r.1@) == batch_start(views(vmms@), views(scenarios@)),
    {
        let mut b = BatchPlan {
            vmms,
            scenarios,
            vmm: 0,
            scenario: 0,
            vmm_failed: false,
            phase: BatchPhase::CheckingBeforeVmm,
            results: Vec::new(),
        };
        assert(results_view(b.results@) =~= Seq::<RunResultView>::empty());
        let a = b.start_vmm();
        (b, a)
    }

    fn start_vmm(&mut self) -> (r: BatchAction)
        requires
            0 <= old(self).view().vmm <= old(self).view().vmms.len(),
            0 <= old(self).view().scenario <= old(self).view().scenarios.len(),
        ensures
            final(self).inv(),
            (final(self).view(), r@) == start_vmm(old(self).view()),
    {
        if self.vmm >= self.vmms.len() {
            self.phase = BatchPhase::Done;
            BatchAction::Done
        } else {
            self.phase = BatchPhase::CheckingBeforeVmm;
            BatchAction::CheckInterrupt
        }
    }

    fn end_vmm(&mut self) -> (r: BatchAction)
        requires
            0 <= old(self).view().vmm < old(self).view().vmms.len(),
            0 <= old(self).view().scenario <= old(self).view().scenarios.len(),
        ensures
            final(self).inv(),
            (final(self).view(), r@) == end_vmm(old(self).view()),
    {
        if self.vmm_failed {
            self.phase = BatchPhase::PausingAfterVmm;
            BatchAction::Sleep { ms: VMM_PAUSE_MS }
        } else {
            self.phase = BatchPhase::CheckingAfterVmm;
            BatchAction::CheckInterrupt
        }
    }

    fn start_scenario(&mut self) -> (r: BatchAction)
        requires
            0 <= old(self).view().vmm < old(self).view().vmms.len(),
            0 <= old(self).view().scenario <= old(self).view().scenarios.len(),
        ensures
            final(self).inv(),
            (final(self).view(), r@) == start_scenario(old(self).view()),
    {
        if self.scenario < self.scenarios.len() {
            self.phase = BatchPhase::Running;
            BatchAction::Run { vmm: self.vmms[self.vmm].clone(), scenario: self.scenarios[self.scenario].clone() }
        } else {
            self.end_vmm()
        }
    }

    /// Advances the batch by the event `e` and says what to do next.
    pub fn step(&mut self, e: BatchEvent) -> (r: BatchAction)
        requires
            old(self).inv(),
        ensures
            final(self).inv(),
            (final(self).view(), r@) == batch_next(old(self).view(), e@),
    {
        assert(self.view().scenarios.len() == self.scenarios.len());
        assert(self.view().vmms.len() == self.vmms.len());
        match (self.phase, e) {
            (BatchPhase::CheckingBeforeVmm, BatchEvent::Interrupt { flag }) => {
                if flag {
                    self.phase = BatchPhase::Done;
                    BatchAction::Done
                } else {
                    self.scenario = 0;
                    self.vmm_failed = false;
                    self.start_scenario()
                }
            },
            (BatchPhase::Running, BatchEvent::Ran { result }) => {
                let spawn_fail = match &result.error {
                    Some(err) => str_contains(err.as_str(), "VMM spawn failed"),
                    None => false,
                };
                let interrupted = match &result.error {
                    Some(err) => str_eq(err.as_str(), "Interrupted"),
                    None => false,
                };
                let ghost rv = result@;
                self.vmm_failed = self.vmm_failed || spawn_fail;
                self.results.push(result);
                assert(results_view(self.results@) =~= results_view(old(self).results@).push(rv));
                if interrupted || self.vmm_failed {
                    self.end_vmm()
                } else {
                    self.phase = BatchPhase::PausingAfterScenario;
                    BatchAction::Sleep { ms: SCENARIO_PAUSE_MS }
                }
            },
            (BatchPhase::PausingAfterScenario, BatchEvent::Proceed) => {
                self.scenario = self.scenario + 1;
                self.start_scenario()
            },
            (BatchPhase::CheckingAfterVmm, BatchEvent::Interrupt { flag }) => {
                if flag {
                    self.phase = BatchPhase::PausingAfterVmm;
                    BatchAction::Sleep { ms: VMM_PAUSE_MS }
                } else {
                    self.phase = BatchPhase::Announcing;
                    let mut lines: Vec<String> = Vec::new();
                    lines.push(SEPARATOR_EQ.to_owned());
                    proof {
                        reveal_strlit("");
                    }
                    lines.push(concat3("[VMM Finished] ", self.vmms[self.vmm].as_str(), ""));
                    lines.push(SEPARATOR_EQ.to_owned());
                    assert(views(lines@) =~= finished_lines(self.view().vmms[self.view().vmm]));
                    BatchAction::Print { lines }
                }
            },
            (BatchPhase::Announcing, BatchEvent::Proceed) => {
                self.phase = BatchPhase::PausingAfterVmm;
                BatchAction::Sleep { ms: VMM_PAUSE_MS }
            },
            (BatchPhase::PausingAfterVmm, BatchEvent::Proceed) => {
                self.vmm = self.vmm + 1;
                self.start_vmm()
            },
            _ => BatchAction::Idle,
        }
    }

    /// The results gathered so far, in the order the runs ended.
    pub fn into_results(self) -> (r: Vec<RunResult>)
        ensures
            results_view(r@) == self.view().results,
    {
        self.results
    }
}

/// Every step records exactly the result of the run that just ended, and only it.
pub proof fn law_batch_records_each_run(b: BatchView, e: BatchEventView)
    ensures
        batch_next(b, e).0.results == (if b.phase == BatchPhase::Running && e is Ran {
            b.results.push(e->result)
        } else {
            b.results
        }),
{
}

/// Whatever runs next is a listed VMM running a listed scenario, at the position
/// the batch has reached.
pub proof fn law_batch_runs_listed_pairs(b: BatchView, e: BatchEventView)
    ensures
        batch_next(b, e).1 is Run ==> {
            let n = batch_next(b, e).0;
            &&& n.phase == BatchPhase::Running
            &&& batch_next(b, e).1->vmm == n.vmms[n.vmm]
            &&& batch_next(b, e).1->scenario == n.scenarios[n.scenario]
            &&& n.vmms == b.vmms
            &&& n.scenarios == b.scenarios
        },
{
}

/// A run whose VM could not be started ends its VMM: the batch pauses, and after the
/// pause it moves on to the next VMM, so no further scenario runs on that VMM.
pub proof fn law_spawn_failure_ends_vmm(b: BatchView, e: BatchEventView, e2: BatchEventView)
    requires
        b.phase == BatchPhase::Running,
        e is Ran,
        spawn_failed(e->result),
    ensures
        batch_next(b, e).0.phase == BatchPhase::PausingAfterVmm,
        batch_next(b, e).0.vmm == b.vmm,
        batch_next(b, e).1 == (BatchActionView::Sleep { ms: VMM_PAUSE_MS }),
        !(batch_next(batch_next(b, e).0, e2).1 is Run),
        batch_next(batch_next(b, e).0, e2).0.vmm == b.vmm
            || batch_next(batch_next(b, e).0, e2).0.vmm == b.vmm + 1,
        batch_next(batch_next(b, e).0, e2).0.vmm == b.vmm ==>
            batch_next(batch_next(b, e).0, e2).0.phase == BatchPhase::PausingAfterVmm,
{
}

/// An interrupt seen before a VMM starts ends the batch, and an ended batch stays ended.
pub proof fn law_batch_interrupt_ends(b: BatchView, e: BatchEventView)
    ensures
        (b.phase == BatchPhase::CheckingBeforeVmm && e is Interrupt && e->flag) ==>
            batch_next(b, e) == (BatchView { phase: BatchPhase::Done, ..b }, BatchActionView::Done),
        b.phase == BatchPhase::Done ==> batch_next(b, e) == (b, BatchActionView::Idle),
{
}

/// Scenarios run in order: after a run that neither failed to start nor was
/// interrupted, and the pause that follows it, the next scenario of the same VMM runs,
/// or, after the last one, the end of the VMM begins by asking for the interrupt flag.
pub proof fn law_batch_next_scenario(b: BatchView, r: RunResultView)
    requires
        b.phase == BatchPhase::Running,
        !b.vmm_failed,
        !spawn_failed(r),
        !was_interrupted(r),
    ensures
        batch_next(b, BatchEventView::Ran { result: r }).1 == (BatchActionView::Sleep { ms: SCENARIO_PAUSE_MS }),
        ({
            let after = batch_next(batch_next(b, BatchEventView::Ran { result: r }).0, BatchEventView::Proceed);
            &&& b.scenario + 1 < b.scenarios.len() ==> after.1 == (BatchActionView::Run {
                vmm: b.vmms[b.vmm],
                scenario: b.scenarios[b.scenario + 1],
            })
            &&& b.scenario + 1 >= b.scenarios.len() ==> after.1 == BatchActionView::CheckInterrupt
                && after.0.phase == BatchPhase::CheckingAfterVmm
            &&& after.0.vmm == b.vmm
        }),
{
}

/// VMMs run in order: after the pause that ends a VMM, the next VMM starts by asking
/// for the interrupt flag (or the batch ends after the last one), and without an
/// interrupt it runs its first scenario.
pub proof fn law_batch_next_vmm(b: BatchView)
    requires
        b.phase == BatchPhase::PausingAfterVmm,
    ensures
        ({
            let n = batch_next(b, BatchEventView::Proceed);
            &&& n.0.vmm == b.vmm + 1
            &&& b.vmm + 1 >= b.vmms.len() ==> n.1 == BatchActionView::Done
            &&& b.vmm + 1 < b.vmms.len() ==> {
                &&& n.1 == BatchActionView::CheckInterrupt
                &&& (b.scenarios.len() > 0 ==> batch_next(n.0, BatchEventView::Interrupt { flag: false }).1
                    == (BatchActionView::Run { vmm: b.vmms[b.vmm + 1], scenario: b.scenarios[0] }))
            }
        }),
{
}

/// The start of a batch that runs each of `vs` with each of `ss`.
pub open spec fn batch_start(vs: Seq<Seq<char>>, ss: Seq<Seq<char>>) -> (BatchView, BatchActionView) {
    start_vmm(BatchView {
        vmms: vs,
        scenarios: ss,
        vmm: 0,
        scenario: 0,
        vmm_failed: false,
        phase: BatchPhase::CheckingBeforeVmm,
        results: Seq::empty(),
    })
}

/// The event that a host observes after action `a` when the interrupt flag reads
/// `flag` throughout and running `v` with `s` gives `res(v, s)`.
pub open spec fn env_event(a: BatchActionView, flag: bool, res: spec_fn(Seq<char>, Seq<char>) -> RunResultView) -> BatchEventView {
    match a {
        BatchActionView::CheckInterrupt => BatchEventView::Interrupt { flag },
        BatchActionView::Run { vmm, scenario } => BatchEventView::Ran { result: res(vmm, scenario) },
        _ => BatchEventView::Proceed,
    }
}

/// The batch after at most `n` steps driven by such a host; it stops once done.
pub open spec fn drive(
    b: BatchView,
    a: BatchActionView,
    flag: bool,
    res: spec_fn(Seq<char>, Seq<char>) -> RunResultView,
    n: nat,
) -> (BatchView, BatchActionView)
    decreases n,
{
    if n == 0 || a is Done {
        (b, a)
    } else {
        let next = batch_next(b, env_event(a, flag, res));
        drive(next.0, next.1, flag, res, (n - 1) as nat)
    }
}

/// A run after which its VMM runs nothing more: its VM failed to start, or it was interrupted.
pub open spec fn stops_vmm(r: RunResultView) -> bool {
    spawn_failed(r) || was_interrupted(r)
}

/// The results of VMM `v` over the scenarios `ss`, in order, up to and including
/// the first run that stops the VMM.
pub open spec fn run_row(v: Seq<char>, ss: Seq<Seq<char>>, res: spec_fn(Seq<char>, Seq<char>) -> RunResultView) -> Seq<RunResultView>
    decreases ss.len(),
{
    if ss.len() == 0 {
        Seq::empty()
    } else if stops_vmm(res(v, ss[0])) {
        seq![res(v, ss[0])]
    } else {
        seq![res(v, ss[0])] + run_row(v, ss.drop_first(), res)
    }
}

/// The results of a whole batch: VMM after VMM, each VMM's [`run_row`].
pub open spec fn batch_results(vs: Seq<Seq<char>>, ss: Seq<Seq<char>>, res: spec_fn(Seq<char>, Seq<char>) -> RunResultView) -> Seq<RunResultView>
    decreases vs.len(),
{
    if vs.len() == 0 {
        Seq::empty()
    } else {
        batch_results(vs.drop_last(), ss, res) + run_row(vs.last(), ss, res)
    }
}

/// The results of `v` over the first `j` scenarios.
pub open spec fn row_prefix(v: Seq<char>, ss: Seq<Seq<char>>, res: spec_fn(Seq<char>, Seq<char>) -> RunResultView, j: int) -> Seq<RunResultView> {
    Seq::new(j as nat, |k: int| res(v, ss[k]))
}

/// None of the first `j` runs of `v` stops it.
pub open spec fn no_stop_before(v: Seq<char>, ss: Seq<Seq<char>>, res: spec_fn(Seq<char>, Seq<char>) -> RunResultView, j: int) -> bool {
    forall|k: int| 0 <= k < j ==> !stops_vmm(#[trigger] res(v, ss[k]))
}

/// The steps a batch of `nv` VMMs and `ns` scenarios takes when nothing interrupts it.
pub open spec fn batch_steps(nv: nat, ns: nat) -> nat {
    nv * (2 * ns + 4)
}

/// An upper bound on the steps that a batch still takes without interrupts.
pub open spec fn steps_left(b: BatchView) -> int {
    let c = 2 * b.scenarios.len() + 4;
    let rest = (b.vmms.len() - b.vmm - 1) * c;
    match b.phase {
        BatchPhase::CheckingBeforeVmm => (b.vmms.len() - b.vmm) * c,
        BatchPhase::Running => rest + 2 * (b.scenarios.len() - b.scenario) + 3,
        BatchPhase::PausingAfterScenario => rest + 2 * (b.scenarios.len() - b.scenario) + 2,
        BatchPhase::CheckingAfterVmm => rest + 3,
        BatchPhase::Announcing => rest + 2,
        BatchPhase::PausingAfterVmm => rest + 1,
        BatchPhase::Done => 0,
    }
}

/// Where a batch that is never interrupted stands, with the results it has gathered.
pub open spec fn on_course(b: BatchView, a: BatchActionView, res: spec_fn(Seq<char>, Seq<char>) -> RunResultView) -> bool {
    let vs = b.vmms;
    let ss = b.scenarios;
    let i = b.vmm;
    let j = b.scenario;
    &&& 0 <= i <= vs.len()
    &&& b.phase != BatchPhase::Done ==> i < vs.len()
    &&& match b.phase {
        BatchPhase::CheckingBeforeVmm => a is CheckInterrupt && b.results == batch_results(vs.take(i), ss, res),
        BatchPhase::Running => {
            &&& !b.vmm_failed
            &&& 0 <= j < ss.len()
            &&& a == (BatchActionView::Run { vmm: vs[i], scenario: ss[j] })
            &&& no_stop_before(vs[i], ss, res, j)
            &&& b.results == batch_results(vs.take(i), ss, res) + row_prefix(vs[i], ss, res, j)
        },
        BatchPhase::PausingAfterScenario => {
            &&& !b.vmm_failed
            &&& 0 <= j < ss.len()
            &&& a == (BatchActionView::Sleep { ms: SCENARIO_PAUSE_MS })
            &&& no_stop_before(vs[i], ss, res, j + 1)
            &&& b.results == batch_results(vs.take(i), ss, res) + row_prefix(vs[i], ss, res, j + 1)
        },
        BatchPhase::CheckingAfterVmm => a is CheckInterrupt && b.results == batch_results(vs.take(i + 1), ss, res),
        BatchPhase::Announcing => a == (BatchActionView::Print { lines: finished_lines(vs[i]) })
            && b.results == batch_results(vs.take(i + 1), ss, res),
        BatchPhase::PausingAfterVmm => a == (BatchActionView::Sleep { ms: VMM_PAUSE_MS })
            && b.results == batch_results(vs.take(i + 1), ss, res),
        BatchPhase::Done => a is Done && i == vs.len() && b.results == batch_results(vs, ss, res),
    }
}

/// A row splits after runs that do not stop the VMM.
proof fn lemma_row_split(v: Seq<char>, ss: Seq<Seq<char>>, res: spec_fn(Seq<char>, Seq<char>) -> RunResultView, j: int)
    requires
        0 <= j <= ss.len(),
        no_stop_before(v, ss, res, j),
    ensures
        run_row(v, ss, res) == row_prefix(v, ss, res, j) + run_row(v, ss.skip(j), res),
    decreases j,
{
    if j == 0 {
        assert(ss.skip(0) =~= ss);
        assert(row_prefix(v, ss, res, 0) =~= Seq::<RunResultView>::empty());
    } else {
        lemma_row_split(v, ss, res, j - 1);
        let t = ss.skip(j - 1);
        assert(t[0] == ss[j - 1]);
        assert(!stops_vmm(res(v, ss[j - 1])));
        assert(t.drop_first() =~= ss.skip(j));
        assert(run_row(v, t, res) == seq![res(v, ss[j - 1])] + run_row(v, ss.skip(j), res));
        assert(row_prefix(v, ss, res, j) =~= row_prefix(v, ss, res, j - 1).push(res(v, ss[j - 1])));
    }
}

/// The results of the first `i + 1` VMMs are those of the first `i` and then VMM `i`'s row.
proof fn lemma_results_take(vs: Seq<Seq<char>>, ss: Seq<Seq<char>>, res: spec_fn(Seq<char>, Seq<char>) -> RunResultView, i: int)
    requires
        0 <= i < vs.len(),
    ensures
        batch_results(vs.take(i + 1), ss, res) == batch_results(vs.take(i), ss, res) + run_row(vs[i], ss, res),
{
    assert(vs.take(i + 1).drop_last() =~= vs.take(i));
    assert(vs.take(i + 1).last() == vs[i]);
}

proof fn lemma_mul_step(x: int, c: int)
    requires
        x >= 1,
        c >= 0,
    ensures
        x * c == (x - 1) * c + c,
        (x - 1) * c >= 0,
{
    assert(x * c == (x - 1) * c + c) by (nonlinear_arith);
    assert((x - 1) * c >= 0) by (nonlinear_arith)
        requires
            x >= 1,
            c >= 0,
    ;
}

/// One step of a batch that is never interrupted keeps it on course and brings it closer to its end.
proof fn lemma_course_step(b: BatchView, a: BatchActionView, res: spec_fn(Seq<char>, Seq<char>) -> RunResultView)
    requires
        on_course(b, a, res),
        !(a is Done),
    ensures
        on_course(batch_next(b, env_event(a, false, res)).0, batch_next(b, env_event(a, false, res)).1, res),
        0 <= steps_left(batch_next(b, env_event(a, false, res)).0) < steps_left(b),
        batch_next(b, env_event(a, false, res)).0.vmms == b.vmms,
        batch_next(b, env_event(a, false, res)).0.scenarios == b.scenarios,
{
    let vs = b.vmms;
    let ss = b.scenarios;
    let i = b.vmm;
    let j = b.scenario;
    let c: int = (2 * ss.len() + 4) as int;
    let e = env_event(a, false, res);
    let n = batch_next(b, e);
    lemma_mul_step(vs.len() - i, c);
    match b.phase {
        BatchPhase::CheckingBeforeVmm => {
            assert(row_prefix(vs[i], ss, res, 0) =~= Seq::<RunResultView>::empty());
            if ss.len() == 0 {
                lemma_results_take(vs, ss, res, i);
                assert(run_row(vs[i], ss, res) =~= Seq::<RunResultView>::empty());
            }
        },
        BatchPhase::Running => {
            let r = res(vs[i], ss[j]);
            assert(e == (BatchEventView::Ran { result: r }));
            assert(row_prefix(vs[i], ss, res, j + 1) =~= row_prefix(vs[i], ss, res, j).push(r));
            if stops_vmm(r) {
                lemma_row_split(vs[i], ss, res, j);
                assert(ss.skip(j)[0] == ss[j]);
                assert(run_row(vs[i], ss.skip(j), res) == seq![r]);
                lemma_results_take(vs, ss, res, i);
                assert(n.0.results =~= batch_results(vs.take(i + 1), ss, res));
            } else {
                assert forall|k: int| 0 <= k < j + 1 implies !stops_vmm(#[trigger] res(vs[i], ss[k])) by {
                    if k < j {
                        assert(no_stop_before(vs[i], ss, res, j));
                    }
                }
            }
        },
        BatchPhase::PausingAfterScenario => {
            if j + 1 >= ss.len() {
                lemma_row_split(vs[i], ss, res, j + 1);
                assert(ss.skip(j + 1).len() == 0);
                assert(run_row(vs[i], ss.skip(j + 1), res) == Seq::<RunResultView>::empty());
                lemma_results_take(vs, ss, res, i);
                assert(row_prefix(vs[i], ss, res, j + 1) + Seq::<RunResultView>::empty() =~= row_prefix(vs[i], ss, res, j + 1));
            }
        },
        BatchPhase::CheckingAfterVmm => {},
        BatchPhase::Announcing => {},
        BatchPhase::PausingAfterVmm => {
            if i + 1 < vs.len() {
                lemma_mul_step(vs.len() - i - 1, c);
            } else {
                assert(vs.take(i + 1) =~= vs);
                assert(0 * c == 0) by (nonlinear_arith);
            }
        },
        BatchPhase::Done => {},
    }
}

proof fn lemma_course_drive(b: BatchView, a: BatchActionView, res: spec_fn(Seq<char>, Seq<char>) -> RunResultView, n: nat)
    requires
        on_course(b, a, res),
        n >= steps_left(b),
    ensures
        drive(b, a, false, res, n).1 is Done,
        drive(b, a, false, res, n).0.results == batch_results(b.vmms, b.scenarios, res),
    decreases steps_left(b),
{
    if !(a is Done) {
        let c: int = (2 * b.scenarios.len() + 4) as int;
        lemma_mul_step(b.vmms.len() - b.vmm, c);
        assert(steps_left(b) > 0);
        lemma_course_step(b, a, res);
        let next = batch_next(b, env_event(a, false, res));
        lemma_course_drive(next.0, next.1, res, (n - 1) as nat);
    }
}

/// The results of a batch without stops are every pair, VMM-major.
proof fn lemma_results_full(vs: Seq<Seq<char>>, ss: Seq<Seq<char>>, res: spec_fn(Seq<char>, Seq<char>) -> RunResultView, i: int, j: int)
    requires
        forall|v: Seq<char>, s: Seq<char>| !stops_vmm(#[trigger] res(v, s)),
    ensures
        batch_results(vs, ss, res).len() == vs.len() * ss.len(),
        0 <= i < vs.len() && 0 <= j < ss.len() ==> batch_results(vs, ss, res)[i * ss.len() + j] == res(vs[i], ss[j]),
    decreases vs.len(),
{
    if vs.len() > 0 {
        let m = vs.len() - 1;
        let p = vs.drop_last();
        let ns = ss.len() as int;
        lemma_row_split(vs.last(), ss, res, ns);
        assert(ss.skip(ns).len() == 0);
        let row = run_row(vs.last(), ss, res);
        assert(row =~= row_prefix(vs.last(), ss, res, ns));
        assert(m * ns + ns == vs.len() * ns) by (nonlinear_arith)
            requires
                m == vs.len() - 1,
        ;
        if 0 <= i < vs.len() && 0 <= j < ss.len() {
            if i < m {
                lemma_results_full(p, ss, res, i, j);
                assert(i * ns + j < m * ns) by (nonlinear_arith)
                    requires
                        0 <= i < m,
                        0 <= j < ns,
                ;
                assert(p[i] == vs[i]);
            } else {
                lemma_results_full(p, ss, res, 0, 0);
                assert(i * ns + j - m * ns == j) by (nonlinear_arith)
                    requires
                        i == m,
                ;
            }
        } else {
            lemma_results_full(p, ss, res, 0, 0);
        }
    }
}

/// A whole batch on a host that is never interrupted: it ends, and its results are,
/// VMM after VMM in the order given, the runs of that VMM over the scenarios in the
/// order given, up to and including the first run whose VM failed to start or that
/// was interrupted; after such a run its VMM runs nothing more and the next VMM
/// starts. When no run fails so, the results are every pair, VMM-major: the run of
/// `vs[i]` with `ss[j]` is result `i * ss.len() + j`, of `vs.len() * ss.len()`.
pub proof fn law_batch_whole_run(vs: Seq<Seq<char>>, ss: Seq<Seq<char>>, res: spec_fn(Seq<char>, Seq<char>) -> RunResultView)
    ensures
        ({
            let start = batch_start(vs, ss);
            let end = drive(start.0, start.1, false, res, batch_steps(vs.len(), ss.len()));
            &&& end.1 is Done
            &&& end.0.results == batch_results(vs, ss, res)
        }),
        (forall|v: Seq<char>, s: Seq<char>| !stops_vmm(#[trigger] res(v, s))) ==> {
            &&& batch_results(vs, ss, res).len() == vs.len() * ss.len()
            &&& forall|i: int, j: int| 0 <= i < vs.len() && 0 <= j < ss.len() ==>
                #[trigger] batch_results(vs, ss, res)[i * ss.len() + j] == res(vs[i], ss[j])
        },
{
    let start = batch_start(vs, ss);
    assert(vs.take(0) =~= Seq::<Seq<char>>::empty());
    if vs.len() == 0 {
        assert(batch_results(vs, ss, res) =~= Seq::<RunResultView>::empty());
    }
    assert(on_course(start.0, start.1, res));
    lemma_course_drive(start.0, start.1, res, batch_steps(vs.len(), ss.len()));
    if forall|v: Seq<char>, s: Seq<char>| !stops_vmm(#[trigger] res(v, s)) {
        lemma_results_full(vs, ss, res, 0, 0);
        assert forall|i: int, j: int| 0 <= i < vs.len() && 0 <= j < ss.len() implies
            #[trigger] batch_results(vs, ss, res)[i * ss.len() + j] == res(vs[i], ss[j]) by {
            lemma_results_full(vs, ss, res, i, j);
        }
    }
}

/// An interrupted run ends the batch when the interrupt flag stays set: within a few
/// steps the batch is done, and its last result is the interrupted run.
pub proof fn law_batch_interrupted_run_ends_batch(b: BatchView, r: RunResultView, res: spec_fn(Seq<char>, Seq<char>) -> RunResultView)
    requires
        b.phase == BatchPhase::Running,
        0 <= b.vmm < b.vmms.len(),
        was_interrupted(r),
    ensures
        ({
            let n = batch_next(b, BatchEventView::Ran { result: r });
            let end = drive(n.0, n.1, true, res, 5);
            &&& end.1 is Done
            &&& end.0.results == b.results.push(r)
        }),
{
    let n = batch_next(b, BatchEventView::Ran { result: r });
    assert(n.0.results == b.results.push(r));
    reveal_with_fuel(drive, 6);
}

} // verus!
