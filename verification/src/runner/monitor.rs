//! Watching a running VM until its benchmark completes, times out, stops or is interrupted.
use vstd::prelude::*;
use crate::metrics::types::{Metric, MetricBatch, MetricBatchView, MetricView, RunStatus, RunStatusView, clone_metrics, metrics_view};
use crate::runner::scenario::{RunResult, RunResultView, SEPARATOR_DASH};
use crate::text::{concat3, decimal_text, join, join_seqs, push_char, seq_contains, seq_starts_with, str_contains, str_starts_with, u64_text, views};

verus! {

/// The guest prints this when its benchmark has finished.
pub const COMPLETION_MARKER: &'static str = "LINGBENCH_RESULT_END";
/// Progress is printed this often while a VM runs.
pub const PROGRESS_INTERVAL_MS: u64 = 5000;
/// How long to wait for the serial log after the VM process ends.
pub const FLUSH_WAIT_MS: u64 = 5000;
/// The pause between two polls.
pub const POLL_SLEEP_MS: u64 = 1;

/// Application scenarios get five minutes, the others two.
pub open spec fn spec_timeout_secs(scenario: Seq<char>) -> u64 {
    if seq_starts_with(scenario, "app-"@) { 300 } else { 120 }
}

/// Whether a serial output shows that the benchmark finished.
pub open spec fn shows_completion(serial: Option<Seq<char>>) -> bool {
    match serial {
        Some(s) => seq_contains(s, COMPLETION_MARKER@),
        None => false,
    }
}

/// Where watching a VM stands.
#[derive(Debug, Clone, Copy, PartialEq, Eq, Structural)]
pub enum WatchPhase {
    /// Next comes a poll of the interrupt flag, the clock and the serial output.
    Polling,
    /// Next comes whether the VM process still runs.
    AwaitingLiveness,
    /// The process ended without the marker; next comes the serial output after a pause.
    AwaitingFlush,
    /// Watching is over.
    Stopped,
}

/// What the host observed.
#[derive(Debug)]
pub enum WatchEvent {
    /// A poll: the interrupt flag, the milliseconds since watching began, the serial output.
    Tick { interrupted: bool, elapsed_ms: u64, serial: Option<String> },
    /// Whether the VM process runs, and the serial output read after it stopped.
    Liveness { running: bool, serial: Option<String> },
    /// The serial output after the pause.
    Flushed { serial: Option<String> },
}

pub enum WatchEventView {
    Tick { interrupted: bool, elapsed_ms: u64, serial: Option<Seq<char>> },
    Liveness { running: bool, serial: Option<Seq<char>> },
    Flushed { serial: Option<Seq<char>> },
}

pub open spec fn opt_view(o: Option<String>) -> Option<Seq<char>> {
    match o {
        Some(s) => Some(s@),
        None => None,
    }
}

impl View for WatchEvent {
    type V = WatchEventView;

    open spec fn view(&self) -> WatchEventView {
        match self {
            WatchEvent::Tick { interrupted, elapsed_ms, serial } =>
                WatchEventView::Tick { interrupted: *interrupted, elapsed_ms: *elapsed_ms, serial: opt_view(*serial) },
            WatchEvent::Liveness { running, serial } =>
                WatchEventView::Liveness { running: *running, serial: opt_view(*serial) },
            WatchEvent::Flushed { serial } => WatchEventView::Flushed { serial: opt_view(*serial) },
        }
    }
}

/// What the host does next.
#[derive(Debug)]
pub enum WatchAction {
    /// Print that the run is being interrupted, kill the VM, and end the run as interrupted.
    Interrupt,
    /// Find out whether the VM process still runs.
    CheckRunning,
    /// Pause, then read the serial output once more.
    WaitForFlush { ms: u64 },
    /// Print the progress line if there is one, pause, and poll again.
    Continue { progress: Option<String>, sleep_ms: u64 },
    /// Watching is over: collect the results.
    Finish,
    /// The event was not expected: nothing to do.
    Idle,
}

pub enum WatchActionView {
    Interrupt,
    CheckRunning,
    WaitForFlush { ms: u64 },
    Continue { progress: Option<Seq<char>>, sleep_ms: u64 },
    Finish,
    Idle,
}

impl View for WatchAction {
    type V = WatchActionView;

    open spec fn view(&self) -> WatchActionView {
        match self {
            WatchAction::Interrupt => WatchActionView::Interrupt,
            WatchAction::CheckRunning => WatchActionView::CheckRunning,
            WatchAction::WaitForFlush { ms } => WatchActionView::WaitForFlush { ms: *ms },
            WatchAction::Continue { progress, sleep_ms } =>
                WatchActionView::Continue { progress: opt_view(*progress), sleep_ms: *sleep_ms },
            WatchAction::Finish => WatchActionView::Finish,
            WatchAction::Idle => WatchActionView::Idle,
        }
    }
}

/// The state of watching a VM.
pub struct MonitorView {
    pub vmm: Seq<char>,
    pub scenario: Seq<char>,
    pub timeout_secs: u64,
    pub phase: WatchPhase,
    pub completed: bool,
    pub timed_out: bool,
    pub interrupted: bool,
    /// Milliseconds since watching began, at the last poll.
    pub tick_ms: u64,
    /// Milliseconds since watching began, when progress was last printed.
    pub last_progress_ms: u64,
}

/// The progress line: `{vmm} | {scenario} | running ({secs}s)`.
pub open spec fn progress_line(vmm: Seq<char>, scenario: Seq<char>, elapsed_ms: u64) -> Seq<char> {
    vmm + " | "@ + scenario + " | running ("@ + decimal_text((elapsed_ms / 1000) as nat) + "s)"@
}

/// How watching proceeds after the event `e`.
pub open spec fn watch_next(m: MonitorView, e: WatchEventView) -> (MonitorView, WatchActionView) {
    match (m.phase, e) {
        (WatchPhase::Polling, WatchEventView::Tick { interrupted, elapsed_ms, serial }) => {
            if interrupted {
                (MonitorView { phase: WatchPhase::Stopped, interrupted: true, tick_ms: elapsed_ms, ..m }, WatchActionView::Interrupt)
            } else if elapsed_ms / 1000 >= m.timeout_secs {
                (MonitorView { phase: WatchPhase::Stopped, timed_out: true, tick_ms: elapsed_ms, ..m }, WatchActionView::Finish)
            } else if shows_completion(serial) {
                (MonitorView { phase: WatchPhase::Stopped, completed: true, tick_ms: elapsed_ms, ..m }, WatchActionView::Finish)
            } else {
                (MonitorView { phase: WatchPhase::AwaitingLiveness, tick_ms: elapsed_ms, ..m }, WatchActionView::CheckRunning)
            }
        },
        (WatchPhase::AwaitingLiveness, WatchEventView::Liveness { running, serial }) => {
            if running {
                if m.tick_ms >= m.last_progress_ms && m.tick_ms - m.last_progress_ms >= PROGRESS_INTERVAL_MS {
                    (
                        MonitorView { phase: WatchPhase::Polling, last_progress_ms: m.tick_ms, ..m },
                        WatchActionView::Continue {
                            progress: Some(progress_line(m.vmm, m.scenario, m.tick_ms)),
                            sleep_ms: POLL_SLEEP_MS,
                        },
                    )
                } else {
                    (MonitorView { phase: WatchPhase::Polling, ..m }, WatchActionView::Continue { progress: None, sleep_ms: POLL_SLEEP_MS })
                }
            } else if shows_completion(serial) {
                (MonitorView { phase: WatchPhase::Stopped, completed: true, ..m }, WatchActionView::Finish)
            } else {
                (MonitorView { phase: WatchPhase::AwaitingFlush, ..m }, WatchActionView::WaitForFlush { ms: FLUSH_WAIT_MS })
            }
        },
        (WatchPhase::AwaitingFlush, WatchEventView::Flushed { serial }) => {
            if shows_completion(serial) {
                (MonitorView { phase: WatchPhase::Stopped, completed: true, ..m }, WatchActionView::Finish)
            } else {
                (MonitorView { phase: WatchPhase::Stopped, ..m }, WatchActionView::Finish)
            }
        },
        _ => (m, WatchActionView::Idle),
    }
}

/// Watching a VM that runs one scenario.
pub struct RunMonitor {
    vmm: String,
    scenario: String,
    timeout_secs: u64,
    phase: WatchPhase,
    completed: bool,
    timed_out: bool,
    interrupted: bool,
    tick_ms: u64,
    last_progress_ms: u64,
}

/// The error a finished run reports: none when it completed.
pub open spec fn spec_run_error(m: MonitorView) -> Option<Seq<char>> {
    if m.timed_out {
        Some("Timeout"@)
    } else if !m.completed {
        Some("Process exited"@)
    } else {
        None
    }
}

/// The status stored with the metrics of a finished run.
pub open spec fn spec_run_status(m: MonitorView, duration_ms: u64) -> RunStatusView {
    if m.completed {
        RunStatusView::Completed { duration_ms }
    } else if m.timed_out {
        RunStatusView::Error { message: "Timeout"@ }
    } else {
        RunStatusView::Error { message: "Process exited"@ }
    }
}

/// The metrics of a run as `name=value` texts, with the values as formatted.
pub open spec fn metric_texts(metrics: Seq<MetricView>, formatted: Seq<Seq<char>>) -> Seq<Seq<char>> {
    Seq::new(metrics.len(), |i: int| metrics[i].name + seq!['='] + formatted[i])
}

/// The line that reports how a run ended.
pub open spec fn spec_summary_line(m: MonitorView, duration_ms: u64, texts: Seq<Seq<char>>) -> Seq<char> {
    let head = m.vmm + " | "@ + m.scenario;
    if m.completed {
        if texts.len() == 0 {
            head + " | ✓ | "@ + decimal_text(duration_ms as nat) + "ms"@
        } else {
            head + " | ✓ | "@ + decimal_text(duration_ms as nat) + "ms | "@ + join_seqs(texts, ", "@)
        }
    } else if m.timed_out {
        head + " | ✗ | Timeout"@
    } else {
        head + " | ✗ | Process exited"@
    }
}

impl RunMonitor {
    pub closed spec fn view(&self) -> MonitorView {
        MonitorView {
            vmm: self.vmm@,
            scenario: self.scenario@,
            timeout_secs: self.timeout_secs,
            phase: self.phase,
            completed: self.completed,
            timed_out: self.timed_out,
            interrupted: self.interrupted,
            tick_ms: self.tick_ms,
            last_progress_ms: self.last_progress_ms,
        }
    }

    /// Starts watching the VM of `vmm` running `scenario`.
    pub fn new(vmm: &str, scenario: &str) -> (r: Self)
        ensures
            r.view() == (MonitorView {
                vmm: vmm@,
                scenario: scenario@,
                timeout_secs: spec_timeout_secs(scenario@),
                phase: WatchPhase::Polling,
                completed: false,
                timed_out: false,
                interrupted: false,
                tick_ms: 0,
                last_progress_ms: 0,
            }),
    {
        let timeout_secs = if str_starts_with(scenario, "app-") { 300 } else { 120 };
        RunMonitor {
            vmm: vmm.to_owned(),
            scenario: scenario.to_owned(),
            timeout_secs,
            phase: WatchPhase::Polling,
            completed: false,
            timed_out: false,
            interrupted: false,
            tick_ms: 0,
            last_progress_ms: 0,
        }
    }

    /// The line printed when watching begins: `{vmm} | {scenario} | running`.
    pub fn start_line(&self) -> (r: String)
        ensures
            r@ == self.view().vmm + " | "@ + self.view().scenario + " | running"@,
    {
        let mut r = concat3(self.vmm.as_str(), " | ", self.scenario.as_str());
        r.append(" | running");
        r
    }

    pub fn phase(&self) -> (r: WatchPhase)
        ensures
            r == self.view().phase,
    {
        self.phase
    }

    pub fn completed(&self) -> (r: bool)
        ensures
            r == self.view().completed,
    {
        self.completed
    }

    pub fn timed_out(&self) -> (r: bool)
        ensures
            r == self.view().timed_out,
    {
        self.timed_out
    }

    fn serial_shows_completion(serial: &Option<String>) -> (r: bool)
        ensures
            r == shows_completion(opt_view(*serial)),
    {
        match serial {
            Some(s) => str_contains(s.as_str(), COMPLETION_MARKER),
            None => false,
        }
    }

    fn make_progress_line(&self) -> (r: String)
        ensures
            r@ == progress_line(self.vmm@, self.scenario@, self.tick_ms),
    {
        let mut r = concat3(self.vmm.as_str(), " | ", self.scenario.as_str());
        r.append(" | running (");
        r.append(u64_text(self.tick_ms / 1000).as_str());
        r.append("s)");
        r
    }

    /// Advances watching by the event `e` and says what to do next.
    pub fn step(&mut self, e: WatchEvent) -> (r: WatchAction)
        ensures
            (final(self).view(), r@) == watch_next(old(self).view(), e@),
    {
        match (self.phase, e) {
            (WatchPhase::Polling, WatchEvent::Tick { interrupted, elapsed_ms, serial }) => {
                self.tick_ms = elapsed_ms;
                if interrupted {
                    self.phase = WatchPhase::Stopped;
                    self.interrupted = true;
                    WatchAction::Interrupt
                } else if elapsed_ms / 1000 >= self.timeout_secs {
                    self.phase = WatchPhase::Stopped;
                    self.timed_out = true;
                    WatchAction::Finish
                } else if Self::serial_shows_completion(&serial) {
                    self.phase = WatchPhase::Stopped;
                    self.completed = true;
                    WatchAction::Finish
                } else {
                    self.phase = WatchPhase::AwaitingLiveness;
                    WatchAction::CheckRunning
                }
            },
            (WatchPhase::AwaitingLiveness, WatchEvent::Liveness { running, serial }) => {
                if running {
                    self.phase = WatchPhase::Polling;
                    if self.tick_ms >= self.last_progress_ms && self.tick_ms - self.last_progress_ms >= PROGRESS_INTERVAL_MS {
                        let line = self.make_progress_line();
                        self.last_progress_ms = self.tick_ms;
                        WatchAction::Continue { progress: Some(line), sleep_ms: POLL_SLEEP_MS }
                    } else {
                        WatchAction::Continue { progress: None, sleep_ms: POLL_SLEEP_MS }
                    }
                } else if Self::serial_shows_completion(&serial) {
                    self.phase = WatchPhase::Stopped;
                    self.completed = true;
                    WatchAction::Finish
                } else {
                    self.phase = WatchPhase::AwaitingFlush;
                    WatchAction::WaitForFlush { ms: FLUSH_WAIT_MS }
                }
            },
            (WatchPhase::AwaitingFlush, WatchEvent::Flushed { serial }) => {
                self.phase = WatchPhase::Stopped;
                if Self::serial_shows_completion(&serial) {
                    self.completed = true;
                }
                WatchAction::Finish
            },
            _ => WatchAction::Idle,
        }
    }

    /// The result of the finished run.
    pub fn result(&self, duration_ms: u64, metrics: Vec<Metric>) -> (r: RunResult)
        ensures
            r@ == (RunResultView {
                vmm: self.view().vmm,
                scenario: self.view().scenario,
                success: self.view().completed,
                error: spec_run_error(self.view()),
                duration_ms: Some(duration_ms),
                metrics: metrics_view(metrics@),
            }),
    {
        let error = if self.timed_out {
            Some("Timeout".to_owned())
        } else if !self.completed {
            Some("Process exited".to_owned())
        } else {
            None
        };
        RunResult {
            vmm: self.vmm.clone(),
            scenario: self.scenario.clone(),
            success: self.completed,
            error,
            duration_ms: Some(duration_ms),
            metrics,
        }
    }

    /// The batch that stores the metrics of the finished run.
    pub fn batch(&self, duration_ms: u64, metrics: &Vec<Metric>) -> (r: MetricBatch)
        ensures
            r@ == (MetricBatchView {
                batch_id: 1,
                scenario: self.view().scenario,
                vmm: self.view().vmm,
                metrics: metrics_view(metrics@),
                status: spec_run_status(self.view(), duration_ms),
            }),
    {
        let status = if self.completed {
            RunStatus::Completed { duration_ms }
        } else {
            RunStatus::Error {
                message: if self.timed_out { "Timeout".to_owned() } else { "Process exited".to_owned() },
            }
        };
        MetricBatch {
            batch_id: 1,
            scenario: self.scenario.clone(),
            vmm: self.vmm.clone(),
            metrics: clone_metrics(metrics),
            status,
        }
    }

    /// The lines printed when the run is over: how it ended, then a separator.
    /// `formatted[i]` is the value of `metrics[i]` as printed.
    pub fn summary_lines(&self, duration_ms: u64, metrics: &Vec<Metric>, formatted: &Vec<String>) -> (r: Vec<String>)
        requires
            formatted.len() == metrics.len(),
        ensures
            views(r@) == seq![
                spec_summary_line(self.view(), duration_ms, metric_texts(metrics_view(metrics@), views(formatted@))),
                SEPARATOR_DASH@,
            ],
    {
        let ghost texts_spec = metric_texts(metrics_view(metrics@), views(formatted@));
        let mut texts: Vec<String> = Vec::new();
        let n = metrics.len();
        let mut i: usize = 0;
        while i < n
            invariant
                n == metrics.len() == formatted.len(),
                i <= n,
                texts.len() == i,
                texts_spec == metric_texts(metrics_view(metrics@), views(formatted@)),
                forall|j: int| 0 <= j < i ==> texts@[j]@ == texts_spec[j],
            decreases n - i,
        {
            let mut t = metrics[i].name.clone();
            push_char(&mut t, '=');
            t.append(formatted[i].as_str());
            proof {
                assert(metrics_view(metrics@)[i as int] == metrics@[i as int]@);
                assert(views(formatted@)[i as int] == formatted@[i as int]@);
            }
            texts.push(t);
            i = i + 1;
        }
        assert(views(texts@) =~= texts_spec);
        let mut line = concat3(self.vmm.as_str(), " | ", self.scenario.as_str());
        if self.completed {
            line.append(" | ✓ | ");
            line.append(u64_text(duration_ms).as_str());
            if texts.len() == 0 {
                line.append("ms");
            } else {
                line.append("ms | ");
                line.append(join(&texts, ", ").as_str());
            }
        } else if self.timed_out {
            line.append(" | ✗ | Timeout");
        } else {
            line.append(" | ✗ | Process exited");
        }
        let mut r: Vec<String> = Vec::new();
        r.push(line);
        r.push(SEPARATOR_DASH.to_owned());
        assert(views(r@) =~= seq![
            spec_summary_line(self.view(), duration_ms, texts_spec),
            SEPARATOR_DASH@,
        ]);
        r
    }
}


/// The serial output that an event carries.
pub open spec fn event_serial(e: WatchEventView) -> Option<Seq<char>> {
    match e {
        WatchEventView::Tick { serial, .. } => serial,
        WatchEventView::Liveness { serial, .. } => serial,
        WatchEventView::Flushed { serial } => serial,
    }
}

/// A run ends in at most one way, and once it has ended watching is over.
pub open spec fn outcome_consistent(m: MonitorView) -> bool {
    &&& !(m.completed && m.timed_out)
    &&& !(m.completed && m.interrupted)
    &&& !(m.timed_out && m.interrupted)
    &&& (m.completed || m.timed_out || m.interrupted) ==> m.phase == WatchPhase::Stopped
}

/// Every step keeps a run ending in at most one way (completed, timed out or
/// interrupted), and keeps watching over once the run has ended.
pub proof fn law_watch_outcome_consistent(m: MonitorView, e: WatchEventView)
    requires
        outcome_consistent(m),
    ensures
        outcome_consistent(watch_next(m, e).0),
{
}

/// Once watching is over, no event changes anything or asks for anything.
pub proof fn law_watch_stopped_is_final(m: MonitorView, e: WatchEventView)
    requires
        m.phase == WatchPhase::Stopped,
    ensures
        watch_next(m, e) == (m, WatchActionView::Idle),
{
}

/// A run is marked completed only by an event whose serial output holds the
/// completion marker.
pub proof fn law_completion_needs_marker(m: MonitorView, e: WatchEventView)
    requires
        !m.completed,
        watch_next(m, e).0.completed,
    ensures
        shows_completion(event_serial(e)),
{
}

/// A run times out only on a poll without an interrupt at which its timeout, in
/// whole seconds, has passed.
pub proof fn law_timeout_needs_elapsed_time(m: MonitorView, e: WatchEventView)
    requires
        !m.timed_out,
        watch_next(m, e).0.timed_out,
    ensures
        e is Tick,
        !e->interrupted,
        e->elapsed_ms / 1000 >= m.timeout_secs,
{
}

/// An interrupt seen at a poll ends the run as interrupted at once, whatever the
/// clock and the serial output say.
pub proof fn law_interrupt_wins(m: MonitorView, e: WatchEventView)
    requires
        m.phase == WatchPhase::Polling,
        e is Tick,
        e->interrupted,
    ensures
        watch_next(m, e).1 == WatchActionView::Interrupt,
        watch_next(m, e).0.interrupted,
        watch_next(m, e).0.phase == WatchPhase::Stopped,
        watch_next(m, e).0.completed == m.completed,
        watch_next(m, e).0.timed_out == m.timed_out,
{
}

/// Progress is printed at most once per interval: a step prints a progress line only
/// when at least five seconds passed since the last one, and the line gives the
/// whole seconds elapsed at the last poll.
pub proof fn law_progress_interval(m: MonitorView, e: WatchEventView)
    ensures
        watch_next(m, e).1 matches WatchActionView::Continue { progress: Some(line), .. } ==> {
            &&& m.tick_ms >= m.last_progress_ms + PROGRESS_INTERVAL_MS
            &&& line == progress_line(m.vmm, m.scenario, m.tick_ms)
            &&& watch_next(m, e).0.last_progress_ms == m.tick_ms
        },
{
}

} // verus!
