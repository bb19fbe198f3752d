//! What every VMM runner offers, and the plans by which a VM is started.
use vstd::prelude::*;
use crate::paths::file_name_of;
use crate::text::seq_contains;

verus! {

/// VMM startup configuration.
#[derive(Debug)]
pub struct VmConfig {
    pub kernel: String,
    pub rootfs: String,
    pub scenario: String,
    pub socket_path: Option<String>,
}

pub struct VmConfigView {
    pub kernel: Seq<char>,
    pub rootfs: Seq<char>,
    pub scenario: Seq<char>,
    pub socket_path: Option<Seq<char>>,
}

impl View for VmConfig {
    type V = VmConfigView;

    open spec fn view(&self) -> VmConfigView {
        VmConfigView {
            kernel: self.kernel@,
            rootfs: self.rootfs@,
            scenario: self.scenario@,
            socket_path: match self.socket_path {
                Some(s) => Some(s@),
                None => None,
            },
        }
    }
}

/// What checking a binary before use found out.
#[derive(Debug)]
pub enum ProbeOutcome {
    /// The check passed (`--version` succeeded, or the file exists).
    Passed,
    /// The check ran and failed.
    Failed,
    /// The check could not be run; the error's text.
    Unavailable(String),
}

/// How a VMM kind checks a binary before using it.
#[derive(Debug, Clone, Copy, PartialEq, Eq, Structural)]
pub enum DetectCheck {
    /// Run the binary with `--version` and require success.
    VersionCommand,
    /// Require that the binary exists.
    BinaryExists,
}

/// The outcome of detection: the runner on a passed check, otherwise the error text.
pub open spec fn detect_result(outcome: ProbeOutcome, invalid: Seq<char>) -> Result<(), Seq<char>> {
    match outcome {
        ProbeOutcome::Passed => Ok(()),
        ProbeOutcome::Failed => Err(invalid),
        ProbeOutcome::Unavailable(e) => Err(e@),
    }
}

/// How to start a VMM process and where its output goes.
#[derive(Debug)]
pub struct LaunchPlan {
    /// The binary to run.
    pub program: String,
    /// Its arguments.
    pub args: Vec<String>,
    /// The control socket of the VM.
    pub socket: String,
    /// The file that receives the guest's serial output.
    pub serial_log: String,
    /// Stdout and stderr of the process go to `serial_log`, created or truncated first;
    /// otherwise they are discarded.
    pub capture_output: bool,
    /// The process is started in a process group of its own.
    pub own_process_group: bool,
    /// Stale `socket` and `serial_log` files are removed before the start.
    pub clear_stale: bool,
    /// The VM is configured and booted through its API socket after the start.
    pub api_boot: bool,
}

pub struct LaunchPlanView {
    pub program: Seq<char>,
    pub args: Seq<Seq<char>>,
    pub socket: Seq<char>,
    pub serial_log: Seq<char>,
    pub capture_output: bool,
    pub own_process_group: bool,
    pub clear_stale: bool,
    pub api_boot: bool,
}

impl View for LaunchPlan {
    type V = LaunchPlanView;

    open spec fn view(&self) -> LaunchPlanView {
        LaunchPlanView {
            program: self.program@,
            args: crate::text::views(self.args@),
            socket: self.socket@,
            serial_log: self.serial_log@,
            capture_output: self.capture_output,
            own_process_group: self.own_process_group,
            clear_stale: self.clear_stale,
            api_boot: self.api_boot,
        }
    }
}

/// A binary belongs to a VMM when its file name contains the VMM's name.
pub open spec fn probe_matches(binary: Seq<char>, name: Seq<char>) -> bool {
    match file_name_of(binary) {
        Some(n) => seq_contains(n, name),
        None => false,
    }
}

/// The control socket: the configured one, else the default.
pub open spec fn socket_or(config: VmConfigView, default: Seq<char>) -> Seq<char> {
    match config.socket_path {
        Some(s) => s,
        None => default,
    }
}

/// VMM runner: each VMM has its own name, binary check and start-up plan.
pub trait VmmRunner: Sized {
    /// The VMM's name.
    spec fn kind_name() -> Seq<char>;

    /// The binary the runner starts.
    spec fn spec_binary(&self) -> Seq<char>;

    /// VMM name.
    fn name(&self) -> (r: &'static str)
        ensures
            r@ == Self::kind_name(),
    ;

    /// Whether `binary` looks like this VMM's binary.
    fn probe(binary: &str) -> (r: bool)
        ensures
            r == probe_matches(binary@, Self::kind_name()),
    ;

    /// The check that [`VmmRunner::detect`] needs done on the binary.
    fn detect_check() -> DetectCheck;

    /// A runner for `binary`, given what its check found out.
    fn detect(binary: &str, outcome: ProbeOutcome) -> (r: Result<Self, String>)
        ensures
            r.is_ok() <==> outcome is Passed,
            r matches Ok(s) ==> s.spec_binary() == binary@,
    ;

    /// How to start a VM of `config`; `run_id` makes its file names unique.
    fn launch_plan(&self, config: &VmConfig, run_id: &str) -> LaunchPlan;
}

/// Running VM instance: what the host asks of a VM while it runs. The instances
/// themselves are processes and files, which live outside this library.
pub trait VmInstance: Send {
    /// Check if VM is still running
    fn is_running(&mut self) -> bool;

    /// Wait for VM to exit; its exit code.
    fn wait(&mut self) -> Result<i32, String>;

    /// Kill VM
    fn kill(&mut self) -> Result<(), String>;

    /// Get serial output content
    fn get_serial_output(&self) -> Option<String>;
}

/// The file names that make a run unique: process id and start time, `{pid}-{nanos}`.
pub open spec fn spec_run_id(pid: u32, nanos: u128) -> Seq<char> {
    crate::text::decimal_text(pid as nat) + seq!['-'] + crate::text::decimal_text(nanos as nat)
}

/// Computes [`spec_run_id`].
pub fn run_id(pid: u32, nanos: u128) -> (r: String)
    ensures
        r@ == spec_run_id(pid, nanos),
{
    let mut r = crate::text::u64_text(pid as u64);
    crate::text::push_char(&mut r, '-');
    r.append(crate::text::u128_text(nanos).as_str());
    r
}

/// Computes [`probe_matches`] for a VMM name.
pub fn probe_name(binary: &str, name: &str) -> (r: bool)
    ensures
        r == probe_matches(binary@, name@),
{
    match crate::paths::file_name(binary) {
        Some(n) => crate::text::str_contains(n.as_str(), name),
        None => false,
    }
}

/// The configured control socket, else `default`.
pub fn socket_or_default(config: &VmConfig, default: String) -> (r: String)
    ensures
        r@ == socket_or(config@, default@),
{
    match &config.socket_path {
        Some(s) => s.clone(),
        None => default,
    }
}

} // verus!
