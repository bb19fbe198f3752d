//! Firecracker VMM runner: the daemon starts with an API socket, and the VM is
//! configured and booted through that socket.
use vstd::prelude::*;
use crate::paths::{join_path, parent, parent_of, path_join};
use crate::text::{concat3, seq_contains, seq_ends_with, occurs_at, str_ends_with, views};
use crate::vmm::traits::{DetectCheck, LaunchPlan, LaunchPlanView, ProbeOutcome, VmConfig, VmConfigView, VmmRunner, detect_result, probe_name, socket_or, socket_or_default};

verus! {

pub struct FirecrackerRunner {
    binary_path: String,
}

/// The plan that starts the Firecracker daemon from `binary` under `run_id`; the VM
/// itself is booted through the API socket afterwards.
pub open spec fn firecracker_plan(binary: Seq<char>, config: VmConfigView, run_id: Seq<char>) -> LaunchPlanView {
    let socket = socket_or(config, "/tmp/fc-"@ + run_id + ".sock"@);
    let serial = "/tmp/fc-"@ + run_id + "-serial.log"@;
    LaunchPlanView {
        program: binary,
        args: seq!["--api-sock"@, socket, "--no-seccomp"@],
        socket,
        serial_log: serial,
        capture_output: true,
        own_process_group: false,
        clear_stale: true,
        api_boot: true,
    }
}

/// Firecracker boots an uncompressed kernel: a `bzImage` path is replaced by the
/// `vmlinux` of the kernel tree beside it.
pub open spec fn kernel_image(kernel: Seq<char>) -> Seq<char> {
    if seq_ends_with(kernel, "bzImage"@) {
        match parent_of(kernel) {
            Some(p) => path_join(p, "linux-6.12.20/vmlinux"@),
            None => kernel,
        }
    } else {
        kernel
    }
}

/// Computes [`kernel_image`].
pub fn kernel_image_path(kernel: &str) -> (r: String)
    ensures
        r@ == kernel_image(kernel@),
{
    if str_ends_with(kernel, "bzImage") {
        match parent(kernel) {
            Some(p) => join_path(p.as_str(), "linux-6.12.20/vmlinux"),
            None => kernel.to_owned(),
        }
    } else {
        kernel.to_owned()
    }
}

impl FirecrackerRunner {
    pub fn new(binary_path: String) -> (r: Self)
        ensures
            r.spec_binary() == binary_path@,
    {
        Self { binary_path }
    }

    pub fn binary_path(&self) -> (r: &str)
        ensures
            r@ == self.spec_binary(),
    {
        self.binary_path.as_str()
    }
}

impl VmmRunner for FirecrackerRunner {
    open spec fn kind_name() -> Seq<char> {
        "firecracker"@
    }

    closed spec fn spec_binary(&self) -> Seq<char> {
        self.binary_path@
    }

    fn name(&self) -> (r: &'static str) {
        "firecracker"
    }

    fn probe(binary: &str) -> (r: bool) {
        probe_name(binary, "firecracker")
    }

    fn detect_check() -> (r: DetectCheck)
        ensures
            r == DetectCheck::VersionCommand,
    {
        DetectCheck::VersionCommand
    }

    fn detect(binary: &str, outcome: ProbeOutcome) -> (r: Result<Self, String>)
        ensures
            match r {
                Ok(_) => detect_result(outcome, "Firecracker binary not valid"@) == Ok::<(), Seq<char>>(()),
                Err(e) => detect_result(outcome, "Firecracker binary not valid"@) == Err::<(), Seq<char>>(e@),
            },
    {
        match outcome {
            ProbeOutcome::Passed => Ok(Self::new(binary.to_owned())),
            ProbeOutcome::Failed => Err("Firecracker binary not valid".to_owned()),
            ProbeOutcome::Unavailable(e) => Err(e),
        }
    }

    fn launch_plan(&self, config: &VmConfig, run_id: &str) -> (r: LaunchPlan)
        ensures
            r@ == firecracker_plan(self.spec_binary(), config@, run_id@),
    {
        let socket = socket_or_default(config, concat3("/tmp/fc-", run_id, ".sock"));
        let serial_log = concat3("/tmp/fc-", run_id, "-serial.log");
        let mut args: Vec<String> = Vec::new();
        args.push("--api-sock".to_owned());
        args.push(socket.clone());
        args.push("--no-seccomp".to_owned());
        let r = LaunchPlan {
            program: self.binary_path.clone(),
            args,
            socket,
            serial_log,
            capture_output: true,
            own_process_group: false,
            clear_stale: true,
            api_boot: true,
        };
        assert(r@.args =~= firecracker_plan(self.spec_binary(), config@, run_id@).args);
        r
    }
}

/// Which API request configures what, in boot order.
pub open spec fn boot_url(step: u32) -> Seq<char> {
    if step == 0 {
        "http://localhost/boot-source"@
    } else if step == 1 {
        "http://localhost/drives/root"@
    } else if step == 2 {
        "http://localhost/machine-config"@
    } else {
        "http://localhost/actions"@
    }
}

/// The JSON body of each boot request.
pub open spec fn boot_body(step: u32, kernel: Seq<char>, rootfs: Seq<char>, scenario: Seq<char>) -> Seq<char> {
    if step == 0 {
        "{\"kernel_image_path\": \""@ + kernel
            + "\", \"boot_args\": \"console=ttyS0 root=/dev/vda rw lingbench.scenario="@ + scenario + "\"}"@
    } else if step == 1 {
        "{\"drive_id\": \"root\", \"path_on_host\": \""@ + rootfs
            + "\", \"is_root_device\": true, \"is_read_only\": false}"@
    } else if step == 2 {
        "{\"vcpu_count\": 1, \"mem_size_mib\": 512}"@
    } else {
        "{\"action_type\": \"InstanceStart\"}"@
    }
}

/// What a failed boot request reports.
pub open spec fn boot_failure(step: u32) -> Seq<char> {
    if step == 0 {
        "Failed to set boot source: "@
    } else if step == 1 {
        "Failed to configure drive: "@
    } else if step == 2 {
        "Failed to configure machine: "@
    } else {
        "Failed to start instance: "@
    }
}

/// The `curl` arguments of an HTTP PUT of `body` to `url` over the unix socket `socket`.
pub open spec fn curl_put(socket: Seq<char>, url: Seq<char>, body: Seq<char>) -> Seq<Seq<char>> {
    seq![
        "-N"@, "--unix-socket"@, socket,
        "-X"@, "PUT"@, url,
        "-H"@, "Content-Type: application/json"@,
        "-d"@, body,
    ]
}

/// How far booting a Firecracker VM has come.
#[derive(Debug, Clone, Copy, PartialEq, Eq, Structural)]
pub enum BootPhase {
    /// Waiting for the daemon's API socket; `waited` pauses so far.
    WaitingForSocket { waited: u32 },
    /// The requests before `step` succeeded; request `step` is under way.
    Configuring { step: u32 },
    /// All requests succeeded: the VM runs.
    Booted,
    /// Booting failed.
    Failed,
}

/// How one API request went.
#[derive(Debug)]
pub enum CallOutcome {
    Succeeded,
    /// The request was refused; what `curl` wrote to stderr.
    Failed { stderr: String },
    /// `curl` could not be run; the error's text.
    Unavailable { error: String },
}

/// What the host observed since the last action.
#[derive(Debug)]
pub enum BootEvent {
    SocketChecked { exists: bool },
    RequestDone { outcome: CallOutcome },
}

/// What the host does next.
#[derive(Debug)]
pub enum BootAction {
    /// Check whether the API socket exists.
    CheckSocket,
    /// Pause, then check the socket again.
    SleepThenCheck { ms: u64 },
    /// Run `curl` with these arguments.
    Put { args: Vec<String> },
    /// Give up with this error.
    Fail { message: String },
    /// Booting is done.
    Done,
    /// The event was not expected: nothing to do.
    Idle,
}

pub enum BootEventView {
    SocketChecked { exists: bool },
    Succeeded,
    Failed { stderr: Seq<char> },
    Unavailable { error: Seq<char> },
}

impl View for BootEvent {
    type V = BootEventView;

    open spec fn view(&self) -> BootEventView {
        match self {
            BootEvent::SocketChecked { exists } => BootEventView::SocketChecked { exists: *exists },
            BootEvent::RequestDone { outcome } => match outcome {
                CallOutcome::Succeeded => BootEventView::Succeeded,
                CallOutcome::Failed { stderr } => BootEventView::Failed { stderr: stderr@ },
                CallOutcome::Unavailable { error } => BootEventView::Unavailable { error: error@ },
            },
        }
    }
}

pub enum BootActionView {
    CheckSocket,
    SleepThenCheck { ms: u64 },
    Put { args: Seq<Seq<char>> },
    Fail { message: Seq<char> },
    Done,
    Idle,
}

impl View for BootAction {
    type V = BootActionView;

    open spec fn view(&self) -> BootActionView {
        match self {
            BootAction::CheckSocket => BootActionView::CheckSocket,
            BootAction::SleepThenCheck { ms } => BootActionView::SleepThenCheck { ms: *ms },
            BootAction::Put { args } => BootActionView::Put { args: views(args@) },
            BootAction::Fail { message } => BootActionView::Fail { message: message@ },
            BootAction::Done => BootActionView::Done,
            BootAction::Idle => BootActionView::Idle,
        }
    }
}

/// The pauses while waiting for the API socket: at most fifty, of 100 ms each.
pub const SOCKET_WAIT_STEPS: u32 = 50;
pub const SOCKET_WAIT_MS: u64 = 100;

/// Booting a Firecracker VM through its API socket, one request after another.
pub struct FirecrackerBoot {
    socket: String,
    kernel: String,
    rootfs: String,
    scenario: String,
    phase: BootPhase,
}

impl FirecrackerBoot {
    pub closed spec fn spec_socket(&self) -> Seq<char> {
        self.socket@
    }

    /// The kernel image that the VM boots.
    pub closed spec fn spec_kernel(&self) -> Seq<char> {
        self.kernel@
    }

    pub closed spec fn spec_rootfs(&self) -> Seq<char> {
        self.rootfs@
    }

    pub closed spec fn spec_scenario(&self) -> Seq<char> {
        self.scenario@
    }

    pub closed spec fn spec_phase(&self) -> BootPhase {
        self.phase
    }

    /// The arguments of request `step`.
    pub open spec fn request(&self, step: u32) -> Seq<Seq<char>> {
        curl_put(self.spec_socket(), boot_url(step), boot_body(step, self.spec_kernel(), self.spec_rootfs(), self.spec_scenario()))
    }

    /// The phases that booting can reach.
    pub open spec fn inv(&self) -> bool {
        match self.spec_phase() {
            BootPhase::WaitingForSocket { waited } => waited <= SOCKET_WAIT_STEPS,
            BootPhase::Configuring { step } => step <= 3,
            _ => true,
        }
    }

    /// The next phase and action after `e`.
    pub open spec fn next(&self, e: BootEventView) -> (BootPhase, BootActionView) {
        match (self.spec_phase(), e) {
            (BootPhase::WaitingForSocket { waited }, BootEventView::SocketChecked { exists }) => {
                if exists {
                    (BootPhase::Configuring { step: 0 }, BootActionView::Put { args: self.request(0) })
                } else if waited < SOCKET_WAIT_STEPS {
                    (BootPhase::WaitingForSocket { waited: (waited + 1) as u32 }, BootActionView::SleepThenCheck { ms: SOCKET_WAIT_MS })
                } else {
                    (BootPhase::Failed, BootActionView::Fail { message: "Firecracker socket not created"@ })
                }
            },
            (BootPhase::Configuring { step }, BootEventView::Succeeded) => {
                if step >= 3 {
                    (BootPhase::Booted, BootActionView::Done)
                } else {
                    (BootPhase::Configuring { step: (step + 1) as u32 }, BootActionView::Put { args: self.request((step + 1) as u32) })
                }
            },
            (BootPhase::Configuring { step }, BootEventView::Failed { stderr }) =>
                (BootPhase::Failed, BootActionView::Fail { message: boot_failure(step) + stderr }),
            (BootPhase::Configuring { step }, BootEventView::Unavailable { error }) =>
                (BootPhase::Failed, BootActionView::Fail { message: error }),
            (phase, _) => (phase, BootActionView::Idle),
        }
    }

    /// Starts booting the VM of `config` through `socket`; the first action checks the socket.
    pub fn new(socket: &str, config: &VmConfig) -> (r: (Self, BootAction))
        ensures
            r.0.spec_socket() == socket@,
            r.0.spec_kernel() == kernel_image(config.kernel@),
            r.0.spec_rootfs() == config.rootfs@,
            r.0.spec_scenario() == config.scenario@,
            r.0.spec_phase() == (BootPhase::WaitingForSocket { waited: 0 }),
            r.0.inv(),
            r.1@ == BootActionView::CheckSocket,
    {
        let b = FirecrackerBoot {
            socket: socket.to_owned(),
            kernel: kernel_image_path(config.kernel.as_str()),
            rootfs: config.rootfs.clone(),
            scenario: config.scenario.clone(),
            phase: BootPhase::WaitingForSocket { waited: 0 },
        };
        (b, BootAction::CheckSocket)
    }

    /// The phase booting has reached.
    pub fn phase(&self) -> (r: BootPhase)
        ensures
            r == self.spec_phase(),
    {
        self.phase
    }

    /// The `curl` arguments of request `step`.
    pub fn request_args(&self, step: u32) -> (r: Vec<String>)
        ensures
            views(r@) == self.request(step),
    {
        let body = if step == 0 {
            let mut b = concat3("{\"kernel_image_path\": \"", self.kernel.as_str(), "\", \"boot_args\": \"console=ttyS0 root=/dev/vda rw lingbench.scenario=");
            b.append(self.scenario.as_str());
            b.append("\"}");
            b
        } else if step == 1 {
            concat3("{\"drive_id\": \"root\", \"path_on_host\": \"", self.rootfs.as_str(), "\", \"is_root_device\": true, \"is_read_only\": false}")
        } else if step == 2 {
            "{\"vcpu_count\": 1, \"mem_size_mib\": 512}".to_owned()
        } else {
            "{\"action_type\": \"InstanceStart\"}".to_owned()
        };
        let url = if step == 0 {
            "http://localhost/boot-source"
        } else if step == 1 {
            "http://localhost/drives/root"
        } else if step == 2 {
            "http://localhost/machine-config"
        } else {
            "http://localhost/actions"
        };
        let mut args: Vec<String> = Vec::new();
        args.push("-N".to_owned());
        args.push("--unix-socket".to_owned());
        args.push(self.socket.clone());
        args.push("-X".to_owned());
        args.push("PUT".to_owned());
        args.push(url.to_owned());
        args.push("-H".to_owned());
        args.push("Content-Type: application/json".to_owned());
        args.push("-d".to_owned());
        args.push(body);
        assert(views(args@) =~= self.request(step));
        args
    }

    /// Advances booting by the event `e` and says what to do next.
    pub fn step(&mut self, e: BootEvent) -> (r: BootAction)
        requires
            old(self).inv(),
        ensures
            final(self).inv(),
            (final(self).spec_phase(), r@) == old(self).next(e@),
            final(self).spec_socket() == old(self).spec_socket(),
            final(self).spec_kernel() == old(self).spec_kernel(),
            final(self).spec_rootfs() == old(self).spec_rootfs(),
            final(self).spec_scenario() == old(self).spec_scenario(),
    {
        proof {
            reveal_strlit("");
        }
        match (self.phase, e) {
            (BootPhase::WaitingForSocket { waited }, BootEvent::SocketChecked { exists }) => {
                if exists {
                    self.phase = BootPhase::Configuring { step: 0 };
                    BootAction::Put { args: self.request_args(0) }
                } else if waited < SOCKET_WAIT_STEPS {
                    self.phase = BootPhase::WaitingForSocket { waited: waited + 1 };
                    BootAction::SleepThenCheck { ms: SOCKET_WAIT_MS }
                } else {
                    self.phase = BootPhase::Failed;
                    BootAction::Fail { message: "Firecracker socket not created".to_owned() }
                }
            },
            (BootPhase::Configuring { step }, BootEvent::RequestDone { outcome }) => {
                match outcome {
                    CallOutcome::Succeeded => {
                        if step >= 3 {
                            self.phase = BootPhase::Booted;
                            BootAction::Done
                        } else {
                            self.phase = BootPhase::Configuring { step: step + 1 };
                            BootAction::Put { args: self.request_args(step + 1) }
                        }
                    },
                    CallOutcome::Failed { stderr } => {
                        self.phase = BootPhase::Failed;
                        let prefix = if step == 0 {
                            "Failed to set boot source: "
                        } else if step == 1 {
                            "Failed to configure drive: "
                        } else if step == 2 {
                            "Failed to configure machine: "
                        } else {
                            "Failed to start instance: "
                        };
                        BootAction::Fail { message: concat3(prefix, stderr.as_str(), "") }
                    },
                    CallOutcome::Unavailable { error } => {
                        self.phase = BootPhase::Failed;
                        BootAction::Fail { message: error }
                    },
                }
            },
            _ => BootAction::Idle,
        }
    }
}

/// A running Firecracker VM: its API socket and the log of its serial console.
pub struct FirecrackerInstance {
    socket: String,
    log_path: String,
}

impl FirecrackerInstance {
    pub closed spec fn spec_socket(&self) -> Seq<char> {
        self.socket@
    }

    pub closed spec fn spec_log_path(&self) -> Seq<char> {
        self.log_path@
    }

    pub fn new(socket: String, log_path: String) -> (r: Self)
        ensures
            r.spec_socket() == socket@,
            r.spec_log_path() == log_path@,
    {
        FirecrackerInstance { socket, log_path }
    }

    /// The API socket; the VM runs while it exists.
    pub fn socket(&self) -> (r: &str)
        ensures
            r@ == self.spec_socket(),
    {
        self.socket.as_str()
    }

    /// The file that holds the guest's serial output.
    pub fn log_path(&self) -> (r: &str)
        ensures
            r@ == self.spec_log_path(),
    {
        self.log_path.as_str()
    }

    /// The `curl` arguments that ask the VM to halt.
    pub fn halt_args(&self) -> (r: Vec<String>)
        ensures
            views(r@) == seq![
                "--unix-socket"@, self.spec_socket(),
                "-X"@, "PUT"@, "http://localhost/actions"@,
                "-H"@, "Content-Type: application/json"@,
                "-d"@, "{\"action_type\": \"InstanceHalt\"}"@,
            ],
    {
        let mut args: Vec<String> = Vec::new();
        args.push("--unix-socket".to_owned());
        args.push(self.socket.clone());
        args.push("-X".to_owned());
        args.push("PUT".to_owned());
        args.push("http://localhost/actions".to_owned());
        args.push("-H".to_owned());
        args.push("Content-Type: application/json".to_owned());
        args.push("-d".to_owned());
        args.push("{\"action_type\": \"InstanceHalt\"}".to_owned());
        assert(views(args@) =~= seq![
            "--unix-socket"@, self.spec_socket(),
            "-X"@, "PUT"@, "http://localhost/actions"@,
            "-H"@, "Content-Type: application/json"@,
            "-d"@, "{\"action_type\": \"InstanceHalt\"}"@,
        ]);
        args
    }
}

/// Booting goes through the requests in order: the first is sent once the socket
/// exists, request `k + 1` only after request `k` succeeded, and the VM counts as
/// booted only after the last request succeeded. Each request sent is the one of
/// the phase reached.
pub proof fn law_boot_requests_in_order(boot: FirecrackerBoot, e: BootEventView, k: u32)
    requires
        boot.inv(),
    ensures
        (boot.next(e).0 == BootPhase::Booted && boot.spec_phase() != BootPhase::Booted) ==> (
            boot.spec_phase() == (BootPhase::Configuring { step: 3 }) && e is Succeeded),
        (boot.next(e).0 == (BootPhase::Configuring { step: k }) && boot.spec_phase() != boot.next(e).0) ==> (
            (k == 0 && boot.spec_phase() is WaitingForSocket && e == (BootEventView::SocketChecked { exists: true }))
            || (k > 0 && boot.spec_phase() == (BootPhase::Configuring { step: (k - 1) as u32 }) && e is Succeeded)),
        (boot.next(e).0 == (BootPhase::Configuring { step: k }) && boot.next(e).1 is Put) ==>
            boot.next(e).1->args == boot.request(k),
{
}

/// A booted or failed VM stays so: no event changes its phase or asks for anything.
pub proof fn law_boot_end_is_final(boot: FirecrackerBoot, e: BootEventView)
    requires
        boot.spec_phase() == BootPhase::Booted || boot.spec_phase() == BootPhase::Failed,
    ensures
        boot.next(e) == (boot.spec_phase(), BootActionView::Idle),
{
}

/// Waiting for the socket pauses at most fifty times, then gives up with an error.
pub proof fn law_socket_wait_bounded(boot: FirecrackerBoot, e: BootEventView)
    requires
        boot.inv(),
    ensures
        boot.next(e).0 matches BootPhase::WaitingForSocket { waited } ==> waited <= SOCKET_WAIT_STEPS,
        (boot.spec_phase() == (BootPhase::WaitingForSocket { waited: SOCKET_WAIT_STEPS })
            && e == (BootEventView::SocketChecked { exists: false })) ==> (
            boot.next(e) == (BootPhase::Failed, BootActionView::Fail { message: "Firecracker socket not created"@ })),
{
}

/// The boot requests carry the VM's configuration: every request goes through the
/// VM's socket as a PUT; the boot-source request names the kernel and ends its boot
/// arguments with `lingbench.scenario=` and the scenario, so the guest runs that
/// benchmark; the drive request names the root file system.
pub proof fn law_boot_requests_carry_the_config(boot: FirecrackerBoot, step: u32)
    ensures
        boot.request(step)[2] == boot.spec_socket(),
        boot.request(step)[4] == "PUT"@,
        seq_ends_with(boot.request(0)[9], "lingbench.scenario="@ + boot.spec_scenario() + "\"}"@),
        seq_contains(boot.request(0)[9], "\"kernel_image_path\": \""@ + boot.spec_kernel() + "\""@),
        seq_contains(boot.request(1)[9], "\"path_on_host\": \""@ + boot.spec_rootfs() + "\""@),
{
    let kernel = boot.spec_kernel();
    let rootfs = boot.spec_rootfs();
    let scenario = boot.spec_scenario();
    let b0 = boot.request(0)[9];
    let b1 = boot.request(1)[9];
    reveal_strlit("{\"kernel_image_path\": \"");
    reveal_strlit("\", \"boot_args\": \"console=ttyS0 root=/dev/vda rw lingbench.scenario=");
    reveal_strlit("lingbench.scenario=");
    reveal_strlit("\"}");
    reveal_strlit("\"");
    reveal_strlit("\"kernel_image_path\": \"");
    reveal_strlit("{\"drive_id\": \"root\", \"path_on_host\": \"");
    reveal_strlit("\"path_on_host\": \"");
    reveal_strlit("\", \"is_root_device\": true, \"is_read_only\": false}");
    let suffix = "lingbench.scenario="@ + scenario + "\"}"@;
    let mid = "\", \"boot_args\": \"console=ttyS0 root=/dev/vda rw lingbench.scenario="@;
    assert(b0 == "{\"kernel_image_path\": \""@ + kernel + mid + scenario + "\"}"@);
    assert(b0.subrange(b0.len() - suffix.len(), b0.len() as int) =~= suffix);
    let kp = "\"kernel_image_path\": \""@ + kernel + "\""@;
    assert(b0.subrange(1, 1 + kp.len() as int) =~= kp);
    assert(occurs_at(b0, kp, 1));
    let dp = "\"path_on_host\": \""@ + rootfs + "\""@;
    let head = "{\"drive_id\": \"root\", \"path_on_host\": \""@;
    let off: int = head.len() - "\"path_on_host\": \""@.len();
    assert(b1 == head + rootfs + "\", \"is_root_device\": true, \"is_read_only\": false}"@);
    assert(b1.subrange(off, off + dp.len()) =~= dp);
    assert(occurs_at(b1, dp, off));
}

} // verus!
