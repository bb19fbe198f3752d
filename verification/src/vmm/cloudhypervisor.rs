//! Cloud-Hypervisor VMM runner.
use vstd::prelude::*;
use crate::text::{concat3, views};
use crate::vmm::traits::{DetectCheck, LaunchPlan, LaunchPlanView, ProbeOutcome, VmConfig, VmConfigView, VmmRunner, detect_result, probe_name, socket_or, socket_or_default};

verus! {

pub struct CloudHypervisorRunner {
    binary_path: String,
}

/// The arguments that start Cloud-Hypervisor for `config`.
pub open spec fn ch_args(config: VmConfigView, socket: Seq<char>, serial: Seq<char>) -> Seq<Seq<char>> {
    seq![
        "--api-socket"@, socket,
        "--kernel"@, config.kernel,
        "--disk"@, "path="@ + config.rootfs + ",readonly=off,image_type=raw"@,
        "--cmdline"@, "root=/dev/vda rw lingbench.scenario="@ + config.scenario,
        "--cpus"@, "boot=1"@,
        "--memory"@, "size=2147483648"@,
        "--serial"@, "file="@ + serial,
    ]
}

/// The plan that starts Cloud-Hypervisor from `binary` for `config` under `run_id`.
pub open spec fn ch_plan(binary: Seq<char>, config: VmConfigView, run_id: Seq<char>) -> LaunchPlanView {
    let socket = socket_or(config, "/tmp/ch-"@ + run_id + ".sock"@);
    let serial = "/tmp/ch-"@ + run_id + "-serial.log"@;
    LaunchPlanView {
        program: binary,
        args: ch_args(config, socket, serial),
        socket,
        serial_log: serial,
        capture_output: true,
        own_process_group: false,
        clear_stale: false,
        api_boot: false,
    }
}

impl CloudHypervisorRunner {
    pub fn new(binary_path: String) -> (r: Self)
        ensures
            r.spec_binary() == binary_path@,
    {
        Self { binary_path }
    }

    /// Static name accessor for registry
    pub fn name_static() -> (r: &'static str)
        ensures
            r@ == "cloud-hypervisor"@,
    {
        "cloud-hypervisor"
    }

    pub fn binary_path(&self) -> (r: &str)
        ensures
            r@ == self.spec_binary(),
    {
        self.binary_path.as_str()
    }
}

impl VmmRunner for CloudHypervisorRunner {
    open spec fn kind_name() -> Seq<char> {
        "cloud-hypervisor"@
    }

    closed spec fn spec_binary(&self) -> Seq<char> {
        self.binary_path@
    }

    fn name(&self) -> (r: &'static str) {
        "cloud-hypervisor"
    }

    fn probe(binary: &str) -> (r: bool) {
        probe_name(binary, "cloud-hypervisor")
    }

    fn detect_check() -> (r: DetectCheck)
        ensures
            r == DetectCheck::VersionCommand,
    {
        DetectCheck::VersionCommand
    }

    fn detect(binary: &str, outcome: ProbeOutcome) -> (r: Result<Self, String>)
        ensures
            match r {
                Ok(_) => detect_result(outcome, "Cloud-Hypervisor binary not valid"@) == Ok::<(), Seq<char>>(()),
                Err(e) => detect_result(outcome, "Cloud-Hypervisor binary not valid"@) == Err::<(), Seq<char>>(e@),
            },
    {
        match outcome {
            ProbeOutcome::Passed => Ok(Self::new(binary.to_owned())),
            ProbeOutcome::Failed => Err("Cloud-Hypervisor binary not valid".to_owned()),
            ProbeOutcome::Unavailable(e) => Err(e),
        }
    }

    fn launch_plan(&self, config: &VmConfig, run_id: &str) -> (r: LaunchPlan)
        ensures
            r@ == ch_plan(self.spec_binary(), config@, run_id@),
    {
        let socket = socket_or_default(config, concat3("/tmp/ch-", run_id, ".sock"));
        let serial_log = concat3("/tmp/ch-", run_id, "-serial.log");
        let mut args: Vec<String> = Vec::new();
        args.push("--api-socket".to_owned());
        args.push(socket.clone());
        args.push("--kernel".to_owned());
        args.push(config.kernel.clone());
        args.push("--disk".to_owned());
        args.push(concat3("path=", config.rootfs.as_str(), ",readonly=off,image_type=raw"));
        args.push("--cmdline".to_owned());
        args.push(concat3("root=/dev/vda rw lingbench.scenario=", config.scenario.as_str(), ""));
        args.push("--cpus".to_owned());
        args.push("boot=1".to_owned());
        args.push("--memory".to_owned());
        args.push("size=2147483648".to_owned());
        args.push("--serial".to_owned());
        args.push(concat3("file=", serial_log.as_str(), ""));
        proof {
            reveal_strlit("");
        }
        let r = LaunchPlan {
            program: self.binary_path.clone(),
            args,
            socket,
            serial_log,
            capture_output: true,
            own_process_group: false,
            clear_stale: false,
            api_boot: false,
        };
        assert(r@.args =~= ch_plan(self.spec_binary(), config@, run_id@).args);
        r
    }
}

} // verus!
