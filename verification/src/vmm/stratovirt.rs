//! Stratovirt VMM runner.
use vstd::prelude::*;
use crate::text::{concat3, views};
use crate::vmm::traits::{DetectCheck, LaunchPlan, LaunchPlanView, ProbeOutcome, VmConfig, VmConfigView, VmmRunner, detect_result, probe_name, socket_or, socket_or_default};

verus! {

pub struct StratovirtRunner {
    binary_path: String,
}

/// The arguments that start Stratovirt for `config`.
pub open spec fn stratovirt_args(config: VmConfigView, socket: Seq<char>, serial: Seq<char>) -> Seq<Seq<char>> {
    seq![
        "-kernel"@, config.kernel,
        "-append"@, "console=ttyS0 reboot=k panic=1 root=/dev/vda rw quiet lingbench.scenario="@ + config.scenario,
        "-cpu"@, "host"@,
        "-m"@, "512"@,
        "-smp"@, "2"@,
        "-device"@, "virtio-blk-device,id=blk0,drive=hd0"@,
        "-drive"@, "file="@ + config.rootfs + ",id=hd0,if=none"@,
        "-serial"@, "file,path="@ + serial,
        "-qmp"@, "unix:"@ + socket + ",server,nowait"@,
    ]
}

/// The plan that starts Stratovirt from `binary` for `config` under `run_id`:
/// output discarded, in a process group of its own.
pub open spec fn stratovirt_plan(binary: Seq<char>, config: VmConfigView, run_id: Seq<char>) -> LaunchPlanView {
    let socket = socket_or(config, "/tmp/stratovirt-"@ + run_id + "-qmp.sock"@);
    let serial = "/tmp/stratovirt-"@ + run_id + "-serial.log"@;
    LaunchPlanView {
        program: binary,
        args: stratovirt_args(config, socket, serial),
        socket,
        serial_log: serial,
        capture_output: false,
        own_process_group: true,
        clear_stale: false,
        api_boot: false,
    }
}

impl StratovirtRunner {
    pub fn new(binary_path: String) -> (r: Self)
        ensures
            r.spec_binary() == binary_path@,
    {
        Self { binary_path }
    }

    pub fn binary_path(&self) -> (r: &str)
        ensures
            r@ == self.spec_binary(),
    {
        self.binary_path.as_str()
    }
}

impl VmmRunner for StratovirtRunner {
    open spec fn kind_name() -> Seq<char> {
        "stratovirt"@
    }

    closed spec fn spec_binary(&self) -> Seq<char> {
        self.binary_path@
    }

    fn name(&self) -> (r: &'static str) {
        "stratovirt"
    }

    fn probe(binary: &str) -> (r: bool) {
        probe_name(binary, "stratovirt")
    }

    /// Stratovirt has no `--version`: the binary only has to exist.
    fn detect_check() -> (r: DetectCheck)
        ensures
            r == DetectCheck::BinaryExists,
    {
        DetectCheck::BinaryExists
    }

    fn detect(binary: &str, outcome: ProbeOutcome) -> (r: Result<Self, String>)
        ensures
            match r {
                Ok(_) => detect_result(outcome, "Stratovirt binary not found"@) == Ok::<(), Seq<char>>(()),
                Err(e) => detect_result(outcome, "Stratovirt binary not found"@) == Err::<(), Seq<char>>(e@),
            },
    {
        match outcome {
            ProbeOutcome::Passed => Ok(Self::new(binary.to_owned())),
            ProbeOutcome::Failed => Err("Stratovirt binary not found".to_owned()),
            ProbeOutcome::Unavailable(e) => Err(e),
        }
    }

    fn launch_plan(&self, config: &VmConfig, run_id: &str) -> (r: LaunchPlan)
        ensures
            r@ == stratovirt_plan(self.spec_binary(), config@, run_id@),
    {
        let socket = socket_or_default(config, concat3("/tmp/stratovirt-", run_id, "-qmp.sock"));
        let serial_log = concat3("/tmp/stratovirt-", run_id, "-serial.log");
        let mut args: Vec<String> = Vec::new();
        args.push("-kernel".to_owned());
        args.push(config.kernel.clone());
        args.push("-append".to_owned());
        args.push(concat3("console=ttyS0 reboot=k panic=1 root=/dev/vda rw quiet lingbench.scenario=", config.scenario.as_str(), ""));
        args.push("-cpu".to_owned());
        args.push("host".to_owned());
        args.push("-m".to_owned());
        args.push("512".to_owned());
        args.push("-smp".to_owned());
        args.push("2".to_owned());
        args.push("-device".to_owned());
        args.push("virtio-blk-device,id=blk0,drive=hd0".to_owned());
        args.push("-drive".to_owned());
        args.push(concat3("file=", config.rootfs.as_str(), ",id=hd0,if=none"));
        args.push("-serial".to_owned());
        args.push(concat3("file,path=", serial_log.as_str(), ""));
        args.push("-qmp".to_owned());
        args.push(concat3("unix:", socket.as_str(), ",server,nowait"));
        proof {
            reveal_strlit("");
        }
        let r = LaunchPlan {
            program: self.binary_path.clone(),
            args,
            socket,
            serial_log,
            capture_output: false,
            own_process_group: true,
            clear_stale: false,
            api_boot: false,
        };
        assert(r@.args =~= stratovirt_plan(self.spec_binary(), config@, run_id@).args);
        r
    }
}

} // verus!
