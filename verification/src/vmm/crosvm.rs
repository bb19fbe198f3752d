//! Crosvm VMM runner.
use vstd::prelude::*;
use crate::text::{concat3, views};
use crate::vmm::traits::{DetectCheck, LaunchPlan, LaunchPlanView, ProbeOutcome, VmConfig, VmConfigView, VmmRunner, detect_result, probe_name, socket_or, socket_or_default};

verus! {

pub struct CrosvmRunner {
    binary_path: String,
}

/// The arguments that start crosvm for `config`.
pub open spec fn crosvm_args(config: VmConfigView, serial: Seq<char>) -> Seq<Seq<char>> {
    seq![
        "run"@,
        "--disable-sandbox"@,
        config.kernel,
        "--block"@, "path="@ + config.rootfs + ",root=true"@,
        "-p"@, "console=ttyS0 reboot=k panic=1 root=/dev/vda rw quiet lingbench.scenario="@ + config.scenario,
        "--cpus"@, "2"@,
        "--mem"@, "512"@,
        "--serial"@, "type=file,path="@ + serial,
    ]
}

/// The plan that starts crosvm from `binary` for `config` under `run_id`.
pub open spec fn crosvm_plan(binary: Seq<char>, config: VmConfigView, run_id: Seq<char>) -> LaunchPlanView {
    let socket = socket_or(config, "/tmp/crosvm-"@ + run_id + ".sock"@);
    let serial = "/tmp/crosvm-"@ + run_id + "-serial.log"@;
    LaunchPlanView {
        program: binary,
        args: crosvm_args(config, serial),
        socket,
        serial_log: serial,
        capture_output: true,
        own_process_group: false,
        clear_stale: false,
        api_boot: false,
    }
}

impl CrosvmRunner {
    pub fn new(binary_path: String) -> (r: Self)
        ensures
            r.spec_binary() == binary_path@,
    {
        Self { binary_path }
    }

    pub fn binary_path(&self) -> (r: &str)
        ensures
            r@ == self.spec_binary(),
    {
        self.binary_path.as_str()
    }
}

impl VmmRunner for CrosvmRunner {
    open spec fn kind_name() -> Seq<char> {
        "crosvm"@
    }

    closed spec fn spec_binary(&self) -> Seq<char> {
        self.binary_path@
    }

    fn name(&self) -> (r: &'static str) {
        "crosvm"
    }

    fn probe(binary: &str) -> (r: bool) {
        probe_name(binary, "crosvm")
    }

    /// Crosvm has no `--version`: the binary only has to exist.
    fn detect_check() -> (r: DetectCheck)
        ensures
            r == DetectCheck::BinaryExists,
    {
        DetectCheck::BinaryExists
    }

    fn detect(binary: &str, outcome: ProbeOutcome) -> (r: Result<Self, String>)
        ensures
            match r {
                Ok(_) => detect_result(outcome, "Crosvm binary not found"@) == Ok::<(), Seq<char>>(()),
                Err(e) => detect_result(outcome, "Crosvm binary not found"@) == Err::<(), Seq<char>>(e@),
            },
    {
        match outcome {
            ProbeOutcome::Passed => Ok(Self::new(binary.to_owned())),
            ProbeOutcome::Failed => Err("Crosvm binary not found".to_owned()),
            ProbeOutcome::Unavailable(e) => Err(e),
        }
    }

    fn launch_plan(&self, config: &VmConfig, run_id: &str) -> (r: LaunchPlan)
        ensures
            r@ == crosvm_plan(self.spec_binary(), config@, run_id@),
    {
        let socket = socket_or_default(config, concat3("/tmp/crosvm-", run_id, ".sock"));
        let serial_log = concat3("/tmp/crosvm-", run_id, "-serial.log");
        let mut args: Vec<String> = Vec::new();
        args.push("run".to_owned());
        args.push("--disable-sandbox".to_owned());
        args.push(config.kernel.clone());
        args.push("--block".to_owned());
        args.push(concat3("path=", config.rootfs.as_str(), ",root=true"));
        args.push("-p".to_owned());
        args.push(concat3("console=ttyS0 reboot=k panic=1 root=/dev/vda rw quiet lingbench.scenario=", config.scenario.as_str(), ""));
        args.push("--cpus".to_owned());
        args.push("2".to_owned());
        args.push("--mem".to_owned());
        args.push("512".to_owned());
        args.push("--serial".to_owned());
        args.push(concat3("type=file,path=", serial_log.as_str(), ""));
        proof {
            reveal_strlit("");
        }
        let r = LaunchPlan {
            program: self.binary_path.clone(),
            args,
            socket,
            serial_log,
            capture_output: true,
            own_process_group: false,
            clear_stale: false,
            api_boot: false,
        };
        assert(r@.args =~= crosvm_plan(self.spec_binary(), config@, run_id@).args);
        r
    }
}

} // verus!
