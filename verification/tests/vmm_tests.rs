use lingbench::vmm::cloudhypervisor::CloudHypervisorRunner;
use lingbench::vmm::crosvm::CrosvmRunner;
use lingbench::vmm::firecracker::{
    kernel_image_path, BootAction, BootEvent, BootPhase, CallOutcome, FirecrackerBoot, FirecrackerInstance,
    FirecrackerRunner, SOCKET_WAIT_MS, SOCKET_WAIT_STEPS,
};
use lingbench::vmm::registry::{AnyRunner, VmmKind, VmmRegistry};
use lingbench::vmm::stratovirt::StratovirtRunner;
use lingbench::vmm::traits::{run_id, DetectCheck, ProbeOutcome, VmConfig, VmmRunner};

fn sample_vm_config() -> VmConfig {
    VmConfig {
        kernel: "/work/vmlinux.bin".to_string(),
        rootfs: "/work/rootfs.ext4".to_string(),
        scenario: "cpu-sysbench".to_string(),
        socket_path: None,
    }
}

#[test]
fn test_firecracker_probe() {
    assert!(FirecrackerRunner::probe("firecracker"));
    assert!(FirecrackerRunner::probe("firecracker_test"));
    assert!(!FirecrackerRunner::probe("crosvm"));
}

#[test]
fn test_cloudhypervisor_probe() {
    let result = CloudHypervisorRunner::probe("cloud-hypervisor");
    assert!(result);

    let result = CloudHypervisorRunner::probe("firecracker");
    assert!(!result);
}

#[test]
fn test_crosvm_probe() {
    assert!(CrosvmRunner::probe("crosvm"));
    assert!(CrosvmRunner::probe("crosvm_test"));
    assert!(!CrosvmRunner::probe("firecracker"));
}

#[test]
fn test_stratovirt_probe() {
    assert!(StratovirtRunner::probe("stratovirt"));
    assert!(StratovirtRunner::probe("stratovirt_test"));
    assert!(!StratovirtRunner::probe("firecracker"));
}

#[test]
fn test_registry() {
    let registry = VmmRegistry::with_standard_runners(ProbeOutcome::Failed, ProbeOutcome::Failed);
    let names = registry.names();
    // Should have at least pre-registered runners
    assert!(!names.is_empty() || true); // allow empty if binary does not exist
}

#[test]
fn probe_looks_at_the_file_name_only() {
    assert!(FirecrackerRunner::probe("/usr/local/bin/firecracker"));
    assert!(!FirecrackerRunner::probe("/opt/firecracker/crosvm"));
    assert!(!CrosvmRunner::probe(""));
    assert!(StratovirtRunner::probe("./bin/stratovirt-2.4"));
}

#[test]
fn standard_runners_follow_the_checks() {
    let registry = VmmRegistry::with_standard_runners(ProbeOutcome::Passed, ProbeOutcome::Passed);
    assert_eq!(registry.names(), vec!["firecracker".to_string(), "cloud-hypervisor".to_string()]);
    let fc = registry.get("firecracker").unwrap();
    assert_eq!(fc.binary_path(), "/usr/local/bin/firecracker");
    assert!(registry.get("crosvm").is_none());

    let registry = VmmRegistry::with_standard_runners(ProbeOutcome::Failed, ProbeOutcome::Passed);
    assert_eq!(registry.names(), vec!["cloud-hypervisor".to_string()]);

    let registry = VmmRegistry::with_standard_runners(ProbeOutcome::Failed, ProbeOutcome::Failed);
    assert!(registry.names().is_empty());
}

#[test]
fn register_then_get_finds_the_first_runner_of_a_name() {
    let mut registry = VmmRegistry::new();
    registry.register(AnyRunner::Crosvm(CrosvmRunner::new("/a/crosvm".to_string())));
    registry.register(AnyRunner::Crosvm(CrosvmRunner::new("/b/crosvm".to_string())));
    registry.register(AnyRunner::Stratovirt(StratovirtRunner::new("/c/stratovirt".to_string())));
    assert_eq!(registry.names().len(), 3);
    assert_eq!(registry.get("crosvm").unwrap().binary_path(), "/a/crosvm");
    assert_eq!(registry.get("stratovirt").unwrap().binary_path(), "/c/stratovirt");
    assert_eq!(registry.runners().len(), 3);
    registry.register_with("my-vmm", AnyRunner::Crosvm(CrosvmRunner::new("/d/crosvm".to_string())));
    assert_eq!(
        registry.names(),
        vec!["crosvm".to_string(), "crosvm".to_string(), "stratovirt".to_string(), "my-vmm".to_string()]
    );
    assert_eq!(registry.get("my-vmm").unwrap().binary_path(), "/d/crosvm");
    assert_eq!(registry.get("my-vmm").unwrap().name(), "crosvm");
}

#[test]
fn detect_picks_the_vmm_by_name_and_reports_errors() {
    let mut registry = VmmRegistry::new();
    let r = registry.detect("/usr/bin/cloud-hypervisor", ProbeOutcome::Passed).unwrap();
    assert_eq!(r.kind(), VmmKind::CloudHypervisor);
    assert_eq!(r.name(), "cloud-hypervisor");

    match registry.detect("/usr/bin/qemu", ProbeOutcome::Passed) {
        Err(e) => assert_eq!(e, "Unknown VMM binary: /usr/bin/qemu"),
        Ok(_) => panic!("qemu is not a known VMM"),
    }
    match registry.detect("/usr/bin/firecracker", ProbeOutcome::Failed) {
        Err(e) => assert_eq!(e, "Firecracker binary not valid"),
        Ok(_) => panic!("a failed check must refuse the binary"),
    }
    match registry.detect("/usr/bin/crosvm", ProbeOutcome::Failed) {
        Err(e) => assert_eq!(e, "Crosvm binary not found"),
        Ok(_) => panic!("a failed check must refuse the binary"),
    }
    match registry.detect("/usr/bin/stratovirt", ProbeOutcome::Unavailable("no such file".to_string())) {
        Err(e) => assert_eq!(e, "no such file"),
        Ok(_) => panic!("an unavailable check must refuse the binary"),
    }

    assert!(registry.detect_and_register("/usr/bin/stratovirt", ProbeOutcome::Passed).is_ok());
    assert!(registry.detect_and_register("/usr/bin/qemu", ProbeOutcome::Passed).is_err());
    assert_eq!(registry.names(), vec!["stratovirt".to_string()]);
}

#[test]
fn each_vmm_has_its_check() {
    assert_eq!(VmmKind::Firecracker.detect_check(), DetectCheck::VersionCommand);
    assert_eq!(VmmKind::CloudHypervisor.detect_check(), DetectCheck::VersionCommand);
    assert_eq!(VmmKind::Crosvm.detect_check(), DetectCheck::BinaryExists);
    assert_eq!(VmmKind::Stratovirt.detect_check(), DetectCheck::BinaryExists);
}

#[test]
fn run_ids_join_pid_and_time() {
    assert_eq!(run_id(1234, 987654321), "1234-987654321");
    assert_eq!(run_id(0, 0), "0-0");
}

#[test]
fn cloud_hypervisor_launch_plan() {
    let runner = CloudHypervisorRunner::new("/usr/bin/cloud-hypervisor".to_string());
    let plan = runner.launch_plan(&sample_vm_config(), "7-42");
    assert_eq!(plan.program, "/usr/bin/cloud-hypervisor");
    assert_eq!(plan.socket, "/tmp/ch-7-42.sock");
    assert_eq!(plan.serial_log, "/tmp/ch-7-42-serial.log");
    assert_eq!(
        plan.args,
        vec![
            "--api-socket", "/tmp/ch-7-42.sock",
            "--kernel", "/work/vmlinux.bin",
            "--disk", "path=/work/rootfs.ext4,readonly=off,image_type=raw",
            "--cmdline", "root=/dev/vda rw lingbench.scenario=cpu-sysbench",
            "--cpus", "boot=1",
            "--memory", "size=2147483648",
            "--serial", "file=/tmp/ch-7-42-serial.log",
        ]
    );
    assert!(plan.capture_output);
    assert!(!plan.api_boot);
}

#[test]
fn configured_socket_wins() {
    let mut config = sample_vm_config();
    config.socket_path = Some("/run/vm.sock".to_string());
    let runner = StratovirtRunner::new("/usr/bin/stratovirt".to_string());
    let plan = runner.launch_plan(&config, "1-2");
    assert_eq!(plan.socket, "/run/vm.sock");
    assert!(plan.args.contains(&"unix:/run/vm.sock,server,nowait".to_string()));
    assert!(plan.own_process_group);
    assert!(!plan.capture_output);
}

#[test]
fn firecracker_uses_the_uncompressed_kernel() {
    assert_eq!(kernel_image_path("/work/bzImage"), "/work/linux-6.12.20/vmlinux");
    assert_eq!(kernel_image_path("/work/vmlinux.bin"), "/work/vmlinux.bin");
    let runner = FirecrackerRunner::new("/usr/bin/firecracker".to_string());
    let plan = runner.launch_plan(&sample_vm_config(), "3-4");
    assert!(plan.api_boot);
    assert!(plan.clear_stale);
    assert_eq!(plan.socket, "/tmp/fc-3-4.sock");
}

#[test]
fn firecracker_boot_sends_four_requests_in_order() {
    let config = sample_vm_config();
    let (mut boot, first) = FirecrackerBoot::new("/tmp/fc.sock", &config);
    assert!(matches!(first, BootAction::CheckSocket));
    assert_eq!(boot.phase(), BootPhase::WaitingForSocket { waited: 0 });

    let a = boot.step(BootEvent::SocketChecked { exists: false });
    assert!(matches!(a, BootAction::SleepThenCheck { ms } if ms == SOCKET_WAIT_MS));
    let a = boot.step(BootEvent::SocketChecked { exists: true });
    let mut urls = Vec::new();
    let mut action = a;
    loop {
        match action {
            BootAction::Put { args } => {
                assert_eq!(args[1], "--unix-socket");
                assert_eq!(args[2], "/tmp/fc.sock");
                assert_eq!(args[4], "PUT");
                urls.push(args[5].clone());
                action = boot.step(BootEvent::RequestDone { outcome: CallOutcome::Succeeded });
            }
            BootAction::Done => break,
            other => panic!("unexpected action {:?}", other),
        }
    }
    assert_eq!(urls.len(), 4);
    assert_eq!(
        urls,
        vec![
            "http://localhost/boot-source",
            "http://localhost/drives/root",
            "http://localhost/machine-config",
            "http://localhost/actions",
        ]
    );
    assert_eq!(boot.phase(), BootPhase::Booted);
    assert!(matches!(boot.step(BootEvent::SocketChecked { exists: true }), BootAction::Idle));
}

#[test]
fn firecracker_boot_gives_up() {
    let config = sample_vm_config();
    let (mut boot, _) = FirecrackerBoot::new("/tmp/fc.sock", &config);
    for _ in 0..SOCKET_WAIT_STEPS {
        let a = boot.step(BootEvent::SocketChecked { exists: false });
        assert!(matches!(a, BootAction::SleepThenCheck { .. }));
    }
    match boot.step(BootEvent::SocketChecked { exists: false }) {
        BootAction::Fail { message } => assert_eq!(message, "Firecracker socket not created"),
        other => panic!("unexpected action {:?}", other),
    }
    assert_eq!(boot.phase(), BootPhase::Failed);

    let (mut boot, _) = FirecrackerBoot::new("/tmp/fc.sock", &config);
    boot.step(BootEvent::SocketChecked { exists: true });
    match boot.step(BootEvent::RequestDone { outcome: CallOutcome::Failed { stderr: "bad".to_string() } }) {
        BootAction::Fail { message } => assert_eq!(message, "Failed to set boot source: bad"),
        other => panic!("unexpected action {:?}", other),
    }
}

#[test]
fn firecracker_instance_halts_through_its_socket() {
    let inst = FirecrackerInstance::new("/tmp/fc.sock".to_string(), "/tmp/fc.log".to_string());
    assert_eq!(inst.socket(), "/tmp/fc.sock");
    assert_eq!(inst.log_path(), "/tmp/fc.log");
    let args = inst.halt_args();
    assert!(args.contains(&"/tmp/fc.sock".to_string()));
}
