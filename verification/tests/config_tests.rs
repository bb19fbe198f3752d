use lingbench::commands::{
    list_lines, names_contain, register_selected, report_file_name, results_path, select_scenarios, select_vmms,
    DEFAULT_OUTPUT_DIR,
};
use lingbench::vmm::traits::ProbeOutcome;
use lingbench::config::{
    default_arch, default_builder, default_containerfile, default_size_mib, default_vmm_dir, default_workdir, Config,
    GlobalConfig, KernelConfig, LogConfig, ReportConfig, RootfsConfig, VmmConfig,
};
use lingbench::kernel;
use lingbench::paths::{join_path, path_is_absolute};
use lingbench::rootfs;

/// The configuration that the TOML text of a test describes, written out field by field.
fn config_with(vmms: Vec<(&str, &str, bool)>) -> Config {
    Config {
        workdir: "./build".to_string(),
        kernel: KernelConfig {
            version: "6.12.20".to_string(),
            source_url: None,
            sha256: None,
            config_fragment: None,
            arch: "x86_64".to_string(),
            extra_make_args: vec![],
        },
        rootfs: RootfsConfig {
            containerfile: "guest/rootfs/Containerfile".to_string(),
            size_mib: 512,
            builder: "podman".to_string(),
            formats: vec![lingbench::config::RootfsFormat::Ext4],
        },
        vmm_dir: default_vmm_dir(),
        vmm_configs: vmms
            .into_iter()
            .map(|(n, b, e)| VmmConfig { name: n.to_string(), binary: b.to_string(), enabled: e })
            .collect(),
        logs: LogConfig { level: "basic".to_string(), enabled: true, dir: "./logs".to_string() },
        report: ReportConfig { enabled: true, output_dir: "./results".to_string() },
        global: GlobalConfig::default(),
    }
}

#[test]
fn test_load_two_vmm() {
    let config = config_with(vec![
        ("firecracker", "/usr/bin/firecracker", true),
        ("cloud-hypervisor", "/usr/bin/cloud-hypervisor", true),
    ])
    .with_resolved_dirs("/tmp/lingbench_test_0.toml");
    let enabled = config.get_enabled_vmm();
    assert_eq!(enabled.len(), 2);
    assert_eq!(enabled[0].name, "firecracker");
    assert_eq!(enabled[1].name, "cloud-hypervisor");
}

#[test]
fn test_get_enabled_vmm() {
    // Only firecracker is explicitly enabled; crosvm uses explicit false.
    let config = config_with(vec![("firecracker", "/usr/bin/firecracker", true), ("crosvm", "/usr/bin/crosvm", false)])
        .with_resolved_dirs("/tmp/lingbench_test_1.toml");
    let enabled = config.get_enabled_vmm();
    println!("vmm[0] {} enabled={}", config.vmm_configs[0].name, config.vmm_configs[0].enabled);
    println!("vmm[1] {} enabled={}", config.vmm_configs[1].name, config.vmm_configs[1].enabled);
    println!("enabled.len()={}", enabled.len());
    // Both are explicitly set; firecracker=true, crosvm=false
    assert_eq!(enabled.len(), 1);
    assert_eq!(enabled[0].name, "firecracker");
    assert_eq!(config.vmm_configs[0].enabled, true);
    assert_eq!(config.vmm_configs[1].enabled, false);
}

#[test]
fn dirs_are_taken_relative_to_the_config_file() {
    let config = config_with(vec![]).with_resolved_dirs("/etc/lingbench/lingbench.toml");
    assert_eq!(config.logs.dir, "/etc/lingbench/./logs");
    assert_eq!(config.report.output_dir, "/etc/lingbench/./results");
    assert_eq!(config.kernel_dir(), "./build/kernel");
    assert_eq!(config.rootfs_dir(), "./build/rootfs");
    assert_eq!(config.download_dir(), "./build/downloads");

    let mut c = config_with(vec![]);
    c.report.output_dir = "/abs/out".to_string();
    let c = c.with_resolved_dirs("lingbench.toml");
    assert_eq!(c.report.output_dir, "/abs/out");
    assert_eq!(c.logs.dir, "./logs");
}

#[test]
fn defaults() {
    assert_eq!(default_workdir(), "build");
    assert_eq!(default_vmm_dir(), "./vmm");
    assert_eq!(default_arch(), "x86_64");
    assert_eq!(default_containerfile(), "guest/rootfs/Containerfile");
    assert_eq!(default_size_mib(), 512);
    assert_eq!(default_builder(), "podman");
    let logs = LogConfig::default();
    assert_eq!(logs.level, "basic");
    assert!(logs.enabled);
    assert_eq!(logs.dir, "./logs");
    let report = ReportConfig::default();
    assert!(report.enabled);
    assert_eq!(report.output_dir, "./results");
}

#[test]
fn binaries_resolve_against_the_vmm_dir() {
    let relative = VmmConfig { name: "crosvm".to_string(), binary: "crosvm/crosvm".to_string(), enabled: true };
    assert_eq!(relative.resolved_binary("./vmm"), "./vmm/crosvm/crosvm");
    let absolute = VmmConfig { name: "crosvm".to_string(), binary: "/usr/bin/crosvm".to_string(), enabled: true };
    assert_eq!(absolute.resolved_binary("./vmm"), "/usr/bin/crosvm");
}

#[test]
fn path_rules() {
    assert!(path_is_absolute("/a"));
    assert!(!path_is_absolute("a/b"));
    assert!(!path_is_absolute(""));
    assert_eq!(join_path("a", "b"), "a/b");
    assert_eq!(join_path("a/", "b"), "a/b");
    assert_eq!(join_path("", "b"), "b");
    assert_eq!(join_path("a", "/b"), "/b");
}

#[test]
fn selecting_vmms() {
    let configs = config_with(vec![("firecracker", "/f", true), ("crosvm", "/c", false), ("stratovirt", "/s", true)]).vmm_configs;
    let enabled = select_vmms(&configs, &None).unwrap();
    assert_eq!(enabled.iter().map(|c| c.name.as_str()).collect::<Vec<_>>(), vec!["firecracker", "stratovirt"]);
    let disabled_only = config_with(vec![("crosvm", "/c", false)]).vmm_configs;
    match select_vmms(&disabled_only, &None) {
        Err(e) => assert_eq!(e, "No VMMs selected"),
        Ok(_) => panic!("a disabled VMM is not run by default"),
    }
    let some = select_vmms(&configs, &Some(vec!["stratovirt".to_string(), "firecracker".to_string()])).unwrap();
    assert_eq!(some.iter().map(|c| c.name.as_str()).collect::<Vec<_>>(), vec!["firecracker", "stratovirt"]);
    match select_vmms(&configs, &Some(vec!["invalid-vmm-name".to_string()])) {
        Err(e) => assert_eq!(e, "No VMMs selected"),
        Ok(_) => panic!("an unknown VMM selects nothing"),
    }
    assert!(names_contain(&vec!["a".to_string(), "b".to_string()], "b"));
    assert!(!names_contain(&vec![], "b"));
}

#[test]
fn selecting_scenarios() {
    assert_eq!(select_scenarios(None).unwrap().len(), 12);
    assert_eq!(select_scenarios(Some(vec!["all".to_string()])).unwrap().len(), 12);
    assert_eq!(
        select_scenarios(Some(vec!["cpu-sysbench".to_string(), "io-randread".to_string()])).unwrap(),
        vec!["cpu-sysbench".to_string(), "io-randread".to_string()]
    );
    assert_eq!(
        select_scenarios(Some(vec!["cpu-sysbench".to_string(), "invalid-scenario".to_string(), "nope".to_string()])),
        Err("Unknown scenario: invalid-scenario".to_string())
    );
    assert_eq!(select_scenarios(Some(vec!["invalid-scenario".to_string(), "all".to_string()])).unwrap().len(), 12);
}

#[test]
fn listing() {
    let names = vec!["firecracker".to_string(), "crosvm".to_string()];
    let vmm_only = list_lines(&names, true, false);
    assert_eq!(vmm_only, vec!["Available VMMs:", "  - firecracker", "  - crosvm"]);
    let scenarios = list_lines(&names, false, true);
    assert_eq!(scenarios.len(), 13);
    assert_eq!(scenarios[0], "Available Scenarios:");
    assert_eq!(scenarios[1], "  - cpu-sysbench (CPU Sysbench)");
    let both = list_lines(&names, false, false);
    assert_eq!(both.len(), 3 + 1 + 12);
    assert_eq!(both[3], "\nAvailable Scenarios:");
}

#[test]
fn output_names() {
    assert_eq!(DEFAULT_OUTPUT_DIR, "lingbench_results");
    assert_eq!(report_file_name("2026-04-28_12-00"), "lingbench_Results_2026-04-28_12-00.html");
    assert_eq!(results_path("lingbench_results"), "lingbench_results/results.json");
}

#[test]
fn builds_report_that_they_are_unavailable() {
    let config = config_with(vec![]);
    assert_eq!(kernel::build(&config), Err("kernel build requires V2 config update".to_string()));
    assert_eq!(rootfs::build(&config), Err("rootfs build requires V2 config update".to_string()));
    assert_eq!(kernel::artifact_path("x86_64"), "arch/x86/boot/bzImage");
    assert_eq!(kernel::artifact_path("aarch64"), "arch/arm64/boot/Image");
    assert_eq!(kernel::artifact_path("riscv64"), "vmlinux");
}

#[test]
fn registering_selected_vmms_warns_about_failures() {
    let configs = config_with(vec![
        ("firecracker", "/usr/bin/firecracker", true),
        ("qemu", "/usr/bin/qemu", true),
        ("crosvm", "/usr/bin/crosvm", true),
        ("stratovirt", "/usr/bin/stratovirt", true),
    ])
    .vmm_configs;
    let selected = select_vmms(&configs, &None).unwrap();
    let outcomes = vec![
        ProbeOutcome::Passed,
        ProbeOutcome::Passed,
        ProbeOutcome::Failed,
        ProbeOutcome::Unavailable("permission denied".to_string()),
    ];
    let (registry, warnings) = register_selected(&selected, outcomes);
    assert_eq!(registry.names(), vec!["firecracker".to_string()]);
    assert_eq!(
        warnings,
        vec![
            "Warning: Failed to detect VMM qemu at /usr/bin/qemu: Unknown VMM binary: /usr/bin/qemu".to_string(),
            "Warning: Failed to detect VMM crosvm at /usr/bin/crosvm: Crosvm binary not found".to_string(),
            "Warning: Failed to detect VMM stratovirt at /usr/bin/stratovirt: permission denied".to_string(),
        ]
    );
}
