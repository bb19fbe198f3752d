use regex::Regex;
use lingbench::config::{Config, GlobalConfig, KernelConfig, LogConfig, ReportConfig, RootfsConfig, VmmConfig};
use lingbench::metrics::collector::MetricsCollector;
use lingbench::metrics::decimal::{parse_decimal, Decimal};
use lingbench::metrics::types::{clone_metrics, Metric, MetricBatch, RunStatus};
use lingbench::runner::batch::{BatchAction, BatchEvent, BatchPlan, SCENARIO_PAUSE_MS, VMM_PAUSE_MS};
use lingbench::runner::monitor::{RunMonitor, WatchAction, WatchEvent, WatchPhase, FLUSH_WAIT_MS};
use lingbench::runner::parse::{iops_from_text, metric_from_text, parse_scenario_metrics, trim_k, without_commas};
use lingbench::runner::scenario::{
    interrupt_before_spawn, interrupted_result, spawn_failed_result, spawn_failure, spawn_failure_lines, vm_config,
    vm_path, RunResult, RunStart,
    ScenarioRunner, SEPARATOR_EQ,
};
use lingbench::vmm::crosvm::CrosvmRunner;
use lingbench::vmm::registry::{AnyRunner, VmmRegistry};

fn value_of(d: &Decimal) -> f64 {
    d.to_text().parse().unwrap()
}

fn metrics_of(output: &str, scenario: &str) -> Vec<(String, f64)> {
    parse_scenario_metrics(output, scenario, 7).iter().map(|m| (m.name.clone(), value_of(&m.value))).collect()
}

fn sample_runner_config() -> Config {
    Config {
        workdir: "./build".to_string(),
        kernel: KernelConfig {
            version: "6.12.20".to_string(),
            source_url: None,
            sha256: None,
            config_fragment: None,
            arch: "x86_64".to_string(),
            extra_make_args: vec![],
        },
        rootfs: RootfsConfig {
            containerfile: "guest/rootfs/Containerfile".to_string(),
            size_mib: 512,
            builder: "podman".to_string(),
            formats: vec![],
        },
        vmm_dir: "./vmm".to_string(),
        vmm_configs: vec![
            VmmConfig { name: "crosvm".to_string(), binary: "/usr/bin/crosvm".to_string(), enabled: true },
            VmmConfig { name: "stratovirt".to_string(), binary: "/usr/bin/stratovirt".to_string(), enabled: false },
            VmmConfig { name: "firecracker".to_string(), binary: "/usr/bin/firecracker".to_string(), enabled: true },
        ],
        logs: LogConfig::default(),
        report: ReportConfig::default(),
        global: GlobalConfig::default(),
    }
}

fn result(vmm: &str, scenario: &str, error: Option<&str>) -> RunResult {
    RunResult {
        vmm: vmm.to_string(),
        scenario: scenario.to_string(),
        success: error.is_none(),
        error: error.map(|e| e.to_string()),
        duration_ms: Some(1),
        metrics: vec![],
    }
}

#[test]
fn test_run_result_structure() {
    let result = RunResult {
        vmm: "firecracker".to_string(),
        scenario: "cpu-sysbench".to_string(),
        success: true,
        error: None,
        duration_ms: Some(1000),
        metrics: vec![],
    };

    assert_eq!(result.vmm, "firecracker");
    assert!(result.success);
}

#[test]
fn test_parse_cpu_sysbench_events_per_second() {
    // This is pure parsing logic test, no real VM needed
    let output = r#"
sysbench 1.0.20 (from fixture)
Running CPU benchmark...
events per second: 5599.21
latency average: 0.18ms
"#;

    // Verify regex can match
    let re = Regex::new(r"events per second:\s*([0-9.]+)").unwrap();
    if let Some(caps) = re.captures(output) {
        let value: f64 = caps.get(1).unwrap().as_str().parse().unwrap();
        assert!((value - 5599.21).abs() < 0.01);
    } else {
        panic!("Failed to parse events per second from sysbench output");
    }
}

#[test]
fn test_parse_cpu_coremark_score() {
    let output = r#"
CoreMark 1.0:
  Score:          51872.111667
  (running jobs: 4)
"#;

    let re = Regex::new(r"CoreMark 1.0:\s*\n\s*Score:\s*([0-9.]+)").unwrap();
    if let Some(caps) = re.captures(output) {
        let value: f64 = caps.get(1).unwrap().as_str().parse().unwrap();
        assert!((value - 51872.11).abs() < 0.1);
    }
}

#[test]
fn test_parse_cpu_stress_bogo_ops() {
    let output = r#"
stress-ng --cpu 1 --timeout 10s --metrics-brief
stress-ng: info: [123] stress-ng 0.17.03.x86_64 started
stress-ng: info: [123] dispatching hogs: 1 cpu
stress-ng: metrc:[123] 206.00 bogo ops/s
"#;

    let re = Regex::new(r"stress-ng: metrc:\[[0-9]+\]\s*([0-9.]+)\s*bogo ops/s").unwrap();
    if let Some(caps) = re.captures(output) {
        let value: f64 = caps.get(1).unwrap().as_str().parse().unwrap();
        assert!((value - 206.0).abs() < 0.1);
    }
}

#[test]
fn test_parse_mem_sysbench_ops() {
    let output = r#"
sysbench 1.0.20: memory benchmark
Operations performed: 4,194,304 (4,035,815.42 ops/s)
"#;

    let re = Regex::new(r"\(([0-9,]+)\s*ops/s\)").unwrap();
    if let Some(caps) = re.captures(output) {
        let value_str = caps.get(1).unwrap().as_str().replace(',', "");
        let value: f64 = value_str.parse().unwrap();
        assert!((value - 4035815.42).abs() < 1.0);
    }
}

#[test]
fn test_parse_io_randread_iops() {
    let output = r#"
  read: IOPS=110000, BW=429MiB/s
"#;

    let re = Regex::new(r"IOPS=([0-9k.]+)").unwrap();
    if let Some(caps) = re.captures(output) {
        let value_str = caps.get(1).unwrap().as_str();
        // Support k suffix (e.g., "110k" -> 110000)
        let value: f64 = if value_str.ends_with('k') {
            value_str[..value_str.len() - 1].parse::<f64>().unwrap() * 1000.0
        } else {
            value_str.parse().unwrap()
        };
        assert!((value - 110000.0).abs() < 1.0);
    }
}

#[test]
fn test_parse_io_iops_with_k_suffix() {
    let re = Regex::new(r"IOPS=([0-9k.]+)").unwrap();

    let test_cases = vec![("IOPS=110k", 110000.0), ("IOPS=25.2k", 25200.0), ("IOPS=173k", 173000.0), ("IOPS=40700", 40700.0)];

    for (input, expected) in test_cases {
        if let Some(caps) = re.captures(input) {
            let value_str = caps.get(1).unwrap().as_str();
            let value: f64 = if value_str.ends_with('k') {
                value_str[..value_str.len() - 1].parse::<f64>().unwrap() * 1000.0
            } else {
                value_str.parse().unwrap()
            };
            assert!((value - expected).abs() < 1.0, "Failed for {}: got {}, expected {}", input, value, expected);
        }
    }
}

#[test]
fn library_reads_sysbench_cpu() {
    let output = "sysbench 1.0.20\nevents per second: 5599.21\nlatency average: 0.18ms\n";
    assert_eq!(metrics_of(output, "cpu-sysbench"), vec![("events_per_second".to_string(), 5599.21)]);
    let ms = parse_scenario_metrics(output, "cpu-sysbench", 42);
    assert_eq!(ms[0].ts, 42);
    assert_eq!(ms[0].value.whole, "5599");
    assert_eq!(ms[0].value.frac, "21");
    assert!(metrics_of("nothing here", "cpu-sysbench").is_empty());
}

#[test]
fn library_reads_coremark_and_memory() {
    assert_eq!(
        metrics_of("CoreMark 1.0: 51872.111667 / GCC", "cpu-coremark"),
        vec![("score".to_string(), 51872.111667)]
    );
    assert_eq!(
        metrics_of("Iterations/Sec   : 12345.5\n", "cpu-coremark"),
        vec![("score".to_string(), 12345.5)]
    );
    assert_eq!(
        metrics_of("Total operations: 100 (4035815.42 per second)\n", "mem-sysbench"),
        vec![("ops_per_second".to_string(), 4035815.42)]
    );
    assert_eq!(metrics_of("ops/s: 88.5\n", "mem-sysbench"), vec![("ops_per_second".to_string(), 88.5)]);
}

#[test]
fn library_reads_stress_ng() {
    let output = "stress-ng: metrc: [1] stressor bogo ops real time\nstress-ng: metrc: [1] cpu 2060 10.00 9.98 0.01 206.00 206.20\n";
    assert_eq!(metrics_of(output, "cpu-stress"), vec![("bogo_ops".to_string(), 206.00)]);
    assert!(metrics_of("stress-ng: info: cpu 1 2 3 4 5.0 6.0", "cpu-stress").is_empty());
}

#[test]
fn library_reads_fio_iops_with_k() {
    assert_eq!(metrics_of("  read: IOPS=110000, BW=429MiB/s", "io-randread"), vec![("iops".to_string(), 110000.0)]);
    assert_eq!(metrics_of("  write: IOPS=25.2k, BW=98MiB/s", "io-randwrite"), vec![("iops".to_string(), 25200.0)]);
    assert_eq!(metrics_of("IOPS=173k", "io-seqread"), vec![("iops".to_string(), 173000.0)]);
    let ms = parse_scenario_metrics("IOPS=25.2k", "io-randread", 0);
    assert_eq!(ms[0].value.whole, "25200");
    assert_eq!(ms[0].value.frac, "");
    assert_eq!(metrics_of("  write: IOPS=1000, BW=3906KiB/s", "io-seqwrite"), vec![("iops".to_string(), 1000.0)]);
}

#[test]
fn library_reads_meminfo_and_apps() {
    assert_eq!(
        metrics_of("MemTotal:  2048000 kB\nMemFree:   1024000 kB\n", "meminfo"),
        vec![("MemTotal_KB".to_string(), 2048000.0), ("MemFree_KB".to_string(), 1024000.0)]
    );
    assert_eq!(metrics_of("MemFree: 10 kB", "meminfo"), vec![("MemFree_KB".to_string(), 10.0)]);
    assert_eq!(metrics_of("SET: 95238.10 requests per second", "app-redis"), vec![("SET_req_per_sec".to_string(), 95238.10)]);
    assert_eq!(metrics_of("Requests/sec:  12000.5", "app-nginx"), vec![("requests_per_sec".to_string(), 12000.5)]);
    assert_eq!(metrics_of("STAT curr_connections 10", "app-memcached"), vec![("curr_connections".to_string(), 10.0)]);
    assert!(metrics_of("events per second: 1", "unknown").is_empty());
}

#[test]
fn metric_helpers() {
    assert_eq!(trim_k("25.2k"), "25.2");
    assert_eq!(trim_k("1kk"), "1");
    assert_eq!(trim_k("40700"), "40700");
    let m = metric_from_text("x", Some("1.5".to_string()), 3).unwrap();
    assert_eq!(m.name, "x");
    assert_eq!(m.ts, 3);
    assert!(metric_from_text("x", Some("1.2.3".to_string()), 3).is_none());
    assert!(metric_from_text("x", None, 3).is_none());
    let m = iops_from_text(Some("110k".to_string()), 0).unwrap();
    assert_eq!(value_of(&m.value), 110000.0);
    assert!(iops_from_text(Some("k".to_string()), 0).is_none());
}

#[test]
fn monitor_completes_on_marker() {
    let mut m = RunMonitor::new("firecracker", "cpu-sysbench");
    assert_eq!(m.start_line(), "firecracker | cpu-sysbench | running");
    let a = m.step(WatchEvent::Tick { interrupted: false, elapsed_ms: 10, serial: Some("booting".to_string()) });
    assert!(matches!(a, WatchAction::CheckRunning));
    let a = m.step(WatchEvent::Liveness { running: true, serial: None });
    assert!(matches!(a, WatchAction::Continue { progress: None, sleep_ms: 1 }));
    let a = m.step(WatchEvent::Tick { interrupted: false, elapsed_ms: 6000, serial: None });
    assert!(matches!(a, WatchAction::CheckRunning));
    match m.step(WatchEvent::Liveness { running: true, serial: None }) {
        WatchAction::Continue { progress: Some(line), .. } => assert_eq!(line, "firecracker | cpu-sysbench | running (6s)"),
        other => panic!("unexpected {:?}", other),
    }
    let a = m.step(WatchEvent::Tick { interrupted: false, elapsed_ms: 7000, serial: Some("done\nLINGBENCH_RESULT_END\n".to_string()) });
    assert!(matches!(a, WatchAction::Finish));
    assert!(m.completed());
    assert!(!m.timed_out());
    assert_eq!(m.phase(), WatchPhase::Stopped);
    assert!(matches!(m.step(WatchEvent::Flushed { serial: None }), WatchAction::Idle));

    let metrics = vec![Metric { name: "events_per_second".to_string(), value: parse_decimal("5.6").unwrap(), ts: 0 }];
    let r = m.result(11752, clone_metrics(&metrics));
    assert!(r.success);
    assert_eq!(r.error, None);
    assert_eq!(r.duration_ms, Some(11752));
    let b = m.batch(11752, &metrics);
    assert!(matches!(b.status, RunStatus::Completed { duration_ms: 11752 }));
    let lines = m.summary_lines(11752, &metrics, &vec!["5.6k".to_string()]);
    assert_eq!(lines[0], "firecracker | cpu-sysbench | ✓ | 11752ms | events_per_second=5.6k");
}

#[test]
fn monitor_times_out_and_interrupts() {
    let mut m = RunMonitor::new("crosvm", "app-redis");
    let a = m.step(WatchEvent::Tick { interrupted: false, elapsed_ms: 299_999, serial: None });
    assert!(matches!(a, WatchAction::CheckRunning));
    m.step(WatchEvent::Liveness { running: true, serial: None });
    let a = m.step(WatchEvent::Tick { interrupted: false, elapsed_ms: 300_000, serial: Some("LINGBENCH_RESULT_END".to_string()) });
    assert!(matches!(a, WatchAction::Finish));
    assert!(m.timed_out());
    assert!(!m.completed());
    let r = m.result(300_000, vec![]);
    assert_eq!(r.error, Some("Timeout".to_string()));
    assert_eq!(m.summary_lines(1, &vec![], &vec![])[0], "crosvm | app-redis | ✗ | Timeout");

    let mut m = RunMonitor::new("crosvm", "cpu-sysbench");
    let a = m.step(WatchEvent::Tick { interrupted: false, elapsed_ms: 120_000, serial: None });
    assert!(matches!(a, WatchAction::Finish));
    assert!(m.timed_out());

    let mut m = RunMonitor::new("crosvm", "cpu-sysbench");
    let a = m.step(WatchEvent::Tick { interrupted: true, elapsed_ms: 500_000, serial: Some("LINGBENCH_RESULT_END".to_string()) });
    assert!(matches!(a, WatchAction::Interrupt));
    assert!(!m.completed());
    assert!(!m.timed_out());
}

#[test]
fn monitor_waits_for_the_serial_flush() {
    let mut m = RunMonitor::new("stratovirt", "cpu-stress");
    m.step(WatchEvent::Tick { interrupted: false, elapsed_ms: 1, serial: None });
    let a = m.step(WatchEvent::Liveness { running: false, serial: Some("partial".to_string()) });
    assert!(matches!(a, WatchAction::WaitForFlush { ms } if ms == FLUSH_WAIT_MS));
    let a = m.step(WatchEvent::Flushed { serial: Some("LINGBENCH_RESULT_END".to_string()) });
    assert!(matches!(a, WatchAction::Finish));
    assert!(m.completed());

    let mut m = RunMonitor::new("stratovirt", "cpu-stress");
    m.step(WatchEvent::Tick { interrupted: false, elapsed_ms: 1, serial: None });
    m.step(WatchEvent::Liveness { running: false, serial: None });
    m.step(WatchEvent::Flushed { serial: None });
    assert!(!m.completed());
    let r = m.result(5, vec![]);
    assert_eq!(r.error, Some("Process exited".to_string()));
    assert_eq!(m.summary_lines(5, &vec![], &vec![])[0], "stratovirt | cpu-stress | ✗ | Process exited");
}

#[test]
fn batch_runs_every_scenario_on_every_vmm() {
    let (mut plan, mut action) = BatchPlan::new(
        vec!["a".to_string(), "b".to_string()],
        vec!["s1".to_string(), "s2".to_string()],
    );
    let mut runs = Vec::new();
    let mut prints = 0;
    loop {
        action = match action {
            BatchAction::CheckInterrupt => plan.step(BatchEvent::Interrupt { flag: false }),
            BatchAction::Run { vmm, scenario } => {
                runs.push(format!("{}/{}", vmm, scenario));
                plan.step(BatchEvent::Ran { result: result(&vmm, &scenario, None) })
            }
            BatchAction::Sleep { ms } => {
                assert!(ms == SCENARIO_PAUSE_MS || ms == VMM_PAUSE_MS);
                plan.step(BatchEvent::Proceed)
            }
            BatchAction::Print { lines } => {
                assert_eq!(lines[0], SEPARATOR_EQ);
                assert!(lines[1].starts_with("[VMM Finished] "));
                prints += 1;
                plan.step(BatchEvent::Proceed)
            }
            BatchAction::Done => break,
            BatchAction::Idle => panic!("unexpected idle"),
        };
    }
    assert_eq!(runs, vec!["a/s1", "a/s2", "b/s1", "b/s2"]);
    assert_eq!(prints, 2);
    assert_eq!(plan.into_results().len(), 4);
}

#[test]
fn batch_skips_the_rest_of_a_vmm_that_failed_to_start() {
    let (mut plan, mut action) = BatchPlan::new(
        vec!["a".to_string(), "b".to_string()],
        vec!["s1".to_string(), "s2".to_string()],
    );
    let mut runs = Vec::new();
    let mut prints = 0;
    loop {
        action = match action {
            BatchAction::CheckInterrupt => plan.step(BatchEvent::Interrupt { flag: false }),
            BatchAction::Run { vmm, scenario } => {
                runs.push(format!("{}/{}", vmm, scenario));
                let r = if vmm == "a" { spawn_failed_result(&vmm, &scenario, "boom", 3) } else { result(&vmm, &scenario, None) };
                plan.step(BatchEvent::Ran { result: r })
            }
            BatchAction::Sleep { .. } => plan.step(BatchEvent::Proceed),
            BatchAction::Print { .. } => {
                prints += 1;
                plan.step(BatchEvent::Proceed)
            }
            BatchAction::Done => break,
            BatchAction::Idle => panic!("unexpected idle"),
        };
    }
    assert_eq!(runs, vec!["a/s1", "b/s1", "b/s2"]);
    assert_eq!(prints, 1);
    let results = plan.into_results();
    assert_eq!(results.len(), 3);
    assert_eq!(results[0].error, Some("VMM spawn failed: boom".to_string()));
}

#[test]
fn batch_stops_on_interrupt() {
    let (mut plan, action) = BatchPlan::new(vec!["a".to_string(), "b".to_string()], vec!["s1".to_string()]);
    assert!(matches!(action, BatchAction::CheckInterrupt));
    let action = plan.step(BatchEvent::Interrupt { flag: false });
    assert!(matches!(action, BatchAction::Run { .. }));
    let action = plan.step(BatchEvent::Ran { result: interrupted_result("a", "s1", 2) });
    assert!(matches!(action, BatchAction::CheckInterrupt));
    let action = plan.step(BatchEvent::Interrupt { flag: true });
    assert!(matches!(action, BatchAction::Sleep { ms: VMM_PAUSE_MS }));
    let action = plan.step(BatchEvent::Proceed);
    assert!(matches!(action, BatchAction::CheckInterrupt));
    let action = plan.step(BatchEvent::Interrupt { flag: true });
    assert!(matches!(action, BatchAction::Done));
    assert_eq!(plan.into_results().len(), 1);

    let (_, action) = BatchPlan::new(vec![], vec!["s1".to_string()]);
    assert!(matches!(action, BatchAction::Done));
}

#[test]
fn runner_prepares_configured_and_registered_vmms() {
    let mut registry = VmmRegistry::new();
    registry.register(AnyRunner::Crosvm(CrosvmRunner::new("/usr/bin/crosvm".to_string())));
    let runner = ScenarioRunner::new(sample_runner_config(), registry, None, "/etc/lingbench".to_string());
    let p = runner.prepare("crosvm").ok().unwrap();
    assert_eq!(p.runner.binary_path(), "/usr/bin/crosvm");
    assert_eq!(p.workdir, "/etc/lingbench/build");
    assert_eq!(p.kernel, "bzImage");
    assert_eq!(p.rootfs, "rootfs.ext4");
    match runner.prepare("qemu") {
        Err(e) => assert_eq!(e, "VMM qemu not found in config"),
        Ok(_) => panic!("qemu is not configured"),
    }
    match runner.prepare("firecracker") {
        Err(e) => assert_eq!(e, "VMM runner firecracker not registered"),
        Ok(_) => panic!("firecracker is not registered"),
    }
    assert_eq!(runner.get_all_scenarios().len(), 12);
    assert_eq!(runner.get_all_scenarios()[8], "io-seqwrite");
    let (vmms, defaulted) = runner.batch_vmms(None);
    assert_eq!(vmms, vec!["crosvm".to_string(), "firecracker".to_string()]);
    assert!(defaulted);
    let (vmms, defaulted) = runner.batch_vmms(Some(vec!["x".to_string()]));
    assert_eq!(vmms, vec!["x".to_string()]);
    assert!(!defaulted);
    assert_eq!(runner.batch_scenarios(None), lingbench::catalog::get_all_scenarios());
}

#[test]
fn runner_records_into_its_collector() {
    let mut runner = ScenarioRunner::new(
        sample_runner_config(),
        VmmRegistry::new(),
        Some(MetricsCollector::new(false, "/tmp".to_string())),
        ".".to_string(),
    );
    runner.record(MetricBatch {
        batch_id: 1,
        scenario: "cpu-sysbench".to_string(),
        vmm: "crosvm".to_string(),
        metrics: vec![],
        status: RunStatus::Running,
    });
    let c = runner.collector().as_ref().unwrap();
    assert_eq!(c.query("crosvm", "cpu-sysbench").unwrap().len(), 1);
}

#[test]
fn vm_paths_and_configs() {
    assert_eq!(vm_path("/w", "bzImage"), ("/w/bzImage".to_string(), true));
    assert_eq!(vm_path("/w", "/k/bzImage"), ("/k/bzImage".to_string(), false));
    let c = vm_config("/k".to_string(), "/r".to_string(), "meminfo");
    assert_eq!(c.scenario, "meminfo");
    assert!(c.socket_path.is_none());
    assert_eq!(
        spawn_failure_lines("crosvm", "no binary"),
        vec![SEPARATOR_EQ.to_string(), "[VMM Failed] crosvm | Error: no binary".to_string(), SEPARATOR_EQ.to_string()]
    );
}

#[test]
fn library_reads_the_fixtures_of_the_parse_tests() {
    let sysbench = "\nsysbench 1.0.20 (from fixture)\nRunning CPU benchmark...\nevents per second: 5599.21\nlatency average: 0.18ms\n";
    assert_eq!(metrics_of(sysbench, "cpu-sysbench"), vec![("events_per_second".to_string(), 5599.21)]);

    let coremark = "\nCoreMark 1.0:\n  Score:          51872.111667\n  (running jobs: 4)\n";
    let m = metrics_of(coremark, "cpu-coremark");
    assert_eq!(m.len(), 1);
    assert_eq!(m[0].0, "score");
    assert!((m[0].1 - 51872.11).abs() < 0.1);

    let stress = "\nstress-ng --cpu 1 --timeout 10s --metrics-brief\nstress-ng: info: [123] stress-ng 0.17.03.x86_64 started\nstress-ng: info: [123] dispatching hogs: 1 cpu\nstress-ng: metrc:[123] 206.00 bogo ops/s\n";
    let m = metrics_of(stress, "cpu-stress");
    assert_eq!(m.len(), 1);
    assert_eq!(m[0].0, "bogo_ops");
    assert!((m[0].1 - 206.0).abs() < 0.1);

    let mem = "\nsysbench 1.0.20: memory benchmark\nOperations performed: 4,194,304 (4,035,815.42 ops/s)\n";
    let m = metrics_of(mem, "mem-sysbench");
    assert_eq!(m.len(), 1);
    assert_eq!(m[0].0, "ops_per_second");
    assert!((m[0].1 - 4035815.42).abs() < 1.0);

    let fio = "\n  read: IOPS=110000, BW=429MiB/s\n";
    assert_eq!(metrics_of(fio, "io-randread"), vec![("iops".to_string(), 110000.0)]);
    for (input, expected) in [("IOPS=110k", 110000.0), ("IOPS=25.2k", 25200.0), ("IOPS=173k", 173000.0), ("IOPS=40700", 40700.0)] {
        let m = metrics_of(input, "io-randread");
        assert_eq!(m.len(), 1, "{}", input);
        assert!((m[0].1 - expected).abs() < 1.0, "{}", input);
    }
}

#[test]
fn commas_are_dropped() {
    assert_eq!(without_commas("4,035,815.42"), "4035815.42");
    assert_eq!(without_commas(""), "");
}

#[test]
fn runs_begin_with_the_interrupt_check() {
    let mut registry = VmmRegistry::new();
    registry.register(AnyRunner::Crosvm(CrosvmRunner::new("/usr/bin/crosvm".to_string())));
    let runner = ScenarioRunner::new(sample_runner_config(), registry, None, ".".to_string());
    match runner.begin_run("crosvm", "cpu-sysbench", true, 3) {
        Ok(RunStart::Interrupted(r)) => {
            assert_eq!(r.error, Some("Interrupted".to_string()));
            assert_eq!(r.duration_ms, Some(3));
        }
        _ => panic!("an interrupt ends the run"),
    }
    assert!(matches!(runner.begin_run("crosvm", "cpu-sysbench", false, 0), Ok(RunStart::Ready(_))));
    match runner.begin_run("qemu", "cpu-sysbench", false, 0) {
        Err(e) => assert_eq!(e, "VMM qemu not found in config"),
        Ok(_) => panic!("qemu is not configured"),
    }
    assert!(interrupt_before_spawn("crosvm", "s", false, 1).is_none());
    assert_eq!(interrupt_before_spawn("crosvm", "s", true, 1).unwrap().error, Some("Interrupted".to_string()));
    let (lines, r) = spawn_failure("crosvm", "s", "boom", 2);
    assert_eq!(lines[1], "[VMM Failed] crosvm | Error: boom");
    assert_eq!(r.error, Some("VMM spawn failed: boom".to_string()));
}
