//! The scenarios and VMMs that the command line and the report describe.
use vstd::prelude::*;
use crate::text::{str_eq, views};

verus! {

/// How a scenario is presented.
#[derive(Debug)]
pub struct ScenarioMeta {
    pub display_name: String,
    pub unit: String,
    pub subtitle: String,
    pub tooltip: String,
    pub run_cmd: String,
}

pub struct ScenarioMetaView {
    pub display_name: Seq<char>,
    pub unit: Seq<char>,
    pub subtitle: Seq<char>,
    pub tooltip: Seq<char>,
    pub run_cmd: Seq<char>,
}

impl View for ScenarioMeta {
    type V = ScenarioMetaView;

    open spec fn view(&self) -> ScenarioMetaView {
        ScenarioMetaView {
            display_name: self.display_name@,
            unit: self.unit@,
            subtitle: self.subtitle@,
            tooltip: self.tooltip@,
            run_cmd: self.run_cmd@,
        }
    }
}

/// The scenarios, in the order in which they are listed and tabulated.
pub open spec fn spec_all_scenarios() -> Seq<Seq<char>> {
    seq!["cpu-sysbench"@, "cpu-coremark"@, "cpu-stress"@, "mem-sysbench"@, "meminfo"@, "io-randread"@, "io-randwrite"@, "io-seqread"@, "io-seqwrite"@, "app-redis"@, "app-nginx"@, "app-memcached"@]
}

/// How each known scenario is presented.
pub open spec fn spec_scenario_meta(name: Seq<char>) -> Option<ScenarioMetaView> {
    if name == "cpu-sysbench"@ {
        Some(ScenarioMetaView {
            display_name: "CPU Sysbench"@,
            unit: "events/s"@,
            subtitle: "Tool: sysbench 1.0.20 | Test: 10s, 1 thread, primes ≤10000"@,
            tooltip: "CPU Sysbench: Measures CPU performance by calculating prime numbers.\nTool: sysbench 1.0.20\nTest: 10 seconds, 1 thread, prime numbers up to 10000\nCmd: sysbench cpu --threads=1 --time=10 run"@,
            run_cmd: "lingbench run --scenario cpu-sysbench --vmm <vmm>"@,
        })
    } else if name == "cpu-coremark"@ {
        Some(ScenarioMetaView {
            display_name: "CPU Coremark Score"@,
            unit: "CoreMark"@,
            subtitle: "Tool: CoreMark v1.0 | Test: Single-threaded"@,
            tooltip: "CPU Coremark: Standard CPU benchmark measuring integer and floating-point performance.\nTool: CoreMark v1.0\nTest: Single-threaded performance\nCmd: coremark"@,
            run_cmd: "lingbench run --scenario cpu-coremark --vmm <vmm>"@,
        })
    } else if name == "cpu-stress"@ {
        Some(ScenarioMetaView {
            display_name: "CPU Stress"@,
            unit: "bogo ops/s"@,
            subtitle: "Tool: stress 1.4.12 | Test: 10s, 1 worker"@,
            tooltip: "CPU Stress: Measures CPU stress using bogo operations.\nTool: stress 1.4.12\nTest: 10 seconds, 1 worker\nCmd: stress-ng --cpu 1 --timeout 10s --metrics-brief"@,
            run_cmd: "lingbench run --scenario cpu-stress --vmm <vmm>"@,
        })
    } else if name == "mem-sysbench"@ {
        Some(ScenarioMetaView {
            display_name: "Memory Sysbench"@,
            unit: "ops/s"@,
            subtitle: "Tool: sysbench 1.0.20 | Test: 4GB memory, sequential access"@,
            tooltip: "Memory Sysbench: Measures memory bandwidth and latency.\nTool: sysbench 1.0.20\nTest: 4GB memory, sequential access\nCmd: sysbench memory --memory-total-size=4G run"@,
            run_cmd: "lingbench run --scenario mem-sysbench --vmm <vmm>"@,
        })
    } else if name == "meminfo"@ {
        Some(ScenarioMetaView {
            display_name: "Memory Info"@,
            unit: "KB"@,
            subtitle: "Tool: /proc/meminfo | Test: Read memory info"@,
            tooltip: "Memory Info: Displays system memory information.\nTool: /proc/meminfo\nCmd: cat /proc/meminfo"@,
            run_cmd: "lingbench run --scenario meminfo --vmm <vmm>"@,
        })
    } else if name == "io-randread"@ {
        Some(ScenarioMetaView {
            display_name: "IO Random Read"@,
            unit: "IOPS"@,
            subtitle: "Tool: fio 3.36 | Test: 30s, 4KB blocks, random read"@,
            tooltip: "IO Random Read: Measures random read performance with 4KB blocks.\nTool: fio 3.36\nTest: 30 seconds, 4KB block size, random read\nCmd: fio --name=randread --filename=/tmp/fio.bin --size=256M --rw=randread --bs=4k --ioengine=libaio --iodepth=32 --direct=1 --runtime=10 --time_based --group_reporting"@,
            run_cmd: "lingbench run --scenario io-randread --vmm <vmm>"@,
        })
    } else if name == "io-randwrite"@ {
        Some(ScenarioMetaView {
            display_name: "IO Random Write"@,
            unit: "IOPS"@,
            subtitle: "Tool: fio 3.36 | Test: 30s, 4KB blocks, random write"@,
            tooltip: "IO Random Write: Measures random write performance with 4KB blocks.\nTool: fio 3.36\nTest: 30 seconds, 4KB block size, random write\nCmd: fio --name=randwrite --filename=/tmp/fio.bin --size=256M --rw=randwrite --bs=4k --ioengine=libaio --iodepth=32 --direct=1 --runtime=10 --time_based --group_reporting"@,
            run_cmd: "lingbench run --scenario io-randwrite --vmm <vmm>"@,
        })
    } else if name == "io-seqread"@ {
        Some(ScenarioMetaView {
            display_name: "IO Sequential Read"@,
            unit: "IOPS"@,
            subtitle: "Tool: fio 3.36 | Test: 30s, 4KB blocks, sequential read"@,
            tooltip: "IO Sequential Read: Measures sequential read performance with 4KB blocks.\nTool: fio 3.36\nTest: 30 seconds, 4KB block size, sequential read\nCmd: fio --name=seqread --filename=/tmp/fio.bin --size=256M --rw=read --bs=1M --ioengine=libaio --iodepth=16 --direct=1 --runtime=10 --time_based --group_reporting"@,
            run_cmd: "lingbench run --scenario io-seqread --vmm <vmm>"@,
        })
    } else if name == "io-seqwrite"@ {
        Some(ScenarioMetaView {
            display_name: "IO Sequential Write"@,
            unit: "IOPS"@,
            subtitle: "Tool: fio 3.36 | Test: 30s, 4KB blocks, sequential write"@,
            tooltip: "IO Sequential Write: Measures sequential write performance with 4KB blocks.\nTool: fio 3.36\nTest: 30 seconds, 4KB block size, sequential write\nCmd: fio --name=seqwrite --filename=/tmp/fio.bin --size=256M --rw=write --bs=1M --ioengine=libaio --iodepth=16 --direct=1 --runtime=10 --time_based --group_reporting"@,
            run_cmd: "lingbench run --scenario io-seqwrite --vmm <vmm>"@,
        })
    } else if name == "app-redis"@ {
        Some(ScenarioMetaView {
            display_name: "Redis GET"@,
            unit: "ops/s"@,
            subtitle: "Tool: redis-benchmark | Test: GET operations"@,
            tooltip: "Redis GET: Measures Redis GET operation throughput.\nTool: redis-benchmark\nTest: GET operations\nCmd: redis-server --daemonize yes && redis-benchmark -q -n 100000 -c 50 -P 16"@,
            run_cmd: "lingbench run --scenario app-redis --vmm <vmm>"@,
        })
    } else if name == "app-nginx"@ {
        Some(ScenarioMetaView {
            display_name: "Nginx QPS"@,
            unit: "req/s"@,
            subtitle: "Tool: wrk | Test: HTTP requests per second"@,
            tooltip: "Nginx QPS: Measures Nginx HTTP request throughput.\nTool: wrk\nTest: HTTP requests per second\nCmd: nginx && wrk -t2 -c64 -d10s http://127.0.0.1/"@,
            run_cmd: "lingbench run --scenario app-nginx --vmm <vmm>"@,
        })
    } else if name == "app-memcached"@ {
        Some(ScenarioMetaView {
            display_name: "Memcached QPS"@,
            unit: "ops/s"@,
            subtitle: "Tool: memaslap | Test: GET operations"@,
            tooltip: "Memcached QPS: Measures Memcached GET operation throughput.\nTool: masaslap\nTest: GET operations\nCmd: memcached -u nobody -d && nc -w1 127.0.0.1 11211"@,
            run_cmd: "lingbench run --scenario app-memcached --vmm <vmm>"@,
        })
    } else {
        None
    }
}

/// Every scenario that is listed has a presentation.
pub proof fn lemma_listed_scenarios_have_meta(i: int)
    requires
        0 <= i < spec_all_scenarios().len(),
    ensures
        spec_scenario_meta(spec_all_scenarios()[i]).is_some(),
{
    if i == 0 {
        assert(spec_scenario_meta(spec_all_scenarios()[0]).is_some());
    } else if i == 1 {
        assert(spec_scenario_meta(spec_all_scenarios()[1]).is_some());
    } else if i == 2 {
        assert(spec_scenario_meta(spec_all_scenarios()[2]).is_some());
    } else if i == 3 {
        assert(spec_scenario_meta(spec_all_scenarios()[3]).is_some());
    } else if i == 4 {
        assert(spec_scenario_meta(spec_all_scenarios()[4]).is_some());
    } else if i == 5 {
        assert(spec_scenario_meta(spec_all_scenarios()[5]).is_some());
    } else if i == 6 {
        assert(spec_scenario_meta(spec_all_scenarios()[6]).is_some());
    } else if i == 7 {
        assert(spec_scenario_meta(spec_all_scenarios()[7]).is_some());
    } else if i == 8 {
        assert(spec_scenario_meta(spec_all_scenarios()[8]).is_some());
    } else if i == 9 {
        assert(spec_scenario_meta(spec_all_scenarios()[9]).is_some());
    } else if i == 10 {
        assert(spec_scenario_meta(spec_all_scenarios()[10]).is_some());
    } else if i == 11 {
        assert(spec_scenario_meta(spec_all_scenarios()[11]).is_some());
    }
}

/// The names of all scenarios.
pub fn get_all_scenarios() -> (r: Vec<String>)
    ensures
        views(r@) == spec_all_scenarios(),
{
    let mut r: Vec<String> = Vec::new();
    r.push("cpu-sysbench".to_owned());
    r.push("cpu-coremark".to_owned());
    r.push("cpu-stress".to_owned());
    r.push("mem-sysbench".to_owned());
    r.push("meminfo".to_owned());
    r.push("io-randread".to_owned());
    r.push("io-randwrite".to_owned());
    r.push("io-seqread".to_owned());
    r.push("io-seqwrite".to_owned());
    r.push("app-redis".to_owned());
    r.push("app-nginx".to_owned());
    r.push("app-memcached".to_owned());
    assert(views(r@) =~= spec_all_scenarios());
    r
}

/// How the scenario called `name` is presented, if it is known.
pub fn get_scenario_meta(name: &str) -> (r: Option<ScenarioMeta>)
    ensures
        match r {
            Some(m) => spec_scenario_meta(name@) == Some(m@),
            None => spec_scenario_meta(name@).is_none(),
        },
{
    if str_eq(name, "cpu-sysbench") {
        Some(ScenarioMeta {
            display_name: "CPU Sysbench".to_owned(),
            unit: "events/s".to_owned(),
            subtitle: "Tool: sysbench 1.0.20 | Test: 10s, 1 thread, primes ≤10000".to_owned(),
            tooltip: "CPU Sysbench: Measures CPU performance by calculating prime numbers.\nTool: sysbench 1.0.20\nTest: 10 seconds, 1 thread, prime numbers up to 10000\nCmd: sysbench cpu --threads=1 --time=10 run".to_owned(),
            run_cmd: "lingbench run --scenario cpu-sysbench --vmm <vmm>".to_owned(),
        })
    } else if str_eq(name, "cpu-coremark") {
        Some(ScenarioMeta {
            display_name: "CPU Coremark Score".to_owned(),
            unit: "CoreMark".to_owned(),
            subtitle: "Tool: CoreMark v1.0 | Test: Single-threaded".to_owned(),
            tooltip: "CPU Coremark: Standard CPU benchmark measuring integer and floating-point performance.\nTool: CoreMark v1.0\nTest: Single-threaded performance\nCmd: coremark".to_owned(),
            run_cmd: "lingbench run --scenario cpu-coremark --vmm <vmm>".to_owned(),
        })
    } else if str_eq(name, "cpu-stress") {
        Some(ScenarioMeta {
            display_name: "CPU Stress".to_owned(),
            unit: "bogo ops/s".to_owned(),
            subtitle: "Tool: stress 1.4.12 | Test: 10s, 1 worker".to_owned(),
            tooltip: "CPU Stress: Measures CPU stress using bogo operations.\nTool: stress 1.4.12\nTest: 10 seconds, 1 worker\nCmd: stress-ng --cpu 1 --timeout 10s --metrics-brief".to_owned(),
            run_cmd: "lingbench run --scenario cpu-stress --vmm <vmm>".to_owned(),
        })
    } else if str_eq(name, "mem-sysbench") {
        Some(ScenarioMeta {
            display_name: "Memory Sysbench".to_owned(),
            unit: "ops/s".to_owned(),
            subtitle: "Tool: sysbench 1.0.20 | Test: 4GB memory, sequential access".to_owned(),
            tooltip: "Memory Sysbench: Measures memory bandwidth and latency.\nTool: sysbench 1.0.20\nTest: 4GB memory, sequential access\nCmd: sysbench memory --memory-total-size=4G run".to_owned(),
            run_cmd: "lingbench run --scenario mem-sysbench --vmm <vmm>".to_owned(),
        })
    } else if str_eq(name, "meminfo") {
        Some(ScenarioMeta {
            display_name: "Memory Info".to_owned(),
            unit: "KB".to_owned(),
            subtitle: "Tool: /proc/meminfo | Test: Read memory info".to_owned(),
            tooltip: "Memory Info: Displays system memory information.\nTool: /proc/meminfo\nCmd: cat /proc/meminfo".to_owned(),
            run_cmd: "lingbench run --scenario meminfo --vmm <vmm>".to_owned(),
        })
    } else if str_eq(name, "io-randread") {
        Some(ScenarioMeta {
            display_name: "IO Random Read".to_owned(),
            unit: "IOPS".to_owned(),
            subtitle: "Tool: fio 3.36 | Test: 30s, 4KB blocks, random read".to_owned(),
            tooltip: "IO Random Read: Measures random read performance with 4KB blocks.\nTool: fio 3.36\nTest: 30 seconds, 4KB block size, random read\nCmd: fio --name=randread --filename=/tmp/fio.bin --size=256M --rw=randread --bs=4k --ioengine=libaio --iodepth=32 --direct=1 --runtime=10 --time_based --group_reporting".to_owned(),
            run_cmd: "lingbench run --scenario io-randread --vmm <vmm>".to_owned(),
        })
    } else if str_eq(name, "io-randwrite") {
        Some(ScenarioMeta {
            display_name: "IO Random Write".to_owned(),
            unit: "IOPS".to_owned(),
            subtitle: "Tool: fio 3.36 | Test: 30s, 4KB blocks, random write".to_owned(),
            tooltip: "IO Random Write: Measures random write performance with 4KB blocks.\nTool: fio 3.36\nTest: 30 seconds, 4KB block size, random write\nCmd: fio --name=randwrite --filename=/tmp/fio.bin --size=256M --rw=randwrite --bs=4k --ioengine=libaio --iodepth=32 --direct=1 --runtime=10 --time_based --group_reporting".to_owned(),
            run_cmd: "lingbench run --scenario io-randwrite --vmm <vmm>".to_owned(),
        })
    } else if str_eq(name, "io-seqread") {
        Some(ScenarioMeta {
            display_name: "IO Sequential Read".to_owned(),
            unit: "IOPS".to_owned(),
            subtitle: "Tool: fio 3.36 | Test: 30s, 4KB blocks, sequential read".to_owned(),
            tooltip: "IO Sequential Read: Measures sequential read performance with 4KB blocks.\nTool: fio 3.36\nTest: 30 seconds, 4KB block size, sequential read\nCmd: fio --name=seqread --filename=/tmp/fio.bin --size=256M --rw=read --bs=1M --ioengine=libaio --iodepth=16 --direct=1 --runtime=10 --time_based --group_reporting".to_owned(),
            run_cmd: "lingbench run --scenario io-seqread --vmm <vmm>".to_owned(),
        })
    } else if str_eq(name, "io-seqwrite") {
        Some(ScenarioMeta {
            display_name: "IO Sequential Write".to_owned(),
            unit: "IOPS".to_owned(),
            subtitle: "Tool: fio 3.36 | Test: 30s, 4KB blocks, sequential write".to_owned(),
            tooltip: "IO Sequential Write: Measures sequential write performance with 4KB blocks.\nTool: fio 3.36\nTest: 30 seconds, 4KB block size, sequential write\nCmd: fio --name=seqwrite --filename=/tmp/fio.bin --size=256M --rw=write --bs=1M --ioengine=libaio --iodepth=16 --direct=1 --runtime=10 --time_based --group_reporting".to_owned(),
            run_cmd: "lingbench run --scenario io-seqwrite --vmm <vmm>".to_owned(),
        })
    } else if str_eq(name, "app-redis") {
        Some(ScenarioMeta {
            display_name: "Redis GET".to_owned(),
            unit: "ops/s".to_owned(),
            subtitle: "Tool: redis-benchmark | Test: GET operations".to_owned(),
            tooltip: "Redis GET: Measures Redis GET operation throughput.\nTool: redis-benchmark\nTest: GET operations\nCmd: redis-server --daemonize yes && redis-benchmark -q -n 100000 -c 50 -P 16".to_owned(),
            run_cmd: "lingbench run --scenario app-redis --vmm <vmm>".to_owned(),
        })
    } else if str_eq(name, "app-nginx") {
        Some(ScenarioMeta {
            display_name: "Nginx QPS".to_owned(),
            unit: "req/s".to_owned(),
            subtitle: "Tool: wrk | Test: HTTP requests per second".to_owned(),
            tooltip: "Nginx QPS: Measures Nginx HTTP request throughput.\nTool: wrk\nTest: HTTP requests per second\nCmd: nginx && wrk -t2 -c64 -d10s http://127.0.0.1/".to_owned(),
            run_cmd: "lingbench run --scenario app-nginx --vmm <vmm>".to_owned(),
        })
    } else if str_eq(name, "app-memcached") {
        Some(ScenarioMeta {
            display_name: "Memcached QPS".to_owned(),
            unit: "ops/s".to_owned(),
            subtitle: "Tool: memaslap | Test: GET operations".to_owned(),
            tooltip: "Memcached QPS: Measures Memcached GET operation throughput.\nTool: masaslap\nTest: GET operations\nCmd: memcached -u nobody -d && nc -w1 127.0.0.1 11211".to_owned(),
            run_cmd: "lingbench run --scenario app-memcached --vmm <vmm>".to_owned(),
        })
    } else {
        None
    }
}

/// The colour of each VMM in charts.
pub open spec fn spec_vmm_color(name: Seq<char>) -> Seq<char> {
    if name == "firecracker"@ {
        "#ff7043"@
    } else if name == "cloud-hypervisor"@ {
        "#4fc3f7"@
    } else if name == "stratovirt"@ {
        "#66bb6a"@
    } else if name == "crosvm"@ {
        "#ba68c8"@
    } else {
        "#888888"@
    }
}

/// Computes [`spec_vmm_color`].
pub fn get_vmm_color(name: &str) -> (r: &'static str)
    ensures
        r@ == spec_vmm_color(name@),
{
    if str_eq(name, "firecracker") {
        "#ff7043"
    } else if str_eq(name, "cloud-hypervisor") {
        "#4fc3f7"
    } else if str_eq(name, "stratovirt") {
        "#66bb6a"
    } else if str_eq(name, "crosvm") {
        "#ba68c8"
    } else {
        "#888888"
    }
}

} // verus!
