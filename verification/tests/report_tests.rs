use lingbench::catalog::{get_all_scenarios, get_scenario_meta, get_vmm_color};
use lingbench::metrics::decimal::parse_decimal;
use lingbench::metrics::types::Metric;
use lingbench::report::assemble::{build_scenario_rows, build_vmm_results};
use lingbench::report::chart::{chart_scenario_order, plan_charts};
use lingbench::report::data::{ChartData, ReportData, ScenarioRow, VmmResult};
use lingbench::report::generator::{escape_quotes_text, generate_html};
use lingbench::runner::scenario::RunResult;
use lingbench::text::to_camel_case;

fn create_test_data() -> ReportData {
    ReportData {
        date: "April 23, 2026".to_string(),
        vmm_results: vec![VmmResult { name: "firecracker".to_string(), scenarios: vec![] }],
        charts: vec![ChartData {
            id: "testChart".to_string(),
            title: "Test Chart".to_string(),
            subtitle: "Tool: test 1.0 | Test: 10s".to_string(),
            tooltip: "Test tooltip".to_string(),
            config: r#"{"type":"bar","data":{"labels":["A","B"],"datasets":[{"data":[1,2]}]}}"#.to_string(),
        }],
        scenario_rows: vec![ScenarioRow {
            name: "cpu-sysbench".to_string(),
            display_name: "CPU Sysbench (events/s)".to_string(),
            cells: vec!["5599".to_string()],
        }],
    }
}

fn run(vmm: &str, scenario: &str, value: Option<&str>) -> RunResult {
    RunResult {
        vmm: vmm.to_string(),
        scenario: scenario.to_string(),
        success: value.is_some(),
        error: if value.is_some() { None } else { Some("Timeout".to_string()) },
        duration_ms: Some(1),
        metrics: match value {
            Some(v) => vec![Metric { name: "events_per_second".to_string(), value: parse_decimal(v).unwrap(), ts: 0 }],
            None => vec![],
        },
    }
}

fn formatted_of(results: &Vec<RunResult>) -> Vec<Vec<String>> {
    results.iter().map(|r| r.metrics.iter().map(|m| m.value.to_text()).collect()).collect()
}

#[test]
fn test_report_generation() {
    let data = create_test_data();
    let html = generate_html(&data);

    assert!(html.contains("LingCage"));
    assert!(html.contains("testChart"));
    assert!(html.contains("cpu-sysbench"));
    assert!(html.contains("tooltip-hint"));
}

#[test]
fn report_has_the_table_and_the_date() {
    let html = generate_html(&create_test_data());
    assert!(html.contains("<table>"));
    assert!(html.contains("Detailed Results"));
    assert!(html.contains("April 23, 2026"));
    assert!(html.contains("5599"));
    assert!(html.contains("CPU Sysbench (events/s)"));
    assert!(html.starts_with("<!DOCTYPE html>"));
}

#[test]
fn quotes_are_escaped_for_attributes() {
    assert_eq!(escape_quotes_text("a \"b\" c"), "a &quot;b&quot; c");
    assert_eq!(escape_quotes_text("plain"), "plain");
}

#[test]
fn results_are_grouped_by_vmm_in_first_run_order() {
    let results = vec![
        run("crosvm", "cpu-sysbench", Some("10")),
        run("firecracker", "cpu-sysbench", Some("20")),
        run("crosvm", "io-seqread", None),
    ];
    let groups = build_vmm_results(&results, &formatted_of(&results));
    assert_eq!(groups.len(), 2);
    assert_eq!(groups[0].name, "crosvm");
    assert_eq!(groups[0].scenarios.len(), 2);
    assert_eq!(groups[0].scenarios[1].status, "Timeout");
    assert_eq!(groups[1].name, "firecracker");
    assert_eq!(groups[1].scenarios[0].status, "OK");
}

#[test]
fn table_has_a_row_per_scenario_and_a_cell_per_vmm() {
    let results = vec![run("crosvm", "cpu-sysbench", Some("10.5")), run("firecracker", "io-seqread", None)];
    let groups = build_vmm_results(&results, &formatted_of(&results));
    let rows = build_scenario_rows(&groups);
    assert_eq!(rows.len(), 12);
    assert_eq!(rows[0].name, "cpu-sysbench");
    assert_eq!(rows[0].display_name, "CPU Sysbench (events/s)");
    assert_eq!(rows[0].cells, vec!["10.5".to_string(), "-".to_string()]);
    let seqread = rows.iter().find(|r| r.name == "io-seqread").unwrap();
    assert_eq!(seqread.cells, vec!["-".to_string(), "Timeout".to_string()]);
    for row in &rows {
        assert_eq!(row.cells.len(), 2);
    }
}

#[test]
fn charts_need_two_vmms_and_follow_chart_order() {
    let results = vec![
        run("crosvm", "io-seqread", Some("5")),
        run("firecracker", "io-seqread", Some("6")),
        run("crosvm", "cpu-sysbench", Some("10")),
        run("firecracker", "cpu-sysbench", Some("20")),
        run("crosvm", "meminfo", Some("1")),
    ];
    let groups = build_vmm_results(&results, &formatted_of(&results));
    let plans = plan_charts(&groups);
    assert_eq!(plans.len(), 2);
    assert_eq!(plans[0].scenario, "cpu-sysbench");
    assert_eq!(plans[0].id, "cpuSysbenchChart");
    assert_eq!(plans[0].labels, vec!["crosvm".to_string(), "firecracker".to_string()]);
    assert_eq!(plans[0].colors, vec!["#ba68c8".to_string(), "#ff7043".to_string()]);
    assert_eq!(plans[0].values[1].to_text(), "20.");
    assert_eq!(plans[1].scenario, "io-seqread");

    let one = vec![run("crosvm", "cpu-sysbench", Some("10"))];
    let groups = build_vmm_results(&one, &formatted_of(&one));
    assert!(plan_charts(&groups).is_empty());
}

#[test]
fn catalogue() {
    let all = get_all_scenarios();
    assert_eq!(all.len(), 12);
    assert_eq!(all[0], "cpu-sysbench");
    assert_eq!(all[11], "app-memcached");
    assert_eq!(chart_scenario_order().len(), 10);
    for s in &all {
        assert!(get_scenario_meta(s).is_some(), "{}", s);
    }
    assert_eq!(get_scenario_meta("cpu-sysbench").unwrap().unit, "events/s");
    assert!(get_scenario_meta("nope").is_none());
    assert_eq!(get_vmm_color("firecracker"), "#ff7043");
    assert_eq!(get_vmm_color("stratovirt"), "#66bb6a");
    assert_eq!(get_vmm_color("qemu"), "#888888");
}

#[test]
fn chart_ids_are_camel_case() {
    assert_eq!(to_camel_case("cpu-sysbench"), "cpuSysbench");
    assert_eq!(to_camel_case("app-memcached"), "appMemcached");
    assert_eq!(to_camel_case("meminfo"), "meminfo");
}
