use lingbench::metrics::collector::{make_batch_key, make_log_file_name, MetricsCollector};
use lingbench::metrics::decimal::{parse_decimal, Decimal};
use lingbench::metrics::protocol::HostMessage;
use lingbench::metrics::types::{Metric, MetricBatch, RunStatus};

fn dec(s: &str) -> Decimal {
    parse_decimal(s).unwrap()
}

fn as_f64(d: &Decimal) -> f64 {
    d.to_text().parse().unwrap()
}

/// Builds the message of a JSON text the way the host reads it: the fields are
/// taken from the parsed JSON, the value from its decimal text.
fn message_from_json(json: &str) -> HostMessage {
    let v: serde_json::Value = serde_json::from_str(json).unwrap();
    assert_eq!(v["type"], "metric");
    let metrics = v["metrics"]
        .as_array()
        .unwrap()
        .iter()
        .map(|m| Metric {
            name: m["name"].as_str().unwrap().to_string(),
            value: dec(&m["value"].to_string()),
            ts: m["ts"].as_u64().unwrap(),
        })
        .collect();
    HostMessage::Metric {
        batch: v["batch"].as_u64().unwrap(),
        scenario: v["scenario"].as_str().unwrap().to_string(),
        vmm: v["vmm"].as_str().unwrap().to_string(),
        metrics,
    }
}

fn batch(vmm: &str, scenario: &str, id: u64, value: &str) -> MetricBatch {
    MetricBatch {
        batch_id: id,
        scenario: scenario.into(),
        vmm: vmm.into(),
        metrics: vec![Metric { name: "events_per_second".into(), value: dec(value), ts: 0 }],
        status: RunStatus::Running,
    }
}

#[test]
fn test_collector_store() {
    let mut collector = MetricsCollector::new(false, "/tmp".to_string());

    let batch = MetricBatch {
        batch_id: 1,
        scenario: "cpu-sysbench".into(),
        vmm: "firecracker".into(),
        metrics: vec![Metric { name: "events_per_second".into(), value: dec("5599.21"), ts: 0 }],
        status: RunStatus::Running,
    };

    collector.ingest(batch).unwrap();

    let result = collector.query("firecracker", "cpu-sysbench");
    assert!(result.is_some());
    assert_eq!(result.unwrap().len(), 1);
}

#[test]
fn test_collector_query_not_found() {
    let collector = MetricsCollector::new(false, "/tmp".to_string());
    let result = collector.query("unknown", "unknown");
    assert!(result.is_none());
}

#[test]
fn test_ingest_json() {
    let mut collector = MetricsCollector::new(false, "/tmp".to_string());

    let json = r#"{"type":"metric","batch":1,"scenario":"cpu-sysbench","vmm":"firecracker","metrics":[{"name":"events_per_second","value":5599.21,"ts":1713844800000}]}"#;

    collector.ingest_message(message_from_json(json)).unwrap();

    let result = collector.query("firecracker", "cpu-sysbench");
    assert!(result.is_some());
    assert_eq!(as_f64(&result.unwrap()[0].metrics[0].value), 5599.21);
}

#[test]
fn test_message_serialization() {
    let json = r#"{"type":"metric","batch":1,"scenario":"cpu-sysbench","vmm":"firecracker","metrics":[{"name":"events_per_second","value":5599.21,"ts":1713844800000}]}"#;
    let msg = message_from_json(json);
    assert!(matches!(msg, HostMessage::Metric { .. }));
}

#[test]
fn query_reads_back_batches_in_arrival_order() {
    let mut c = MetricsCollector::new(true, "/var/log".to_string());
    assert!(c.logs_enabled());
    assert_eq!(c.logs_dir(), "/var/log");
    c.ingest(batch("firecracker", "cpu-sysbench", 1, "10")).unwrap();
    c.ingest(batch("crosvm", "cpu-sysbench", 2, "20")).unwrap();
    c.ingest(batch("firecracker", "cpu-sysbench", 3, "30")).unwrap();
    let got = c.query("firecracker", "cpu-sysbench").unwrap();
    assert_eq!(got.len(), 2);
    assert_eq!(got[0].batch_id, 1);
    assert_eq!(got[1].batch_id, 3);
    let other = c.query("crosvm", "cpu-sysbench").unwrap();
    assert_eq!(other.len(), 1);
    assert_eq!(other[0].batch_id, 2);
    assert!(c.query("crosvm", "io-seqread").is_none());

    let all = c.get_all();
    assert_eq!(all.len(), 2);
    assert_eq!(all[0].0, ("firecracker".to_string(), "cpu-sysbench".to_string()));
    assert_eq!(all[0].1.len(), 2);
    assert_eq!(all[1].0, ("crosvm".to_string(), "cpu-sysbench".to_string()));
}

#[test]
fn query_keeps_vmm_and_scenario_apart() {
    let mut c = MetricsCollector::new(false, "/tmp".to_string());
    c.ingest(batch("a_b", "c", 1, "1")).unwrap();
    assert!(c.query("a", "b_c").is_none());
    let got = c.query("a_b", "c").unwrap();
    assert_eq!(got.len(), 1);
    assert_eq!(got[0].vmm, "a_b");
    assert_eq!(got[0].scenario, "c");
}

#[test]
fn only_metric_messages_are_stored() {
    let mut c = MetricsCollector::new(false, "/tmp".to_string());
    c.ingest_message(HostMessage::Status {
        scenario: "cpu-sysbench".into(),
        vmm: "firecracker".into(),
        status: "running".into(),
        progress: 50,
    })
    .unwrap();
    c.ingest_message(HostMessage::Complete {
        scenario: "cpu-sysbench".into(),
        vmm: "firecracker".into(),
        status: "done".into(),
        duration_ms: 10,
    })
    .unwrap();
    assert!(c.get_all().is_empty());
    let b = HostMessage::Metric { batch: 9, scenario: "s".into(), vmm: "v".into(), metrics: vec![] }
        .into_metric_batch()
        .unwrap();
    assert_eq!(b.batch_id, 9);
    assert!(matches!(b.status, RunStatus::Running));
}

#[test]
fn keys_and_log_names() {
    assert_eq!(make_batch_key("firecracker", "cpu-sysbench"), "firecracker_cpu-sysbench");
    assert_eq!(make_log_file_name("firecracker_cpu-sysbench"), "metrics_firecracker_cpu-sysbench.jsonl");
}

#[test]
fn decimals_parse_exactly() {
    let d = dec("5599.21");
    assert_eq!(d.whole, "5599");
    assert_eq!(d.frac, "21");
    let d = dec(".5");
    assert_eq!(d.whole, "");
    assert_eq!(d.frac, "5");
    let d = dec("110");
    assert_eq!(d.whole, "110");
    assert_eq!(d.frac, "");
    assert!(parse_decimal("").is_none());
    assert!(parse_decimal(".").is_none());
    assert!(parse_decimal("1.2.3").is_none());
    assert!(parse_decimal("12a").is_none());
    assert!(parse_decimal("-1").is_none());
}

#[test]
fn decimal_text_reads_back() {
    for s in ["5599.21", "110", ".5", "0.000", "4035815.42"] {
        let d = dec(s);
        let back = parse_decimal(&d.to_text()).unwrap();
        assert_eq!(back, d);
        let f: f64 = s.parse().unwrap();
        assert_eq!(as_f64(&d), f);
    }
    assert_eq!(dec("110").to_text(), "110.");
}

#[test]
fn times_thousand_moves_the_point() {
    assert_eq!(dec("25.2").times_thousand().to_text(), "25200.");
    assert_eq!(dec("110").times_thousand().to_text(), "110000.");
    assert_eq!(dec("1.23456").times_thousand().to_text(), "1234.56");
    assert_eq!(dec(".5").times_thousand().to_text(), "500.");
    for s in ["25.2", "110", "1.23456", "173", "0.001"] {
        let x: f64 = s.parse().unwrap();
        let y = as_f64(&dec(s).times_thousand());
        assert!((y - x * 1000.0).abs() < 1e-6, "{} -> {}", s, y);
    }
}
