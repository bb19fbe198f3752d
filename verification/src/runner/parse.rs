//! Reading benchmark results out of a guest's serial output.
use vstd::prelude::*;
use crate::metrics::decimal::{parse_decimal, spec_parse_decimal, spec_times_thousand, DecimalView};
use crate::metrics::types::{Metric, MetricView, metrics_view};
use crate::pattern::{captures, captures_view, capture_group, group_text, regex_captures_of};
use crate::text::{lines_of, seq_contains, seq_ends_with, spec_lines, str_contains, str_eq, views};

verus! {

pub const CPU_SYSBENCH: &'static str = "cpu-sysbench";
pub const CPU_COREMARK: &'static str = "cpu-coremark";
pub const CPU_STRESS: &'static str = "cpu-stress";
pub const MEM_SYSBENCH: &'static str = "mem-sysbench";
pub const MEMINFO: &'static str = "meminfo";
pub const IO_RANDREAD: &'static str = "io-randread";
pub const IO_RANDWRITE: &'static str = "io-randwrite";
pub const IO_SEQREAD: &'static str = "io-seqread";
pub const IO_SEQWRITE: &'static str = "io-seqwrite";
pub const APP_REDIS: &'static str = "app-redis";
pub const APP_NGINX: &'static str = "app-nginx";
pub const APP_MEMCACHED: &'static str = "app-memcached";

pub const SYSBENCH_CPU_RE: &'static str = r"events per second:\s*([0-9.]+)";
/// CoreMark's score, on the header line or on the `Score:` line below it, or its iteration rate.
pub const COREMARK_RE: &'static str = r"(?:CoreMark 1.0:\s*(?:Score:)?|Iterations/Sec\s*:)\s*([0-9.]+)";
pub const STRESS_RE: &'static str = r"^.*cpu\s+\d+\s+[\d.]+\s+[\d.]+\s+[\d.]+\s+(\d+\.\d+)\s+(\d+\.\d+)\s*$";
pub const STRESS_LINE_MARK: &'static str = "stress-ng: metrc";
pub const STRESS_CPU_MARK: &'static str = "cpu";
/// The brief form of stress-ng's metrics: `stress-ng: metrc:[pid] 206.00 bogo ops/s`.
pub const STRESS_BRIEF_RE: &'static str = r"stress-ng: metrc:\s*\[[0-9]+\]\s*([0-9.]+)\s*bogo ops/s";
pub const SYSBENCH_MEM_RE: &'static str = r"Total operations:.*?\(([0-9.]+)\s*per second\)";
pub const SYSBENCH_MEM_ALT_RE: &'static str = r"ops/s:\s*([0-9.]+)";
/// sysbench's `Operations performed: N (4,035,815.42 ops/s)`, digits grouped by commas.
pub const SYSBENCH_MEM_OPS_RE: &'static str = r"\(([0-9,.]+)\s*ops/s\)";
pub const FIO_IOPS_RE: &'static str = r"IOPS=\s*([0-9k.]+)";
pub const MEMTOTAL_RE: &'static str = r"MemTotal:\s*([0-9]+)\s*kB";
pub const MEMFREE_RE: &'static str = r"MemFree:\s*([0-9]+)\s*kB";
pub const REDIS_RE: &'static str = r"(GET|SET|HSET):\s*([0-9.]+)\s*requests per second";
pub const NGINX_RE: &'static str = r"Requests/sec:\s*([0-9.]+)";
pub const MEMCACHED_RE: &'static str = r"STAT curr_connections\s+([0-9]+)";

pub const EVENTS_PER_SECOND: &'static str = "events_per_second";
pub const SCORE: &'static str = "score";
pub const BOGO_OPS: &'static str = "bogo_ops";
pub const OPS_PER_SECOND: &'static str = "ops_per_second";
pub const IOPS: &'static str = "iops";
pub const MEMTOTAL_KB: &'static str = "MemTotal_KB";
pub const MEMFREE_KB: &'static str = "MemFree_KB";
pub const REQ_PER_SEC_SUFFIX: &'static str = "_req_per_sec";
pub const REQUESTS_PER_SEC: &'static str = "requests_per_sec";
pub const CURR_CONNECTIONS: &'static str = "curr_connections";

/// The view of an optional string.
pub open spec fn opt_view(o: Option<String>) -> Option<Seq<char>> {
    match o {
        Some(s) => Some(s@),
        None => None,
    }
}

/// The view of an optional metric.
pub open spec fn opt_metric_view(o: Option<Metric>) -> Option<MetricView> {
    match o {
        Some(m) => Some(m@),
        None => None,
    }
}

/// A metric called `name` whose value is the number `text` reads as, if it reads as one.
pub open spec fn metric_of(name: Seq<char>, text: Option<Seq<char>>, ts: u64) -> Option<MetricView> {
    match text {
        Some(t) => match spec_parse_decimal(t) {
            Some(d) => Some(MetricView { name, value: d, ts }),
            None => None,
        },
        None => None,
    }
}

/// The metric read from capture group `group` of `pattern` searched in `out`.
pub open spec fn searched_metric(pattern: Seq<char>, group: int, name: Seq<char>, out: Seq<char>, ts: u64) -> Option<MetricView> {
    metric_of(name, capture_group(regex_captures_of(pattern, out), group), ts)
}

/// `s` without any `k` at its end (`str::trim_end_matches('k')`).
pub open spec fn trim_trailing_k(s: Seq<char>) -> Seq<char>
    decreases s.len(),
{
    if s.len() > 0 && s.last() == 'k' {
        trim_trailing_k(s.drop_last())
    } else {
        s
    }
}

/// An IOPS figure as fio prints it: digits, perhaps with a `k` for thousands.
pub open spec fn iops_of(text: Option<Seq<char>>, ts: u64) -> Option<MetricView> {
    match text {
        Some(t) => match spec_parse_decimal(trim_trailing_k(t)) {
            Some(d) => Some(MetricView {
                name: IOPS@,
                value: if seq_ends_with(t, seq!['k']) { spec_times_thousand(d) } else { d },
                ts,
            }),
            None => None,
        },
        None => None,
    }
}

/// The first stress-ng metrics line for the cpu stressor that yields a bogo-ops figure.
pub open spec fn stress_metric(lines: Seq<Seq<char>>, ts: u64) -> Option<MetricView>
    decreases lines.len(),
{
    if lines.len() == 0 {
        None
    } else {
        let line = lines[0];
        let found = searched_metric(STRESS_RE@, 1, BOGO_OPS@, line, ts);
        if seq_contains(line, STRESS_LINE_MARK@) && seq_contains(line, STRESS_CPU_MARK@) && found.is_some() {
            found
        } else {
            stress_metric(lines.drop_first(), ts)
        }
    }
}

/// `s` without its commas.
pub open spec fn drop_commas(s: Seq<char>) -> Seq<char>
    decreases s.len(),
{
    if s.len() == 0 {
        s
    } else if s.last() == ',' {
        drop_commas(s.drop_last())
    } else {
        drop_commas(s.drop_last()).push(s.last())
    }
}

/// The stress-ng bogo-ops figure: from the first cpu line of the metrics table,
/// else from the brief metrics line.
pub open spec fn stress_of(out: Seq<char>, ts: u64) -> Option<MetricView> {
    match stress_metric(spec_lines(out), ts) {
        Some(m) => Some(m),
        None => searched_metric(STRESS_BRIEF_RE@, 1, BOGO_OPS@, out, ts),
    }
}

/// The sysbench memory rate: from the `Total operations` line, else an `ops/s:` figure,
/// else the comma-grouped `(N ops/s)` figure.
pub open spec fn mem_ops_of(out: Seq<char>, ts: u64) -> Option<MetricView> {
    let first = searched_metric(SYSBENCH_MEM_RE@, 1, OPS_PER_SECOND@, out, ts);
    let second = searched_metric(SYSBENCH_MEM_ALT_RE@, 1, OPS_PER_SECOND@, out, ts);
    if first.is_some() {
        first
    } else if second.is_some() {
        second
    } else {
        match capture_group(regex_captures_of(SYSBENCH_MEM_OPS_RE@, out), 1) {
            Some(t) => metric_of(OPS_PER_SECOND@, Some(drop_commas(t)), ts),
            None => None,
        }
    }
}

/// The requests per second of the first redis-benchmark summary line, named after its command.
pub open spec fn redis_metric(out: Seq<char>, ts: u64) -> Option<MetricView> {
    let caps = regex_captures_of(REDIS_RE@, out);
    match (capture_group(caps, 1), capture_group(caps, 2)) {
        (Some(cmd), Some(t)) => metric_of(cmd + REQ_PER_SEC_SUFFIX@, Some(t), ts),
        _ => None,
    }
}

/// No metric, or the one metric.
pub open spec fn opt_seq(o: Option<MetricView>) -> Seq<MetricView> {
    match o {
        Some(m) => seq![m],
        None => Seq::empty(),
    }
}

/// The metrics that the serial output `out` of a run of `scenario` reports.
pub open spec fn spec_parse_metrics(out: Seq<char>, scenario: Seq<char>, ts: u64) -> Seq<MetricView> {
    if scenario == CPU_SYSBENCH@ {
        opt_seq(searched_metric(SYSBENCH_CPU_RE@, 1, EVENTS_PER_SECOND@, out, ts))
    } else if scenario == CPU_COREMARK@ {
        opt_seq(searched_metric(COREMARK_RE@, 1, SCORE@, out, ts))
    } else if scenario == CPU_STRESS@ {
        opt_seq(stress_of(out, ts))
    } else if scenario == MEM_SYSBENCH@ {
        opt_seq(mem_ops_of(out, ts))
    } else if scenario == IO_RANDREAD@ || scenario == IO_RANDWRITE@ || scenario == IO_SEQREAD@ || scenario == IO_SEQWRITE@ {
        opt_seq(iops_of(capture_group(regex_captures_of(FIO_IOPS_RE@, out), 1), ts))
    } else if scenario == MEMINFO@ {
        opt_seq(searched_metric(MEMTOTAL_RE@, 1, MEMTOTAL_KB@, out, ts))
            + opt_seq(searched_metric(MEMFREE_RE@, 1, MEMFREE_KB@, out, ts))
    } else if scenario == APP_REDIS@ {
        opt_seq(redis_metric(out, ts))
    } else if scenario == APP_NGINX@ {
        opt_seq(searched_metric(NGINX_RE@, 1, REQUESTS_PER_SEC@, out, ts))
    } else if scenario == APP_MEMCACHED@ {
        opt_seq(searched_metric(MEMCACHED_RE@, 1, CURR_CONNECTIONS@, out, ts))
    } else {
        Seq::empty()
    }
}

/// A metric called `name` holding the number that `text` reads as.
pub fn metric_from_text(name: &str, text: Option<String>, ts: u64) -> (r: Option<Metric>)
    ensures
        opt_metric_view(r) == metric_of(name@, opt_view(text), ts),
{
    match text {
        Some(t) => match parse_decimal(t.as_str()) {
            Some(d) => Some(Metric { name: name.to_owned(), value: d, ts }),
            None => None,
        },
        None => None,
    }
}

/// The metric in capture group `group` of `pattern` searched in `out`.
fn search_metric(pattern: &str, group: usize, name: &str, out: &str, ts: u64) -> (r: Option<Metric>)
    ensures
        opt_metric_view(r) == searched_metric(pattern@, group as int, name@, out@, ts),
{
    let caps = captures(pattern, out);
    metric_from_text(name, group_text(&caps, group), ts)
}

/// `s` without the `k`s at its end.
pub fn trim_k(s: &str) -> (r: String)
    ensures
        r@ == trim_trailing_k(s@),
{
    let v = crate::text::chars_of(s);
    let mut end = v.len();
    assert(v@.take(end as int) =~= v@);
    while end > 0 && v[end - 1] == 'k'
        invariant
            end <= v.len(),
            trim_trailing_k(v@.take(end as int)) == trim_trailing_k(v@),
        decreases end,
    {
        assert(v@.take(end - 1) =~= v@.take(end as int).drop_last());
        end = end - 1;
    }
    assert(v@.take(v.len() as int) =~= v@);
    let r = crate::text::chars_between(&v, 0, end);
    assert(r@ =~= v@.take(end as int));
    r
}

/// An IOPS metric from the text fio printed after `IOPS=`.
pub fn iops_from_text(text: Option<String>, ts: u64) -> (r: Option<Metric>)
    ensures
        opt_metric_view(r) == iops_of(opt_view(text), ts),
{
    match text {
        Some(t) => {
            let trimmed = trim_k(t.as_str());
            match parse_decimal(trimmed.as_str()) {
                Some(d) => {
                    let kilo = crate::text::str_ends_with(t.as_str(), "k");
                    proof {
                        reveal_strlit("k");
                    }
                    assert("k"@ =~= seq!['k']);
                    let value = if kilo { d.times_thousand() } else { d };
                    Some(Metric { name: IOPS.to_owned(), value, ts })
                },
                None => None,
            }
        },
        None => None,
    }
}

/// The first stress-ng cpu metrics line of `lines[from..]` that yields a bogo-ops figure.
fn stress_from_lines(lines: &Vec<String>, ts: u64) -> (r: Option<Metric>)
    ensures
        opt_metric_view(r) == stress_metric(views(lines@), ts),
{
    let n = lines.len();
    let mut i: usize = 0;
    assert(views(lines@).skip(0) =~= views(lines@));
    while i < n
        invariant
            n == lines.len(),
            i <= n,
            stress_metric(views(lines@).skip(i as int), ts) == stress_metric(views(lines@), ts),
        decreases n - i,
    {
        let line = lines[i].as_str();
        let ghost rest = views(lines@).skip(i as int);
        assert(rest[0] == line@);
        assert(rest.drop_first() =~= views(lines@).skip(i + 1));
        if str_contains(line, STRESS_LINE_MARK) && str_contains(line, STRESS_CPU_MARK) {
            let found = search_metric(STRESS_RE, 1, BOGO_OPS, line, ts);
            if found.is_some() {
                return found;
            }
        }
        i = i + 1;
    }
    assert(views(lines@).skip(n as int).len() == 0);
    None
}

/// Computes [`drop_commas`].
pub fn without_commas(s: &str) -> (r: String)
    ensures
        r@ == drop_commas(s@),
{
    let v = crate::text::chars_of(s);
    let mut r = String::new();
    let n = v.len();
    let mut i: usize = 0;
    assert(v@.take(0) =~= Seq::<char>::empty());
    while i < n
        invariant
            n == v.len(),
            i <= n,
            r@ == drop_commas(v@.take(i as int)),
        decreases n - i,
    {
        assert(v@.take(i + 1).drop_last() =~= v@.take(i as int));
        assert(v@.take(i + 1).last() == v@[i as int]);
        if v[i] != ',' {
            crate::text::push_char(&mut r, v[i]);
        }
        i = i + 1;
    }
    assert(v@.take(n as int) =~= v@);
    r
}

/// The stress-ng metric of `out`.
fn stress_from(out: &str, ts: u64) -> (r: Option<Metric>)
    ensures
        opt_metric_view(r) == stress_of(out@, ts),
{
    let lines = lines_of(out);
    match stress_from_lines(&lines, ts) {
        Some(m) => Some(m),
        None => search_metric(STRESS_BRIEF_RE, 1, BOGO_OPS, out, ts),
    }
}

/// The sysbench memory metric of `out`.
fn mem_ops_from(out: &str, ts: u64) -> (r: Option<Metric>)
    ensures
        opt_metric_view(r) == mem_ops_of(out@, ts),
{
    let first = search_metric(SYSBENCH_MEM_RE, 1, OPS_PER_SECOND, out, ts);
    if first.is_some() {
        return first;
    }
    let second = search_metric(SYSBENCH_MEM_ALT_RE, 1, OPS_PER_SECOND, out, ts);
    if second.is_some() {
        return second;
    }
    let caps = captures(SYSBENCH_MEM_OPS_RE, out);
    match group_text(&caps, 1) {
        Some(t) => metric_from_text(OPS_PER_SECOND, Some(without_commas(t.as_str())), ts),
        None => None,
    }
}

/// The redis-benchmark metric of `out`.
fn redis_from(out: &str, ts: u64) -> (r: Option<Metric>)
    ensures
        opt_metric_view(r) == redis_metric(out@, ts),
{
    let caps = captures(REDIS_RE, out);
    let cmd = group_text(&caps, 1);
    let value = group_text(&caps, 2);
    match (cmd, value) {
        (Some(c), Some(t)) => {
            let mut name = c;
            name.append(REQ_PER_SEC_SUFFIX);
            metric_from_text(name.as_str(), Some(t), ts)
        },
        _ => None,
    }
}

fn opt_to_vec(o: Option<Metric>) -> (r: Vec<Metric>)
    ensures
        metrics_view(r@) == opt_seq(opt_metric_view(o)),
{
    let mut r: Vec<Metric> = Vec::new();
    match o {
        Some(m) => {
            r.push(m);
            assert(metrics_view(r@) =~= opt_seq(opt_metric_view(o)));
        },
        None => {
            assert(metrics_view(r@) =~= opt_seq(opt_metric_view(o)));
        },
    }
    r
}

/// The metrics reported in the serial output `output` of a run of `scenario`,
/// stamped with `ts` (milliseconds since the Unix epoch).
pub fn parse_scenario_metrics(output: &str, scenario: &str, ts: u64) -> (r: Vec<Metric>)
    ensures
        metrics_view(r@) == spec_parse_metrics(output@, scenario@, ts),
{
    if str_eq(scenario, CPU_SYSBENCH) {
        opt_to_vec(search_metric(SYSBENCH_CPU_RE, 1, EVENTS_PER_SECOND, output, ts))
    } else if str_eq(scenario, CPU_COREMARK) {
        opt_to_vec(search_metric(COREMARK_RE, 1, SCORE, output, ts))
    } else if str_eq(scenario, CPU_STRESS) {
        opt_to_vec(stress_from(output, ts))
    } else if str_eq(scenario, MEM_SYSBENCH) {
        opt_to_vec(mem_ops_from(output, ts))
    } else if str_eq(scenario, IO_RANDREAD) || str_eq(scenario, IO_RANDWRITE) || str_eq(scenario, IO_SEQREAD)
        || str_eq(scenario, IO_SEQWRITE) {
        let caps = captures(FIO_IOPS_RE, output);
        opt_to_vec(iops_from_text(group_text(&caps, 1), ts))
    } else if str_eq(scenario, MEMINFO) {
        let mut r = opt_to_vec(search_metric(MEMTOTAL_RE, 1, MEMTOTAL_KB, output, ts));
        let mut free = opt_to_vec(search_metric(MEMFREE_RE, 1, MEMFREE_KB, output, ts));
        let ghost a = r@;
        let ghost b = free@;
        r.append(&mut free);
        assert(metrics_view(r@) =~= metrics_view(a) + metrics_view(b));
        r
    } else if str_eq(scenario, APP_REDIS) {
        opt_to_vec(redis_from(output, ts))
    } else if str_eq(scenario, APP_NGINX) {
        opt_to_vec(search_metric(NGINX_RE, 1, REQUESTS_PER_SEC, output, ts))
    } else if str_eq(scenario, APP_MEMCACHED) {
        opt_to_vec(search_metric(MEMCACHED_RE, 1, CURR_CONNECTIONS, output, ts))
    } else {
        let r: Vec<Metric> = Vec::new();
        assert(metrics_view(r@) =~= Seq::<MetricView>::empty());
        r
    }
}

/// The app-redis metric is named after the command that redis-benchmark reports
/// (`GET`, `SET` or `HSET`, the first group of its pattern) followed by
/// `_req_per_sec`, and holds the rate of the second group. It is there exactly when
/// both groups matched and the rate reads as a number.
pub proof fn law_redis_metric_named_by_command(out: Seq<char>, ts: u64)
    ensures
        ({
            let caps = regex_captures_of(REDIS_RE@, out);
            let ms = spec_parse_metrics(out, "app-redis"@, ts);
            &&& ms.len() <= 1
            &&& ms.len() == 1 <==> (capture_group(caps, 1) is Some && capture_group(caps, 2) is Some
                && spec_parse_decimal(capture_group(caps, 2).unwrap()) is Some)
            &&& ms.len() == 1 ==> {
                &&& ms[0].name == capture_group(caps, 1).unwrap() + "_req_per_sec"@
                &&& Some(ms[0].value) == spec_parse_decimal(capture_group(caps, 2).unwrap())
                &&& ms[0].ts == ts
            }
        }),
{
    reveal_strlit("app-redis");
    reveal_strlit("cpu-sysbench");
    reveal_strlit("cpu-coremark");
    reveal_strlit("cpu-stress");
    reveal_strlit("mem-sysbench");
    reveal_strlit("io-randread");
    reveal_strlit("io-randwrite");
    reveal_strlit("io-seqread");
    reveal_strlit("io-seqwrite");
    reveal_strlit("meminfo");
    let a = "app-redis"@;
    assert(a != CPU_SYSBENCH@ && a != CPU_COREMARK@ && a != CPU_STRESS@ && a != MEM_SYSBENCH@) by {
        assert(a[0] != CPU_SYSBENCH@[0]);
        assert(a[0] != CPU_COREMARK@[0]);
        assert(a[0] != CPU_STRESS@[0]);
        assert(a[0] != MEM_SYSBENCH@[0]);
    }
    assert(a != IO_RANDREAD@ && a != IO_RANDWRITE@ && a != IO_SEQREAD@ && a != IO_SEQWRITE@ && a != MEMINFO@) by {
        assert(a[0] != IO_RANDREAD@[0]);
        assert(a[0] != IO_RANDWRITE@[0]);
        assert(a[0] != IO_SEQREAD@[0]);
        assert(a[0] != IO_SEQWRITE@[0]);
        assert(a[0] != MEMINFO@[0]);
    }
    assert(a == APP_REDIS@);
}

} // verus!
