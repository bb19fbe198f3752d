//! Turning run results into the data of a report.
use vstd::prelude::*;
use crate::catalog::{get_all_scenarios, get_scenario_meta, spec_all_scenarios, spec_scenario_meta};
use crate::metrics::types::MetricView;
use crate::report::data::{NamedMetric, NamedMetricView, ScenarioResult, ScenarioResultView, ScenarioRow, ScenarioRowView, VmmResult, VmmResultView, vmm_results_view};
use crate::runner::scenario::{RunResult, RunResultView, results_view};
use crate::text::{concat3, join, join_seqs, occurs_at, str_eq, views};

verus! {

/// How a run is shown where it has no metrics: `OK`, else its error.
pub open spec fn scenario_status(r: RunResultView) -> Seq<char> {
    if r.success {
        "OK"@
    } else {
        match r.error {
            Some(e) => e,
            None => Seq::empty(),
        }
    }
}

/// The metrics of a run with their values as shown.
pub open spec fn named_metrics(ms: Seq<MetricView>, fs: Seq<Seq<char>>) -> Seq<NamedMetricView> {
    Seq::new(ms.len(), |i: int| NamedMetricView { name: ms[i].name, value: ms[i].value, formatted: fs[i] })
}

/// A run as the report shows it.
pub open spec fn scenario_result_of(r: RunResultView, fs: Seq<Seq<char>>) -> ScenarioResultView {
    ScenarioResultView { name: r.scenario, metrics: named_metrics(r.metrics, fs), status: scenario_status(r) }
}

/// The VMMs of the runs, each once, in the order of their first run.
pub open spec fn group_names(rs: Seq<RunResultView>) -> Seq<Seq<char>>
    decreases rs.len(),
{
    if rs.len() == 0 {
        Seq::empty()
    } else {
        let g = group_names(rs.drop_last());
        if g.contains(rs.last().vmm) {
            g
        } else {
            g.push(rs.last().vmm)
        }
    }
}

/// The runs of `vmm`, in order, as the report shows them.
pub open spec fn results_of(rs: Seq<RunResultView>, fss: Seq<Seq<Seq<char>>>, vmm: Seq<char>) -> Seq<ScenarioResultView>
    decreases rs.len(),
{
    if rs.len() == 0 {
        Seq::empty()
    } else {
        let prev = results_of(rs.drop_last(), fss.drop_last(), vmm);
        if rs.last().vmm == vmm {
            prev.push(scenario_result_of(rs.last(), fss.last()))
        } else {
            prev
        }
    }
}

/// The results grouped by VMM.
pub open spec fn spec_vmm_results(rs: Seq<RunResultView>, fss: Seq<Seq<Seq<char>>>) -> Seq<VmmResultView> {
    group_names(rs).map_values(|g: Seq<char>| VmmResultView { name: g, scenarios: results_of(rs, fss, g) })
}

/// The formatted values of the runs.
pub open spec fn formatted_view(f: Seq<Vec<String>>) -> Seq<Seq<Seq<char>>> {
    f.map_values(|v: Vec<String>| views(v@))
}

fn scenario_result(r: &RunResult, fs: &Vec<String>) -> (s: ScenarioResult)
    requires
        fs.len() == r.metrics.len(),
    ensures
        s@ == scenario_result_of(r@, views(fs@)),
{
    let mut metrics: Vec<NamedMetric> = Vec::new();
    let n = r.metrics.len();
    let mut i: usize = 0;
    while i < n
        invariant
            n == r.metrics.len() == fs.len(),
            i <= n,
            metrics.len() == i,
            forall|j: int| 0 <= j < i ==> #[trigger] metrics@[j]@ == named_metrics(r@.metrics, views(fs@))[j],
        decreases n - i,
    {
        let m = NamedMetric {
            name: r.metrics[i].name.clone(),
            value: r.metrics[i].value.clone(),
            formatted: fs[i].clone(),
        };
        proof {
            assert(r@.metrics[i as int] == r.metrics@[i as int]@);
            assert(views(fs@)[i as int] == fs@[i as int]@);
        }
        metrics.push(m);
        i = i + 1;
    }
    let status = if r.success {
        "OK".to_owned()
    } else {
        match &r.error {
            Some(e) => e.clone(),
            None => String::new(),
        }
    };
    let s = ScenarioResult { name: r.scenario.clone(), metrics, status };
    assert(s@.metrics =~= named_metrics(r@.metrics, views(fs@)));
    s
}

/// Whether `names` holds `name`.
fn contains_name(names: &Vec<String>, name: &String) -> (r: bool)
    ensures
        r == views(names@).contains(name@),
{
    crate::commands::names_contain(names, name.as_str())
}

/// The VMMs of the runs, each once, in the order of their first run.
fn vmm_group_names(results: &Vec<RunResult>) -> (r: Vec<String>)
    ensures
        views(r@) == group_names(results_view(results@)),
{
    let ghost rs = results_view(results@);
    let mut r: Vec<String> = Vec::new();
    let n = results.len();
    let mut i: usize = 0;
    while i < n
        invariant
            n == results.len(),
            rs == results_view(results@),
            i <= n,
            views(r@) == group_names(rs.take(i as int)),
        decreases n - i,
    {
        assert(rs.take(i + 1).drop_last() =~= rs.take(i as int));
        assert(rs.take(i + 1).last() == results@[i as int]@);
        if !contains_name(&r, &results[i].vmm) {
            let ghost before = r@;
            r.push(results[i].vmm.clone());
            assert(views(r@) =~= views(before).push(results@[i as int].vmm@));
        }
        i = i + 1;
    }
    assert(rs.take(n as int) =~= rs);
    r
}

/// Groups the runs by VMM, in the order of each VMM's first run; `formatted[i][j]`
/// is the value of metric `j` of run `i` as shown.
pub fn build_vmm_results(results: &Vec<RunResult>, formatted: &Vec<Vec<String>>) -> (r: Vec<VmmResult>)
    requires
        formatted.len() == results.len(),
        forall|i: int| 0 <= i < results.len() ==> #[trigger] formatted@[i].len() == results@[i].metrics.len(),
    ensures
        vmm_results_view(r@) == spec_vmm_results(results_view(results@), formatted_view(formatted@)),
{
    let ghost rs = results_view(results@);
    let ghost fss = formatted_view(formatted@);
    let names = vmm_group_names(results);
    let mut out: Vec<VmmResult> = Vec::new();
    let ng = names.len();
    let mut g: usize = 0;
    while g < ng
        invariant
            ng == names.len(),
            views(names@) == group_names(rs),
            rs == results_view(results@),
            fss == formatted_view(formatted@),
            formatted.len() == results.len(),
            forall|i: int| 0 <= i < results.len() ==> #[trigger] formatted@[i].len() == results@[i].metrics.len(),
            g <= ng,
            out.len() == g,
            forall|j: int| 0 <= j < g ==> #[trigger] out@[j]@ == (VmmResultView { name: group_names(rs)[j], scenarios: results_of(rs, fss, group_names(rs)[j]) }),
        decreases ng - g,
    {
        let name = &names[g];
        let ghost gname = name@;
        assert(views(names@)[g as int] == gname);
        let mut scenarios: Vec<ScenarioResult> = Vec::new();
        let n = results.len();
        let mut i: usize = 0;
        while i < n
            invariant
                n == results.len() == formatted.len(),
                forall|k: int| 0 <= k < results.len() ==> #[trigger] formatted@[k].len() == results@[k].metrics.len(),
                rs == results_view(results@),
                fss == formatted_view(formatted@),
                name@ == gname,
                i <= n,
                scenarios@.map_values(|s: ScenarioResult| s@) == results_of(rs.take(i as int), fss.take(i as int), gname),
            decreases n - i,
        {
            assert(rs.take(i + 1).drop_last() =~= rs.take(i as int));
            assert(fss.take(i + 1).drop_last() =~= fss.take(i as int));
            assert(rs.take(i + 1).last() == results@[i as int]@);
            assert(fss.take(i + 1).last() == views(formatted@[i as int]@));
            let ghost prev = results_of(rs.take(i as int), fss.take(i as int), gname);
            assert(results_of(rs.take(i + 1), fss.take(i + 1), gname) == if results@[i as int]@.vmm == gname {
                prev.push(scenario_result_of(results@[i as int]@, views(formatted@[i as int]@)))
            } else {
                prev
            });
            if str_eq(results[i].vmm.as_str(), name.as_str()) {
                let ghost before = scenarios@;
                assert(formatted@[i as int].len() == results@[i as int].metrics.len());
                let s = scenario_result(&results[i], &formatted[i]);
                let ghost sv = s@;
                assert(sv == scenario_result_of(results@[i as int]@, views(formatted@[i as int]@)));
                scenarios.push(s);
                assert(scenarios@.map_values(|s: ScenarioResult| s@) =~= before.map_values(|s: ScenarioResult| s@).push(sv));
                assert(results@[i as int]@.vmm == gname);
            } else {
                assert(results@[i as int]@.vmm != gname);
            }
            assert(scenarios@.map_values(|s: ScenarioResult| s@) == results_of(rs.take(i + 1), fss.take(i + 1), gname));
            i = i + 1;
        }
        assert(rs.take(n as int) =~= rs);
        assert(fss.take(n as int) =~= fss);
        let v = VmmResult { name: name.clone(), scenarios };
        out.push(v);
        g = g + 1;
    }
    assert(vmm_results_view(out@) =~= spec_vmm_results(rs, fss));
    out
}

/// The first result of the scenario `name`.
pub open spec fn first_scenario(ss: Seq<ScenarioResultView>, name: Seq<char>) -> Option<ScenarioResultView>
    decreases ss.len(),
{
    if ss.len() == 0 {
        None
    } else if ss[0].name == name {
        Some(ss[0])
    } else {
        first_scenario(ss.drop_first(), name)
    }
}

/// The table cell of a VMM for a scenario: its values, else its status, else `-`.
pub open spec fn cell_of(v: VmmResultView, name: Seq<char>) -> Seq<char> {
    match first_scenario(v.scenarios, name) {
        Some(s) => if s.metrics.len() == 0 {
            s.status
        } else {
            join_seqs(s.metrics.map_values(|m: NamedMetricView| m.formatted), ", "@)
        },
        None => "-"@,
    }
}

/// The table row of a scenario.
pub open spec fn row_of(vs: Seq<VmmResultView>, name: Seq<char>) -> ScenarioRowView {
    ScenarioRowView {
        name,
        display_name: match spec_scenario_meta(name) {
            Some(m) => m.display_name + " ("@ + m.unit + ")"@,
            None => name,
        },
        cells: vs.map_values(|v: VmmResultView| cell_of(v, name)),
    }
}

/// The rows of the results table: every scenario, in listing order.
pub open spec fn spec_scenario_rows(vs: Seq<VmmResultView>) -> Seq<ScenarioRowView> {
    spec_all_scenarios().map_values(|n: Seq<char>| row_of(vs, n))
}

/// The first result of the scenario `name` among `ss`.
fn find_scenario<'a>(ss: &'a Vec<ScenarioResult>, name: &str) -> (r: Option<&'a ScenarioResult>)
    ensures
        match r {
            Some(s) => first_scenario(ss@.map_values(|s: ScenarioResult| s@), name@) == Some(s@),
            None => first_scenario(ss@.map_values(|s: ScenarioResult| s@), name@).is_none(),
        },
{
    let ghost all = ss@.map_values(|s: ScenarioResult| s@);
    let n = ss.len();
    let mut i: usize = 0;
    assert(all.skip(0) =~= all);
    while i < n
        invariant
            n == ss.len(),
            all == ss@.map_values(|s: ScenarioResult| s@),
            i <= n,
            first_scenario(all.skip(i as int), name@) == first_scenario(all, name@),
        decreases n - i,
    {
        assert(all.skip(i as int)[0] == ss@[i as int]@);
        assert(all.skip(i as int).drop_first() =~= all.skip(i + 1));
        if str_eq(ss[i].name.as_str(), name) {
            return Some(&ss[i]);
        }
        i = i + 1;
    }
    None
}

/// Computes [`cell_of`].
fn cell(v: &VmmResult, name: &str) -> (r: String)
    ensures
        r@ == cell_of(v@, name@),
{
    match find_scenario(&v.scenarios, name) {
        Some(s) => {
            if s.metrics.len() == 0 {
                s.status.clone()
            } else {
                let mut fs: Vec<String> = Vec::new();
                let n = s.metrics.len();
                let mut i: usize = 0;
                while i < n
                    invariant
                        n == s.metrics.len(),
                        i <= n,
                        fs.len() == i,
                        forall|j: int| 0 <= j < i ==> #[trigger] fs@[j]@ == s.metrics@[j].formatted@,
                    decreases n - i,
                {
                    fs.push(s.metrics[i].formatted.clone());
                    i = i + 1;
                }
                assert(views(fs@) =~= s@.metrics.map_values(|m: NamedMetricView| m.formatted));
                join(&fs, ", ")
            }
        },
        None => "-".to_owned(),
    }
}

/// The table row of the scenario `name`.
fn scenario_row(vmm_results: &Vec<VmmResult>, name: &str) -> (r: ScenarioRow)
    ensures
        r@ == row_of(vmm_results_view(vmm_results@), name@),
{
    let display_name = match get_scenario_meta(name) {
        Some(m) => {
            let mut d = concat3(m.display_name.as_str(), " (", m.unit.as_str());
            d.append(")");
            d
        },
        None => name.to_owned(),
    };
    let mut cells: Vec<String> = Vec::new();
    let n = vmm_results.len();
    let mut i: usize = 0;
    while i < n
        invariant
            n == vmm_results.len(),
            i <= n,
            cells.len() == i,
            forall|j: int| 0 <= j < i ==> #[trigger] cells@[j]@ == cell_of(vmm_results@[j]@, name@),
        decreases n - i,
    {
        cells.push(cell(&vmm_results[i], name));
        i = i + 1;
    }
    let r = ScenarioRow { name: name.to_owned(), display_name, cells };
    assert(r@.cells =~= vmm_results_view(vmm_results@).map_values(|v: VmmResultView| cell_of(v, name@)));
    r
}

/// Builds the rows of the results table.
pub fn build_scenario_rows(vmm_results: &Vec<VmmResult>) -> (r: Vec<ScenarioRow>)
    ensures
        r@.map_values(|x: ScenarioRow| x@) == spec_scenario_rows(vmm_results_view(vmm_results@)),
{
    let names = get_all_scenarios();
    let mut rows: Vec<ScenarioRow> = Vec::new();
    let n = names.len();
    let mut i: usize = 0;
    while i < n
        invariant
            n == names.len(),
            views(names@) == spec_all_scenarios(),
            i <= n,
            rows.len() == i,
            forall|j: int| 0 <= j < i ==> #[trigger] rows@[j]@ == row_of(vmm_results_view(vmm_results@), spec_all_scenarios()[j]),
        decreases n - i,
    {
        assert(views(names@)[i as int] == names@[i as int]@);
        rows.push(scenario_row(vmm_results, names[i].as_str()));
        i = i + 1;
    }
    assert(rows@.map_values(|x: ScenarioRow| x@) =~= spec_scenario_rows(vmm_results_view(vmm_results@)));
    rows
}

/// The report lists each VMM that ran once, and only VMMs that ran: the groups are
/// distinct and are exactly the VMMs of the runs.
pub proof fn law_vmm_groups(rs: Seq<RunResultView>)
    ensures
        group_names(rs).no_duplicates(),
        forall|i: int| 0 <= i < rs.len() ==> group_names(rs).contains(#[trigger] rs[i].vmm),
        forall|g: Seq<char>| group_names(rs).contains(g) ==> exists|i: int| 0 <= i < rs.len() && #[trigger] rs[i].vmm == g,
    decreases rs.len(),
{
    if rs.len() > 0 {
        let prev = rs.drop_last();
        law_vmm_groups(prev);
        let g = group_names(prev);
        assert forall|i: int| 0 <= i < rs.len() implies group_names(rs).contains(#[trigger] rs[i].vmm) by {
            if i < rs.len() - 1 {
                assert(prev[i] == rs[i]);
                if !g.contains(rs.last().vmm) {
                    let j = choose|j: int| 0 <= j < g.len() && g[j] == rs[i].vmm;
                    assert(g.push(rs.last().vmm)[j] == rs[i].vmm);
                }
            } else if !g.contains(rs.last().vmm) {
                assert(g.push(rs.last().vmm)[g.len() as int] == rs.last().vmm);
            }
        }
        assert forall|x: Seq<char>| group_names(rs).contains(x) implies exists|i: int| 0 <= i < rs.len() && #[trigger] rs[i].vmm == x by {
            if g.contains(x) {
                let i = choose|i: int| 0 <= i < prev.len() && #[trigger] prev[i].vmm == x;
                assert(rs[i] == prev[i]);
            } else {
                assert(rs[rs.len() - 1].vmm == x);
            }
        }
        if !g.contains(rs.last().vmm) {
            let ng = g.push(rs.last().vmm);
            assert forall|a: int, b: int| 0 <= a < ng.len() && 0 <= b < ng.len() && a != b implies ng[a] != ng[b] by {
                if a == g.len() {
                    assert(ng[b] == g[b]);
                } else if b == g.len() {
                    assert(ng[a] == g[a]);
                }
            }
        }
    } else {
        assert(group_names(rs) =~= Seq::<Seq<char>>::empty());
    }
}

/// The results table has one row per scenario of the catalogue, in listing order,
/// and each row one cell per VMM, in VMM order; a VMM without a result for the
/// scenario shows `-`.
pub proof fn law_table_rows_and_cells(vs: Seq<VmmResultView>)
    ensures
        spec_scenario_rows(vs).len() == spec_all_scenarios().len(),
        forall|i: int| 0 <= i < spec_all_scenarios().len() ==> {
            let row = #[trigger] spec_scenario_rows(vs)[i];
            &&& row.name == spec_all_scenarios()[i]
            &&& row.cells.len() == vs.len()
            &&& forall|j: int| 0 <= j < vs.len() ==> #[trigger] row.cells[j] == cell_of(vs[j], row.name)
        },
        forall|v: VmmResultView, name: Seq<char>| first_scenario(v.scenarios, name).is_none() ==> #[trigger] cell_of(v, name) == "-"@,
{
}

/// Where part `k` starts when `parts` are written one after another with `sep_len`
/// characters between each two.
pub open spec fn part_offset(parts: Seq<Seq<char>>, sep_len: int, k: int) -> int
    decreases k,
{
    if k <= 0 {
        0
    } else {
        part_offset(parts, sep_len, k - 1) + parts[k - 1].len() + sep_len
    }
}

proof fn lemma_part_offset_prefix(parts: Seq<Seq<char>>, sep_len: int, k: int)
    requires
        0 <= k < parts.len(),
    ensures
        part_offset(parts.drop_last(), sep_len, k) == part_offset(parts, sep_len, k),
    decreases k,
{
    if k > 0 {
        lemma_part_offset_prefix(parts, sep_len, k - 1);
    }
}

/// The length of the joined text.
proof fn lemma_join_len(parts: Seq<Seq<char>>, sep: Seq<char>)
    requires
        parts.len() > 0,
    ensures
        join_seqs(parts, sep).len() == part_offset(parts, sep.len() as int, parts.len() - 1) + parts.last().len(),
    decreases parts.len(),
{
    if parts.len() > 1 {
        let p = parts.drop_last();
        let n = parts.len() as int;
        lemma_join_len(p, sep);
        lemma_part_offset_prefix(parts, sep.len() as int, n - 2);
        assert(p.last() == parts[n - 2]);
    }
}

/// Part `k` lies in the joined text at its offset.
proof fn lemma_join_part(parts: Seq<Seq<char>>, sep: Seq<char>, k: int)
    requires
        0 <= k < parts.len(),
    ensures
        occurs_at(join_seqs(parts, sep), parts[k], part_offset(parts, sep.len() as int, k)),
    decreases parts.len(),
{
    let sl = sep.len() as int;
    let n = parts.len() as int;
    let j = join_seqs(parts, sep);
    let o = part_offset(parts, sl, k);
    if n == 1 {
        assert(j.subrange(0, j.len() as int) =~= j);
    } else {
        let p = parts.drop_last();
        let jp = join_seqs(p, sep);
        lemma_join_len(p, sep);
        lemma_part_offset_prefix(parts, sl, n - 2);
        assert(p.last() == parts[n - 2]);
        if k < n - 1 {
            lemma_join_part(p, sep, k);
            lemma_part_offset_prefix(parts, sl, k);
            assert(p[k] == parts[k]);
            assert(j.subrange(o, o + parts[k].len()) =~= jp.subrange(o, o + parts[k].len()));
        } else {
            assert(j.subrange(o, o + parts[k].len()) =~= parts.last());
        }
    }
}

/// The separator lies in the joined text after each part but the last.
proof fn lemma_join_sep(parts: Seq<Seq<char>>, sep: Seq<char>, k: int)
    requires
        0 <= k < parts.len() - 1,
    ensures
        occurs_at(join_seqs(parts, sep), sep, part_offset(parts, sep.len() as int, k) + parts[k].len()),
    decreases parts.len(),
{
    let sl = sep.len() as int;
    let n = parts.len() as int;
    let j = join_seqs(parts, sep);
    let p = parts.drop_last();
    let jp = join_seqs(p, sep);
    let o = part_offset(parts, sl, k) + parts[k].len();
    lemma_join_len(p, sep);
    lemma_part_offset_prefix(parts, sl, n - 2);
    lemma_part_offset_prefix(parts, sl, k);
    assert(p.last() == parts[n - 2]);
    assert(p[k] == parts[k]);
    if k < n - 2 {
        lemma_join_sep(p, sep, k);
        assert(j.subrange(o, o + sl) =~= jp.subrange(o, o + sl));
    } else {
        assert(j.subrange(o, o + sl) =~= sep);
    }
}

/// A table cell of a scenario result with metrics shows every metric: the formatted
/// values of all its metrics, in order, each two separated by `, `, and nothing else.
pub proof fn law_cell_shows_every_metric(v: VmmResultView, name: Seq<char>)
    requires
        first_scenario(v.scenarios, name) matches Some(s) && s.metrics.len() > 0,
    ensures
        ({
            let fs = first_scenario(v.scenarios, name).unwrap().metrics.map_values(|m: NamedMetricView| m.formatted);
            let cell = cell_of(v, name);
            &&& forall|k: int| 0 <= k < fs.len() ==> occurs_at(cell, #[trigger] fs[k], part_offset(fs, 2, k))
            &&& forall|k: int| 0 <= k < fs.len() - 1 ==> occurs_at(cell, ", "@, #[trigger] part_offset(fs, 2, k) + fs[k].len())
            &&& cell.len() == part_offset(fs, 2, fs.len() - 1) + fs[fs.len() - 1].len()
        }),
{
    let fs = first_scenario(v.scenarios, name).unwrap().metrics.map_values(|m: NamedMetricView| m.formatted);
    reveal_strlit(", ");
    assert(", "@.len() == 2);
    lemma_join_len(fs, ", "@);
    assert forall|k: int| 0 <= k < fs.len() implies occurs_at(cell_of(v, name), #[trigger] fs[k], part_offset(fs, 2, k)) by {
        lemma_join_part(fs, ", "@, k);
    }
    assert forall|k: int| 0 <= k < fs.len() - 1 implies occurs_at(cell_of(v, name), ", "@, #[trigger] part_offset(fs, 2, k) + fs[k].len()) by {
        lemma_join_sep(fs, ", "@, k);
    }
}

} // verus!
