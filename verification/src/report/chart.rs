//! Which charts a report draws and what each shows, apart from the arithmetic of its axes.
use vstd::prelude::*;
use crate::catalog::{get_scenario_meta, get_vmm_color, spec_all_scenarios, spec_scenario_meta, spec_vmm_color};
use crate::metrics::decimal::{Decimal, DecimalView};
use crate::report::assemble::first_scenario;
use crate::report::data::{ScenarioResult, VmmResult, VmmResultView, vmm_results_view};
use crate::text::{camel_case, to_camel_case, views};

verus! {

/// The scenarios that get a chart, in chart order (CPU, memory, IO, applications).
pub open spec fn chart_order() -> Seq<Seq<char>> {
    seq![
        "cpu-sysbench"@, "cpu-coremark"@, "cpu-stress"@,
        "mem-sysbench"@,
        "io-randread"@, "io-randwrite"@, "io-seqread"@,
        "app-redis"@, "app-nginx"@, "app-memcached"@,
    ]
}

/// Computes [`chart_order`].
pub fn chart_scenario_order() -> (r: Vec<String>)
    ensures
        views(r@) == chart_order(),
{
    let mut r: Vec<String> = Vec::new();
    r.push("cpu-sysbench".to_owned());
    r.push("cpu-coremark".to_owned());
    r.push("cpu-stress".to_owned());
    r.push("mem-sysbench".to_owned());
    r.push("io-randread".to_owned());
    r.push("io-randwrite".to_owned());
    r.push("io-seqread".to_owned());
    r.push("app-redis".to_owned());
    r.push("app-nginx".to_owned());
    r.push("app-memcached".to_owned());
    assert(views(r@) =~= chart_order());
    r
}

/// The value of a scenario on each VMM that has a metric for it: the VMM's name and
/// its first metric, in VMM order.
pub open spec fn chart_points(vs: Seq<VmmResultView>, name: Seq<char>) -> Seq<(Seq<char>, DecimalView)>
    decreases vs.len(),
{
    if vs.len() == 0 {
        Seq::empty()
    } else {
        let prev = chart_points(vs.drop_last(), name);
        match first_scenario(vs.last().scenarios, name) {
            Some(s) => if s.metrics.len() > 0 {
                prev.push((vs.last().name, s.metrics[0].value))
            } else {
                prev
            },
            None => prev,
        }
    }
}

/// What a chart shows, before its axes are scaled.
pub struct ChartPlan {
    pub scenario: String,
    pub id: String,
    /// The title, before any difference annotation.
    pub title: String,
    pub subtitle: String,
    pub tooltip: String,
    /// The VMMs, their colours and their values, bar by bar.
    pub labels: Vec<String>,
    pub colors: Vec<String>,
    pub values: Vec<Decimal>,
}

pub struct ChartPlanView {
    pub scenario: Seq<char>,
    pub id: Seq<char>,
    pub title: Seq<char>,
    pub subtitle: Seq<char>,
    pub tooltip: Seq<char>,
    pub labels: Seq<Seq<char>>,
    pub colors: Seq<Seq<char>>,
    pub values: Seq<DecimalView>,
}

impl View for ChartPlan {
    type V = ChartPlanView;

    open spec fn view(&self) -> ChartPlanView {
        ChartPlanView {
            scenario: self.scenario@,
            id: self.id@,
            title: self.title@,
            subtitle: self.subtitle@,
            tooltip: self.tooltip@,
            labels: views(self.labels@),
            colors: views(self.colors@),
            values: self.values@.map_values(|d: Decimal| d@),
        }
    }
}

/// The chart of scenario `name`.
pub open spec fn plan_of(vs: Seq<VmmResultView>, name: Seq<char>) -> ChartPlanView {
    let points = chart_points(vs, name);
    let meta = spec_scenario_meta(name);
    ChartPlanView {
        scenario: name,
        id: camel_case(name) + "Chart"@,
        title: match meta { Some(m) => m.display_name, None => name },
        subtitle: match meta { Some(m) => m.subtitle, None => Seq::empty() },
        tooltip: match meta { Some(m) => m.tooltip, None => Seq::empty() },
        labels: points.map_values(|p: (Seq<char>, DecimalView)| p.0),
        colors: points.map_values(|p: (Seq<char>, DecimalView)| spec_vmm_color(p.0)),
        values: points.map_values(|p: (Seq<char>, DecimalView)| p.1),
    }
}

/// The charts of the scenarios `names` that at least two VMMs have values for.
pub open spec fn plans_for(vs: Seq<VmmResultView>, names: Seq<Seq<char>>) -> Seq<ChartPlanView>
    decreases names.len(),
{
    if names.len() == 0 {
        Seq::empty()
    } else {
        let prev = plans_for(vs, names.drop_last());
        if chart_points(vs, names.last()).len() >= 2 {
            prev.push(plan_of(vs, names.last()))
        } else {
            prev
        }
    }
}

/// The charts of a report: none with fewer than two VMMs; else, in chart order,
/// one per scenario that at least two VMMs have values for.
pub open spec fn spec_chart_plans(vs: Seq<VmmResultView>) -> Seq<ChartPlanView> {
    if vs.len() < 2 {
        Seq::empty()
    } else {
        plans_for(vs, chart_order())
    }
}

/// The first result of scenario `name` in `ss`.
fn find_result<'a>(ss: &'a Vec<ScenarioResult>, name: &str) -> (r: Option<&'a ScenarioResult>)
    ensures
        match r {
            Some(s) => first_scenario(ss@.map_values(|s: ScenarioResult| s@), name@) == Some(s@),
            None => first_scenario(ss@.map_values(|s: ScenarioResult| s@), name@).is_none(),
        },
{
    let ghost all = ss@.map_values(|s: ScenarioResult| s@);
    let n = ss.len();
    let mut i: usize = 0;
    assert(all.skip(0) =~= all);
    while i < n
        invariant
            n == ss.len(),
            all == ss@.map_values(|s: ScenarioResult| s@),
            i <= n,
            first_scenario(all.skip(i as int), name@) == first_scenario(all, name@),
        decreases n - i,
    {
        assert(all.skip(i as int)[0] == ss@[i as int]@);
        assert(all.skip(i as int).drop_first() =~= all.skip(i + 1));
        if crate::text::str_eq(ss[i].name.as_str(), name) {
            return Some(&ss[i]);
        }
        i = i + 1;
    }
    None
}

/// Computes the chart of scenario `name`; its bars are [`chart_points`].
fn chart_plan(vmm_results: &Vec<VmmResult>, name: &str) -> (r: ChartPlan)
    ensures
        r@ == plan_of(vmm_results_view(vmm_results@), name@),
{
    let ghost vs = vmm_results_view(vmm_results@);
    let mut labels: Vec<String> = Vec::new();
    let mut colors: Vec<String> = Vec::new();
    let mut values: Vec<Decimal> = Vec::new();
    let n = vmm_results.len();
    let mut i: usize = 0;
    while i < n
        invariant
            n == vmm_results.len(),
            vs == vmm_results_view(vmm_results@),
            i <= n,
            views(labels@) == chart_points(vs.take(i as int), name@).map_values(|p: (Seq<char>, DecimalView)| p.0),
            views(colors@) == chart_points(vs.take(i as int), name@).map_values(|p: (Seq<char>, DecimalView)| spec_vmm_color(p.0)),
            values@.map_values(|d: Decimal| d@) == chart_points(vs.take(i as int), name@).map_values(|p: (Seq<char>, DecimalView)| p.1),
        decreases n - i,
    {
        let v = &vmm_results[i];
        let ghost prev = chart_points(vs.take(i as int), name@);
        assert(vs.take(i + 1).drop_last() =~= vs.take(i as int));
        assert(vs.take(i + 1).last() == v@);
        match find_result(&v.scenarios, name) {
            Some(s) => {
                if s.metrics.len() > 0 {
                    let ghost p = (v.name@, s.metrics@[0].value@);
                    assert(s@.metrics[0] == s.metrics@[0]@);
                    let ghost l0 = labels@;
                    let ghost c0 = colors@;
                    let ghost v0 = values@;
                    labels.push(v.name.clone());
                    colors.push(get_vmm_color(v.name.as_str()).to_owned());
                    values.push(s.metrics[0].value.clone());
                    assert(chart_points(vs.take(i + 1), name@) == prev.push(p));
                    assert(views(labels@) =~= views(l0).push(p.0));
                    assert(views(colors@) =~= views(c0).push(spec_vmm_color(p.0)));
                    assert(values@.map_values(|d: Decimal| d@) =~= v0.map_values(|d: Decimal| d@).push(p.1));
                    assert(prev.push(p).map_values(|q: (Seq<char>, DecimalView)| q.0) =~= prev.map_values(|q: (Seq<char>, DecimalView)| q.0).push(p.0));
                    assert(prev.push(p).map_values(|q: (Seq<char>, DecimalView)| spec_vmm_color(q.0)) =~= prev.map_values(|q: (Seq<char>, DecimalView)| spec_vmm_color(q.0)).push(spec_vmm_color(p.0)));
                    assert(prev.push(p).map_values(|q: (Seq<char>, DecimalView)| q.1) =~= prev.map_values(|q: (Seq<char>, DecimalView)| q.1).push(p.1));
                }
            },
            None => {},
        }
        i = i + 1;
    }
    assert(vs.take(n as int) =~= vs);
    let meta = get_scenario_meta(name);
    let (title, subtitle, tooltip) = match meta {
        Some(m) => (m.display_name, m.subtitle, m.tooltip),
        None => (name.to_owned(), String::new(), String::new()),
    };
    let mut id = to_camel_case(name);
    id.append("Chart");
    ChartPlan { scenario: name.to_owned(), id, title, subtitle, tooltip, labels, colors, values }
}

/// Plans the charts of a report.
pub fn plan_charts(vmm_results: &Vec<VmmResult>) -> (r: Vec<ChartPlan>)
    ensures
        r@.map_values(|p: ChartPlan| p@) == spec_chart_plans(vmm_results_view(vmm_results@)),
{
    let ghost vs = vmm_results_view(vmm_results@);
    let mut plans: Vec<ChartPlan> = Vec::new();
    if vmm_results.len() < 2 {
        assert(plans@.map_values(|p: ChartPlan| p@) =~= Seq::<ChartPlanView>::empty());
        return plans;
    }
    let order = chart_scenario_order();
    let n = order.len();
    let mut i: usize = 0;
    while i < n
        invariant
            n == order.len(),
            views(order@) == chart_order(),
            vs == vmm_results_view(vmm_results@),
            i <= n,
            plans@.map_values(|p: ChartPlan| p@) == plans_for(vs, chart_order().take(i as int)),
        decreases n - i,
    {
        let name = order[i].as_str();
        assert(chart_order().take(i + 1).drop_last() =~= chart_order().take(i as int));
        assert(chart_order().take(i + 1).last() == name@);
        let plan = chart_plan(vmm_results, name);
        assert(plan@.labels.len() == plan.labels.len());
        assert(plan@.labels.len() == chart_points(vs, name@).len());
        if plan.labels.len() >= 2 {
            let ghost p0 = plans@;
            let ghost pv = plan@;
            plans.push(plan);
            assert(plans@.map_values(|p: ChartPlan| p@) =~= p0.map_values(|p: ChartPlan| p@).push(pv));
        }
        i = i + 1;
    }
    assert(chart_order().take(n as int) =~= chart_order());
    plans
}

/// Whether scenario `name` gets a chart: at least two VMMs have values for it.
pub open spec fn has_chart(vs: Seq<VmmResultView>, name: Seq<char>) -> bool {
    chart_points(vs, name).len() >= 2
}

proof fn lemma_plans_for(vs: Seq<VmmResultView>, names: Seq<Seq<char>>, pred: spec_fn(Seq<char>) -> bool)
    requires
        forall|n: Seq<char>| #[trigger] pred(n) == has_chart(vs, n),
    ensures
        plans_for(vs, names).map_values(|p: ChartPlanView| p.scenario) == names.filter(pred),
        forall|i: int| 0 <= i < plans_for(vs, names).len() ==> {
            let p = #[trigger] plans_for(vs, names)[i];
            &&& p == plan_of(vs, p.scenario)
            &&& has_chart(vs, p.scenario)
        },
    decreases names.len(),
{
    reveal_with_fuel(Seq::filter, 1);
    if names.len() > 0 {
        lemma_plans_for(vs, names.drop_last(), pred);
        let prev = plans_for(vs, names.drop_last());
        if has_chart(vs, names.last()) {
            assert(plans_for(vs, names).map_values(|p: ChartPlanView| p.scenario)
                =~= prev.map_values(|p: ChartPlanView| p.scenario).push(names.last()));
        }
    } else {
        assert(plans_for(vs, names).map_values(|p: ChartPlanView| p.scenario) =~= names);
    }
}

/// The charts of a report are exactly those of the scenarios, in chart order, that
/// at least two VMMs have values for, so there are at most ten; a report of fewer
/// than two VMMs has none. Each chart has one bar per VMM with a value, in VMM
/// order, with its label and colour.
pub proof fn law_charts_follow_chart_order(vs: Seq<VmmResultView>)
    ensures
        vs.len() >= 2 ==> spec_chart_plans(vs).map_values(|p: ChartPlanView| p.scenario)
            == chart_order().filter(|n: Seq<char>| has_chart(vs, n)),
        vs.len() < 2 ==> spec_chart_plans(vs).len() == 0,
        spec_chart_plans(vs).len() <= 10,
        forall|i: int| 0 <= i < spec_chart_plans(vs).len() ==> {
            let p = #[trigger] spec_chart_plans(vs)[i];
            &&& p == plan_of(vs, p.scenario)
            &&& p.values.len() >= 2
            &&& p.labels.len() == p.values.len()
            &&& p.colors.len() == p.values.len()
        },
{
    let pred = |n: Seq<char>| has_chart(vs, n);
    if vs.len() >= 2 {
        lemma_plans_for(vs, chart_order(), pred);
        chart_order().lemma_filter_len(pred);
        let ps = spec_chart_plans(vs);
        assert(ps.len() == ps.map_values(|p: ChartPlanView| p.scenario).len());
    }
}

/// The charted scenarios are those of the catalogue, in catalogue order, except the
/// memory information (catalogue entry 4) and sequential writes (entry 8): ten scenarios.
pub proof fn law_chart_order_follows_catalogue()
    ensures
        spec_all_scenarios()[4] == "meminfo"@,
        spec_all_scenarios()[8] == "io-seqwrite"@,
        chart_order() == spec_all_scenarios().take(4) + spec_all_scenarios().subrange(5, 8)
            + spec_all_scenarios().subrange(9, 12),
        chart_order().len() == 10,
{
    let all = spec_all_scenarios();
    assert(chart_order() =~= all.take(4) + all.subrange(5, 8) + all.subrange(9, 12));
}

/// Each charted scenario that at least two VMMs of a report (of two VMMs or more)
/// have values for gets its chart.
pub proof fn law_charted_scenario_gets_chart(vs: Seq<VmmResultView>, name: Seq<char>)
    requires
        vs.len() >= 2,
        chart_order().contains(name),
        has_chart(vs, name),
    ensures
        exists|i: int| 0 <= i < spec_chart_plans(vs).len() && (#[trigger] spec_chart_plans(vs)[i]).scenario == name
            && spec_chart_plans(vs)[i] == plan_of(vs, name),
{
    let co = chart_order();
    let hp = |n: Seq<char>| has_chart(vs, n);
    law_charts_follow_chart_order(vs);
    let k = choose|k: int| 0 <= k < co.len() && co[k] == name;
    co.lemma_filter_contains(hp, k);
    let ps = spec_chart_plans(vs);
    let names = ps.map_values(|q: ChartPlanView| q.scenario);
    assert(names.contains(name));
    let i = choose|i: int| 0 <= i < names.len() && names[i] == name;
    assert(ps[i].scenario == name);
    assert(ps[i] == plan_of(vs, ps[i].scenario));
}

} // verus!
