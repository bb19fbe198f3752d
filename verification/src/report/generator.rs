//! The HTML report: charts and a table of all results.
use vstd::prelude::*;
use crate::report::data::{ChartData, ChartView, ReportData, ReportView, ScenarioRow, ScenarioRowView};
use crate::text::{chars_of, occurs_at, push_char, views};

verus! {

pub const HTML_HEAD: &'static str = r#"<!DOCTYPE html>
<html lang="en">
<head>
    <meta charset="UTF-8">
    <meta name="viewport" content="width=device-width, initial-scale=1.0">
    <title>LingBench Results - "#;
pub const HTML_AFTER_TITLE: &'static str = r#"</title>
    <script src="https://cdn.jsdelivr.net/npm/chart.js@4.4.1/dist/chart.umd.min.js"></script>
    <style>
        * { margin: 0; padding: 0; box-sizing: border-box; }
        body {
            font-family: -apple-system, BlinkMacSystemFont, 'Segoe UI', Roboto, sans-serif;
            background: linear-gradient(135deg, #f8f9fa 0%, #e9ecef 100%);
            min-height: 100vh;
            color: #333333;
            padding: 20px;
        }
        .container { max-width: 1400px; margin: 0 auto; }
        header { text-align: center; padding: 40px 0; }
        h1 { font-size: 2.5rem; color: #1a1a1a; margin-bottom: 10px; display: flex; align-items: center; justify-content: center; gap: 15px; }
        h1 .logo { height: 1.2em; vertical-align: middle; }
        .subtitle { color: #888; font-size: 1.1rem; }
        .chart-grid { display: grid; grid-template-columns: repeat(auto-fit, minmax(500px, 1fr)); gap: 30px; margin: 30px 0; }
        .chart-container { background: rgba(255,255,255,0.95); border-radius: 16px; padding: 25px; border: 1px solid rgba(0,0,0,0.1); box-shadow: 0 2px 8px rgba(0,0,0,0.1); }
        .chart-title { font-size: 1.3rem; color: #1a1a1a; margin-bottom: 5px; padding-bottom: 5px; border-bottom: 1px solid rgba(0,0,0,0.1); }
        .chart-subtitle { font-size: 0.85rem; color: #888; margin-bottom: 10px; }
        .tooltip-hint { position: relative; display: inline-block; cursor: help; }
        .tooltip-hint:hover::after {
            content: attr(data-tooltip);
            position: absolute;
            bottom: 100%;
            left: 50%;
            transform: translateX(-50%);
            background: rgba(0,0,0,0.9);
            color: white;
            padding: 10px 14px;
            border-radius: 6px;
            font-size: 0.9rem;
            white-space: pre-line;
            max-width: 500px;
            min-width: 350px;
            z-index: 100;
            margin-bottom: 5px;
            line-height: 1.4;
        }
        .chart-wrapper { position: relative; height: 300px; }
        table { width: 100%; border-collapse: collapse; margin-top: 20px; }
        th, td { padding: 12px 15px; text-align: left; border-bottom: 1px solid rgba(255,255,255,0.1); }
        th { color: #333; font-weight: 500; text-transform: uppercase; font-size: 0.8rem; background: #f8f9fa; }
        tr:hover { background: rgba(0,0,0,0.05); }
        .best-value { color: #4fc3f7; font-weight: bold; }
    </style>
</head>
<body>
    <div class="container">
        <header>
            <h1><img class="logo" src="lingcage_logo.svg" alt="LingCage" /> LingBench Results</h1>
            <p class="subtitle">VMM Performance Comparison - "#;
pub const HTML_AFTER_SUBTITLE: &'static str = r#"</p>
        </header>

        <div class="chart-grid">
"#;
pub const CHART_OPEN: &'static str = r#"
            <div class="chart-container">
                "#;
pub const CHART_SUBTITLE_OPEN: &'static str = r#"
                <p class="chart-subtitle">"#;
pub const CHART_CANVAS_OPEN: &'static str = r#"</p>
                <div class="chart-wrapper"><canvas id=""#;
pub const CHART_CLOSE: &'static str = r#""></canvas></div>
            </div>
"#;
pub const TABLE_OPEN: &'static str = r#"
        </div>

        <div class="chart-container">
            <h2 class="chart-title">📋 Detailed Results Table</h2>
            <table>
                <thead><tr><th>Scenario</th>"#;
pub const SCRIPT_OPEN: &'static str = r#"
                </tbody>
            </table>
        </div>
    </div>

    <script>
        const colors = {
            cloudHypervisor: '#4fc3f7',
            firecracker: '#ff7043',
            stratovirt: '#66bb6a',
            crosvm: '#ba68c8'
        };
        const commonOptions = {
            responsive: true,
            maintainAspectRatio: false,
            plugins: { legend: { display: false, labels: { color: '#888', padding: 20 } } },
            scales: { x: { ticks: { color: '#888' }, grid: { color: 'rgba(255,255,255,0.05)' } },
                      y: { ticks: { color: '#888' }, grid: { color: 'rgba(255,255,255,0.05)' } } }
        };
"#;

/// `s` with each `"` written as `&quot;`.
pub open spec fn escape_quotes(s: Seq<char>) -> Seq<char>
    decreases s.len(),
{
    if s.len() == 0 {
        Seq::empty()
    } else if s.last() == '"' {
        escape_quotes(s.drop_last()) + "&quot;"@
    } else {
        escape_quotes(s.drop_last()).push(s.last())
    }
}

/// Computes [`escape_quotes`] (`str::replace("\"", "&quot;")`).
pub fn escape_quotes_text(s: &str) -> (r: String)
    ensures
        r@ == escape_quotes(s@),
{
    let v = chars_of(s);
    let mut r = String::new();
    let n = v.len();
    let mut i: usize = 0;
    while i < n
        invariant
            n == v.len(),
            i <= n,
            r@ == escape_quotes(v@.take(i as int)),
        decreases n - i,
    {
        assert(v@.take(i + 1).drop_last() =~= v@.take(i as int));
        if v[i] == '"' {
            r.append("&quot;");
        } else {
            push_char(&mut r, v[i]);
        }
        i = i + 1;
    }
    assert(v@.take(n as int) =~= v@);
    r
}

/// The heading of a chart, with its tooltip where it has one.
pub open spec fn chart_title_html(c: ChartView) -> Seq<char> {
    if c.tooltip.len() == 0 {
        "<h3 class=\"chart-title\">"@ + c.title + "</h3>"@
    } else {
        "<h3 class=\"chart-title tooltip-hint\" data-tooltip=\""@ + escape_quotes(c.tooltip) + "\">"@ + c.title + "</h3>"@
    }
}

/// The box of a chart.
pub open spec fn chart_html(c: ChartView) -> Seq<char> {
    CHART_OPEN@ + chart_title_html(c) + CHART_SUBTITLE_OPEN@ + c.subtitle + CHART_CANVAS_OPEN@ + c.id + CHART_CLOSE@
}

/// The boxes of all charts.
pub open spec fn charts_html(cs: Seq<ChartView>) -> Seq<char>
    decreases cs.len(),
{
    if cs.len() == 0 {
        Seq::empty()
    } else {
        charts_html(cs.drop_last()) + chart_html(cs.last())
    }
}

/// The table's header cells, one per VMM.
pub open spec fn header_cells_html(names: Seq<Seq<char>>) -> Seq<char>
    decreases names.len(),
{
    if names.len() == 0 {
        Seq::empty()
    } else {
        header_cells_html(names.drop_last()) + "<th>"@ + names.last() + "</th>"@
    }
}

/// Cells of the table.
pub open spec fn cells_html(cells: Seq<Seq<char>>) -> Seq<char>
    decreases cells.len(),
{
    if cells.len() == 0 {
        Seq::empty()
    } else {
        cells_html(cells.drop_last()) + "<td>"@ + cells.last() + "</td>"@
    }
}

/// One row of the table: the display name, with the scenario's own name as its hover title, then the cells.
pub open spec fn row_html(r: ScenarioRowView) -> Seq<char> {
    "<tr><td><span title=\""@ + escape_quotes(r.name) + "\">"@ + r.display_name + "</span></td>"@
        + cells_html(r.cells) + "</tr>"@
}

/// The rows of the table.
pub open spec fn rows_html(rs: Seq<ScenarioRowView>) -> Seq<char>
    decreases rs.len(),
{
    if rs.len() == 0 {
        Seq::empty()
    } else {
        rows_html(rs.drop_last()) + row_html(rs.last())
    }
}

/// The script line that draws a chart.
pub open spec fn chart_script(c: ChartView) -> Seq<char> {
    "new Chart(document.getElementById('"@ + c.id + "'), "@ + c.config + ");\n"@
}

/// The script lines of all charts.
pub open spec fn charts_script(cs: Seq<ChartView>) -> Seq<char>
    decreases cs.len(),
{
    if cs.len() == 0 {
        Seq::empty()
    } else {
        charts_script(cs.drop_last()) + chart_script(cs.last())
    }
}

/// The whole report page.
pub open spec fn report_html(d: ReportView) -> Seq<char> {
    HTML_HEAD@ + d.date + HTML_AFTER_TITLE@ + d.date + HTML_AFTER_SUBTITLE@
        + charts_html(d.charts)
        + TABLE_OPEN@ + header_cells_html(d.vmm_names) + "</tr></thead><tbody>"@
        + rows_html(d.rows)
        + SCRIPT_OPEN@ + charts_script(d.charts)
        + "    </script>\n</body>\n</html>"@
}

fn chart_title(c: &ChartData) -> (r: String)
    ensures
        r@ == chart_title_html(c@),
{
    let mut r = String::new();
    if c.tooltip.as_str().is_empty() {
        r.append("<h3 class=\"chart-title\">");
    } else {
        r.append("<h3 class=\"chart-title tooltip-hint\" data-tooltip=\"");
        r.append(escape_quotes_text(c.tooltip.as_str()).as_str());
        r.append("\">");
    }
    r.append(c.title.as_str());
    r.append("</h3>");
    r
}

/// Generates the HTML page of a report.
#[verifier::spinoff_prover]
#[verifier::rlimit(40)]
pub fn generate_html(data: &ReportData) -> (html: String)
    ensures
        html@ == report_html(data@),
{
    let ghost d = data@;
    let mut html = String::new();
    html.append(HTML_HEAD);
    html.append(data.date.as_str());
    html.append(HTML_AFTER_TITLE);
    html.append(data.date.as_str());
    html.append(HTML_AFTER_SUBTITLE);
    let ghost prefix = html@;

    // Charts
    let nc = data.charts.len();
    let mut i: usize = 0;
    while i < nc
        invariant
            nc == data.charts.len(),
            d == data@,
            i <= nc,
            html@ == prefix + charts_html(d.charts.take(i as int)),
        decreases nc - i,
    {
        let c = &data.charts[i];
        assert(d.charts.take(i + 1).drop_last() =~= d.charts.take(i as int));
        assert(d.charts.take(i + 1).last() == c@);
        html.append(CHART_OPEN);
        html.append(chart_title(c).as_str());
        html.append(CHART_SUBTITLE_OPEN);
        html.append(c.subtitle.as_str());
        html.append(CHART_CANVAS_OPEN);
        html.append(c.id.as_str());
        html.append(CHART_CLOSE);
        i = i + 1;
    }
    assert(d.charts.take(nc as int) =~= d.charts);
    html.append(TABLE_OPEN);
    let ghost prefix2 = html@;

    // Table header
    let nv = data.vmm_results.len();
    let mut j: usize = 0;
    while j < nv
        invariant
            nv == data.vmm_results.len(),
            d == data@,
            j <= nv,
            html@ == prefix2 + header_cells_html(d.vmm_names.take(j as int)),
        decreases nv - j,
    {
        assert(d.vmm_names.take(j + 1).drop_last() =~= d.vmm_names.take(j as int));
        assert(d.vmm_names.take(j + 1).last() == data.vmm_results@[j as int].name@);
        html.append("<th>");
        html.append(data.vmm_results[j].name.as_str());
        html.append("</th>");
        j = j + 1;
    }
    assert(d.vmm_names.take(nv as int) =~= d.vmm_names);
    html.append("</tr></thead><tbody>");
    let ghost prefix3 = html@;

    // Table body
    let nr = data.scenario_rows.len();
    let mut k: usize = 0;
    while k < nr
        invariant
            nr == data.scenario_rows.len(),
            d == data@,
            k <= nr,
            html@ == prefix3 + rows_html(d.rows.take(k as int)),
        decreases nr - k,
    {
        let row = &data.scenario_rows[k];
        assert(d.rows.take(k + 1).drop_last() =~= d.rows.take(k as int));
        assert(d.rows.take(k + 1).last() == row@);
        let ghost before_row = html@;
        html.append("<tr><td><span title=\"");
        html.append(escape_quotes_text(row.name.as_str()).as_str());
        html.append("\">");
        html.append(row.display_name.as_str());
        html.append("</span></td>");
        let ghost cells_start = html@;
        let ghost cells = row@.cells;
        let m = row.cells.len();
        let mut c: usize = 0;
        while c < m
            invariant
                m == row.cells.len(),
                cells == views(row.cells@),
                c <= m,
                html@ == cells_start + cells_html(cells.take(c as int)),
            decreases m - c,
        {
            assert(cells.take(c + 1).drop_last() =~= cells.take(c as int));
            assert(cells.take(c + 1).last() == row.cells@[c as int]@);
            html.append("<td>");
            html.append(row.cells[c].as_str());
            html.append("</td>");
            c = c + 1;
        }
        assert(cells.take(m as int) =~= cells);
        html.append("</tr>");
        assert(html@ =~= before_row + row_html(row@));
        k = k + 1;
    }
    assert(d.rows.take(nr as int) =~= d.rows);
    html.append(SCRIPT_OPEN);
    let ghost prefix4 = html@;

    // Chart initialisation
    let mut l: usize = 0;
    while l < nc
        invariant
            nc == data.charts.len(),
            d == data@,
            l <= nc,
            html@ == prefix4 + charts_script(d.charts.take(l as int)),
        decreases nc - l,
    {
        let c = &data.charts[l];
        assert(d.charts.take(l + 1).drop_last() =~= d.charts.take(l as int));
        assert(d.charts.take(l + 1).last() == c@);
        html.append("new Chart(document.getElementById('");
        html.append(c.id.as_str());
        html.append("'), ");
        html.append(c.config.as_str());
        html.append(");\n");
        l = l + 1;
    }
    html.append("    </script>\n</body>\n</html>");
    assert(html@ =~= report_html(d));
    html
}

/// The script lines of the first `i + 1` charts are those of the first `i` and then chart `i`'s.
proof fn lemma_charts_script_take(cs: Seq<ChartView>, i: int)
    requires
        0 <= i < cs.len(),
    ensures
        charts_script(cs.take(i + 1)) == charts_script(cs.take(i)) + chart_script(cs[i]),
{
    assert(cs.take(i + 1).drop_last() =~= cs.take(i));
    assert(cs.take(i + 1).last() == cs[i]);
}

/// The script lines of the first `i` charts begin those of the first `j`.
proof fn lemma_charts_script_prefix(cs: Seq<ChartView>, i: int, j: int)
    requires
        0 <= i <= j <= cs.len(),
    ensures
        charts_script(cs.take(i)).len() <= charts_script(cs.take(j)).len(),
        charts_script(cs.take(j)).take(charts_script(cs.take(i)).len() as int) == charts_script(cs.take(i)),
    decreases j - i,
{
    if i == j {
        assert(charts_script(cs.take(j)).take(charts_script(cs.take(i)).len() as int) =~= charts_script(cs.take(i)));
    } else {
        lemma_charts_script_prefix(cs, i, j - 1);
        lemma_charts_script_take(cs, j - 1);
        let a = charts_script(cs.take(i));
        let b = charts_script(cs.take(j - 1));
        assert((b + chart_script(cs[j - 1])).take(a.len() as int) =~= b.take(a.len() as int));
    }
}

/// Where the script line of chart `i` begins within the script lines of `cs`.
proof fn lemma_chart_line_at(cs: Seq<ChartView>, i: int)
    requires
        0 <= i < cs.len(),
    ensures
        occurs_at(charts_script(cs), chart_script(cs[i]), charts_script(cs.take(i)).len() as int),
{
    lemma_charts_script_take(cs, i);
    lemma_charts_script_prefix(cs, i + 1, cs.len() as int);
    assert(cs.take(cs.len() as int) =~= cs);
    let a = charts_script(cs.take(i));
    let l = chart_script(cs[i]);
    let all = charts_script(cs);
    assert(all.take((a + l).len() as int) == a + l);
    assert(all.subrange(a.len() as int, (a.len() + l.len()) as int) =~= (a + l).subrange(a.len() as int, (a.len() + l.len()) as int));
    assert((a + l).subrange(a.len() as int, (a.len() + l.len()) as int) =~= l);
}

/// The page draws every chart: for each chart it holds the line
/// `new Chart(document.getElementById('<id>'), <config>);`, these lines come in
/// chart order, and all of them come after the table and the opening of the script.
pub proof fn law_report_draws_every_chart(d: ReportView, i: int, j: int)
    requires
        0 <= i < j < d.charts.len() || (0 <= i < d.charts.len() && i == j),
    ensures
        exists|ks: int, ki: int, kj: int| {
            &&& occurs_at(report_html(d), SCRIPT_OPEN@, ks)
            &&& ks + SCRIPT_OPEN@.len() <= ki <= kj
            &&& (i < j ==> ki < kj)
            &&& occurs_at(report_html(d), "new Chart(document.getElementById('"@ + d.charts[i].id + "'), "@ + d.charts[i].config + ");\n"@, ki)
            &&& occurs_at(report_html(d), "new Chart(document.getElementById('"@ + d.charts[j].id + "'), "@ + d.charts[j].config + ");\n"@, kj)
        },
{
    let cs = d.charts;
    let before = HTML_HEAD@ + d.date + HTML_AFTER_TITLE@ + d.date + HTML_AFTER_SUBTITLE@
        + charts_html(d.charts)
        + TABLE_OPEN@ + header_cells_html(d.vmm_names) + "</tr></thead><tbody>"@
        + rows_html(d.rows);
    let tail = "    </script>\n</body>\n</html>"@;
    let html = report_html(d);
    assert(html =~= before + SCRIPT_OPEN@ + charts_script(cs) + tail);
    let ks = before.len() as int;
    let base = ks + SCRIPT_OPEN@.len();
    assert(html.subrange(ks, base) =~= SCRIPT_OPEN@);
    lemma_chart_line_at(cs, i);
    lemma_chart_line_at(cs, j);
    let pi = charts_script(cs.take(i)).len() as int;
    let pj = charts_script(cs.take(j)).len() as int;
    let li = chart_script(cs[i]);
    let lj = chart_script(cs[j]);
    let sc = charts_script(cs);
    assert(html.subrange(base + pi, base + pi + li.len()) =~= sc.subrange(pi, pi + li.len()));
    assert(html.subrange(base + pj, base + pj + lj.len()) =~= sc.subrange(pj, pj + lj.len()));
    if i < j {
        lemma_charts_script_take(cs, i);
        lemma_charts_script_prefix(cs, i + 1, j);
        reveal_strlit(");\n");
        assert(chart_script(cs[i]).len() > 0);
    }
    assert(occurs_at(html, SCRIPT_OPEN@, ks));
    assert(occurs_at(html, li, base + pi));
    assert(occurs_at(html, lj, base + pj));
}

} // verus!
