//! What the `run` and `list` commands select and print.
use vstd::prelude::*;
use crate::catalog::{get_all_scenarios, get_scenario_meta, spec_all_scenarios, spec_scenario_meta};
use crate::config::{VmmConfig, VmmConfigView, enabled_vmms, vmm_views};
use crate::text::{concat3, str_eq, views};
use crate::vmm::registry::{kind_name, spec_detect, RunnerView, VmmRegistry};
use crate::vmm::traits::ProbeOutcome;

verus! {

/// Whether `names` holds `name`.
pub fn names_contain(names: &Vec<String>, name: &str) -> (r: bool)
    ensures
        r == views(names@).contains(name@),
{
    let n = names.len();
    let mut i: usize = 0;
    while i < n
        invariant
            n == names.len(),
            i <= n,
            forall|j: int| 0 <= j < i ==> names@[j]@ != name@,
        decreases n - i,
    {
        if str_eq(names[i].as_str(), name) {
            assert(views(names@)[i as int] == name@);
            return true;
        }
        i = i + 1;
    }
    assert forall|j: int| 0 <= j < views(names@).len() implies views(names@)[j] != name@ by {
        assert(views(names@)[j] == names@[j]@);
    }
    false
}

/// The configured VMMs whose names are among `names`, in configuration order.
pub open spec fn vmms_named(cs: Seq<VmmConfigView>, names: Seq<Seq<char>>) -> Seq<VmmConfigView>
    decreases cs.len(),
{
    if cs.len() == 0 {
        Seq::empty()
    } else if names.contains(cs.last().name) {
        vmms_named(cs.drop_last(), names).push(cs.last())
    } else {
        vmms_named(cs.drop_last(), names)
    }
}

/// The VMMs a run uses: those named on the command line, else the enabled ones.
pub open spec fn spec_selected_vmms(cs: Seq<VmmConfigView>, names: Option<Seq<Seq<char>>>) -> Seq<VmmConfigView> {
    match names {
        Some(ns) => vmms_named(cs, ns),
        None => enabled_vmms(cs),
    }
}

/// The VMMs a run uses; a run without any is refused.
pub fn select_vmms<'a>(configs: &'a Vec<VmmConfig>, names: &Option<Vec<String>>) -> (r: Result<Vec<&'a VmmConfig>, String>)
    ensures
        match r {
            Ok(v) => v@.map_values(|c: &VmmConfig| c@) == spec_selected_vmms(
                vmm_views(configs@),
                match names { Some(ns) => Some(views(ns@)), None => None },
            ) && v.len() > 0,
            Err(e) => spec_selected_vmms(
                vmm_views(configs@),
                match names { Some(ns) => Some(views(ns@)), None => None },
            ).len() == 0 && e@ == "No VMMs selected"@,
        },
{
    let ghost all = vmm_views(configs@);
    let ghost ns = match names { Some(ns) => Some(views(ns@)), None => None };
    let mut r: Vec<&VmmConfig> = Vec::new();
    let n = configs.len();
    let mut i: usize = 0;
    while i < n
        invariant
            n == configs.len(),
            all == vmm_views(configs@),
            i <= n,
            r@.map_values(|c: &VmmConfig| c@) == spec_selected_vmms(all.take(i as int), ns),
            ns == match names { Some(ns) => Some(views(ns@)), None => None },
        decreases n - i,
    {
        let c = &configs[i];
        assert(all.take(i + 1).drop_last() =~= all.take(i as int));
        assert(all.take(i + 1).last() == c@);
        let keep = match names {
            Some(list) => names_contain(list, c.name.as_str()),
            None => c.enabled,
        };
        if keep {
            r.push(c);
        }
        assert(r@.map_values(|c: &VmmConfig| c@) =~= spec_selected_vmms(all.take(i + 1), ns));
        i = i + 1;
    }
    assert(all.take(n as int) =~= all);
    if r.len() == 0 {
        return Err("No VMMs selected".to_owned());
    }
    Ok(r)
}

/// The warning about a selected VMM whose binary could not be detected.
pub open spec fn detect_warning(name: Seq<char>, binary: Seq<char>, error: Seq<char>) -> Seq<char> {
    "Warning: Failed to detect VMM "@ + name + " at "@ + binary + ": "@ + error
}

/// The runners registered for the VMMs `cs`, given the outcome of each one's check,
/// and the warnings about those that could not be detected, both in order.
pub open spec fn detected(cs: Seq<VmmConfigView>, os: Seq<ProbeOutcome>) -> (Seq<(Seq<char>, RunnerView)>, Seq<Seq<char>>)
    decreases cs.len(),
{
    if cs.len() == 0 || os.len() == 0 {
        (Seq::empty(), Seq::empty())
    } else {
        let (es, ws) = detected(cs.drop_last(), os.drop_last());
        match spec_detect(cs.last().binary, os.last()) {
            Ok(x) => (es.push((kind_name(x.kind), x)), ws),
            Err(e) => (es, ws.push(detect_warning(cs.last().name, cs.last().binary, e))),
        }
    }
}

/// Detects and registers the binary of each selected VMM, given the outcome of the
/// check that each needs (`outcomes[i]` for `selected[i]`); also gives the warnings
/// about the VMMs that could not be detected.
pub fn register_selected(selected: &Vec<&VmmConfig>, outcomes: Vec<ProbeOutcome>) -> (r: (VmmRegistry, Vec<String>))
    requires
        outcomes.len() == selected.len(),
    ensures
        (r.0.view(), views(r.1@)) == detected(selected@.map_values(|c: &VmmConfig| c@), outcomes@),
{
    let ghost cs = selected@.map_values(|c: &VmmConfig| c@);
    let ghost os = outcomes@;
    let mut registry = VmmRegistry::new();
    let mut warnings: Vec<String> = Vec::new();
    let mut rest = outcomes;
    let n = selected.len();
    let mut i: usize = 0;
    assert(os.skip(0) =~= os);
    assert(cs.take(0) =~= Seq::<VmmConfigView>::empty());
    while i < n
        invariant
            n == selected.len() == os.len(),
            cs == selected@.map_values(|c: &VmmConfig| c@),
            i <= n,
            rest@ == os.skip(i as int),
            (registry.view(), views(warnings@)) == detected(cs.take(i as int), os.take(i as int)),
        decreases n - i,
    {
        let c = selected[i];
        let outcome = rest.remove(0);
        assert(outcome == os[i as int]);
        assert(rest@ =~= os.skip(i + 1));
        let ghost before = views(warnings@);
        let ghost expected = spec_detect(c.binary@, outcome);
        assert(cs.take(i + 1).drop_last() =~= cs.take(i as int));
        assert(os.take(i + 1).drop_last() =~= os.take(i as int));
        assert(cs.take(i + 1).last() == c@);
        assert(os.take(i + 1).last() == outcome);
        match registry.detect_and_register(c.binary.as_str(), outcome) {
            Ok(()) => {},
            Err(e) => {
                let mut w = concat3("Warning: Failed to detect VMM ", c.name.as_str(), " at ");
                w.append(c.binary.as_str());
                w.append(": ");
                w.append(e.as_str());
                warnings.push(w);
                assert(views(warnings@) =~= before.push(detect_warning(c.name@, c.binary@, e@)));
            },
        }
        i = i + 1;
    }
    assert(cs.take(n as int) =~= cs);
    assert(os.take(n as int) =~= os);
    (registry, warnings)
}

/// The first of `ns` that is not a scenario of the catalogue.
pub open spec fn first_unknown(ns: Seq<Seq<char>>) -> Option<Seq<char>>
    decreases ns.len(),
{
    if ns.len() == 0 {
        None
    } else if !spec_all_scenarios().contains(ns[0]) {
        Some(ns[0])
    } else {
        first_unknown(ns.drop_first())
    }
}

/// The scenarios a run uses: all of them when none is named or `all` is, else those
/// named, provided each is a scenario of the catalogue; else the first unknown one is refused.
pub open spec fn spec_selected_scenarios(names: Option<Seq<Seq<char>>>) -> Result<Seq<Seq<char>>, Seq<char>> {
    match names {
        Some(ns) => if ns.contains("all"@) {
            Ok(spec_all_scenarios())
        } else {
            match first_unknown(ns) {
                Some(n) => Err("Unknown scenario: "@ + n),
                None => Ok(ns),
            }
        },
        None => Ok(spec_all_scenarios()),
    }
}

/// The position of the first of `ns` that is not a scenario of the catalogue.
fn find_unknown(ns: &Vec<String>) -> (r: Option<usize>)
    ensures
        match r {
            Some(i) => i < ns.len() && first_unknown(views(ns@)) == Some(ns@[i as int]@),
            None => first_unknown(views(ns@)).is_none(),
        },
{
    let all = get_all_scenarios();
    let ghost vs = views(ns@);
    let n = ns.len();
    let mut i: usize = 0;
    assert(vs.skip(0) =~= vs);
    while i < n
        invariant
            n == ns.len(),
            vs == views(ns@),
            views(all@) == spec_all_scenarios(),
            i <= n,
            first_unknown(vs.skip(i as int)) == first_unknown(vs),
        decreases n - i,
    {
        let ghost rest = vs.skip(i as int);
        assert(rest[0] == ns@[i as int]@);
        assert(rest.drop_first() =~= vs.skip(i + 1));
        if !names_contain(&all, ns[i].as_str()) {
            return Some(i);
        }
        i = i + 1;
    }
    assert(vs.skip(n as int).len() == 0);
    None
}

/// The scenarios a run uses.
pub fn select_scenarios(names: Option<Vec<String>>) -> (r: Result<Vec<String>, String>)
    ensures
        match r {
            Ok(v) => spec_selected_scenarios(match names { Some(ns) => Some(views(ns@)), None => None })
                == Ok::<Seq<Seq<char>>, Seq<char>>(views(v@)),
            Err(e) => spec_selected_scenarios(match names { Some(ns) => Some(views(ns@)), None => None })
                == Err::<Seq<Seq<char>>, Seq<char>>(e@),
        },
{
    match names {
        Some(ns) => {
            if names_contain(&ns, "all") {
                return Ok(get_all_scenarios());
            }
            match find_unknown(&ns) {
                Some(i) => {
                    proof {
                        reveal_strlit("");
                    }
                    let e = concat3("Unknown scenario: ", ns[i].as_str(), "");
                    assert(e@ =~= "Unknown scenario: "@ + ns@[i as int]@);
                    Err(e)
                },
                None => Ok(ns),
            }
        },
        None => Ok(get_all_scenarios()),
    }
}

/// The listing line of a VMM.
pub open spec fn vmm_line(name: Seq<char>) -> Seq<char> {
    "  - "@ + name
}

/// The listing line of a scenario: its name and display name.
pub open spec fn scenario_line(name: Seq<char>) -> Seq<char> {
    "  - "@ + name + " ("@ + spec_scenario_meta(name).unwrap().display_name + ")"@
}

/// The VMM section of a listing.
pub open spec fn vmm_section(names: Seq<Seq<char>>) -> Seq<Seq<char>> {
    seq!["Available VMMs:"@] + names.map_values(|n: Seq<char>| vmm_line(n))
}

/// The scenario lines of a listing.
pub open spec fn scenario_lines() -> Seq<Seq<char>> {
    spec_all_scenarios().map_values(|n: Seq<char>| scenario_line(n))
}

/// What `list` prints: the VMMs and/or the scenarios as asked, both when neither is asked.
pub open spec fn spec_list_lines(vmm_names: Seq<Seq<char>>, list_vmm: bool, list_scenario: bool) -> Seq<Seq<char>> {
    if !list_vmm && !list_scenario {
        vmm_section(vmm_names) + seq!["\nAvailable Scenarios:"@] + scenario_lines()
    } else {
        (if list_vmm { vmm_section(vmm_names) } else { Seq::empty() })
            + (if list_scenario { seq!["Available Scenarios:"@] + scenario_lines() } else { Seq::empty() })
    }
}

fn push_vmm_section(out: &mut Vec<String>, vmm_names: &Vec<String>)
    ensures
        views(final(out)@) == views(old(out)@) + vmm_section(views(vmm_names@)),
{
    let ghost start = views(out@);
    out.push("Available VMMs:".to_owned());
    let n = vmm_names.len();
    let mut i: usize = 0;
    while i < n
        invariant
            n == vmm_names.len(),
            i <= n,
            views(out@) == start + seq!["Available VMMs:"@] + views(vmm_names@).take(i as int).map_values(|n: Seq<char>| vmm_line(n)),
        decreases n - i,
    {
        let ghost before = views(out@);
        out.push(concat3("  - ", vmm_names[i].as_str(), ""));
        proof {
            reveal_strlit("");
            let t = views(vmm_names@).take(i + 1);
            assert(t.drop_last() =~= views(vmm_names@).take(i as int));
            assert(t.map_values(|n: Seq<char>| vmm_line(n)) =~=
                views(vmm_names@).take(i as int).map_values(|n: Seq<char>| vmm_line(n)).push(vmm_line(vmm_names@[i as int]@)));
            assert(views(out@) =~= before.push(vmm_line(vmm_names@[i as int]@)));
        }
        i = i + 1;
    }
    assert(views(vmm_names@).take(n as int) =~= views(vmm_names@));
}

fn push_scenario_lines(out: &mut Vec<String>)
    ensures
        views(final(out)@) == views(old(out)@) + scenario_lines(),
{
    let ghost start = views(out@);
    let all = get_all_scenarios();
    let n = all.len();
    let mut i: usize = 0;
    while i < n
        invariant
            n == all.len(),
            views(all@) == spec_all_scenarios(),
            i <= n,
            views(out@) == start + spec_all_scenarios().take(i as int).map_values(|n: Seq<char>| scenario_line(n)),
        decreases n - i,
    {
        let ghost before = views(out@);
        let name = all[i].as_str();
        assert(spec_all_scenarios()[i as int] == name@);
        proof {
            crate::catalog::lemma_listed_scenarios_have_meta(i as int);
        }
        match get_scenario_meta(name) {
            Some(meta) => {
                let mut line = concat3("  - ", name, " (");
                line.append(meta.display_name.as_str());
                line.append(")");
                out.push(line);
            },
            None => {
                assert(false);
            },
        }
        proof {
            let t = spec_all_scenarios().take(i + 1);
            assert(t.drop_last() =~= spec_all_scenarios().take(i as int));
            assert(t.map_values(|n: Seq<char>| scenario_line(n)) =~=
                spec_all_scenarios().take(i as int).map_values(|n: Seq<char>| scenario_line(n)).push(scenario_line(name@)));
            assert(views(out@) =~= before.push(scenario_line(name@)));
        }
        i = i + 1;
    }
    assert(spec_all_scenarios().take(n as int) =~= spec_all_scenarios());
}

/// The lines that `list` prints.
pub fn list_lines(vmm_names: &Vec<String>, list_vmm: bool, list_scenario: bool) -> (r: Vec<String>)
    ensures
        views(r@) == spec_list_lines(views(vmm_names@), list_vmm, list_scenario),
{
    let mut out: Vec<String> = Vec::new();
    assert(views(out@) =~= Seq::<Seq<char>>::empty());
    if !list_vmm && !list_scenario {
        push_vmm_section(&mut out, vmm_names);
        out.push("\nAvailable Scenarios:".to_owned());
        push_scenario_lines(&mut out);
    } else {
        if list_vmm {
            push_vmm_section(&mut out, vmm_names);
        }
        if list_scenario {
            out.push("Available Scenarios:".to_owned());
            push_scenario_lines(&mut out);
        }
    }
    assert(views(out@) =~= spec_list_lines(views(vmm_names@), list_vmm, list_scenario));
    out
}

/// The directory that results go to unless another is given.
pub const DEFAULT_OUTPUT_DIR: &'static str = "lingbench_results";

/// The file name of a report made at `timestamp`: `lingbench_Results_{timestamp}.html`.
pub open spec fn spec_report_file_name(timestamp: Seq<char>) -> Seq<char> {
    "lingbench_Results_"@ + timestamp + ".html"@
}

/// Computes [`spec_report_file_name`].
pub fn report_file_name(timestamp: &str) -> (r: String)
    ensures
        r@ == spec_report_file_name(timestamp@),
{
    concat3("lingbench_Results_", timestamp, ".html")
}

/// The path of the saved results in the output directory `dir`.
pub fn results_path(dir: &str) -> (r: String)
    ensures
        r@ == crate::paths::path_join(dir@, "results.json"@),
{
    crate::paths::join_path(dir, "results.json")
}

/// What a build step of `target` does, in order: `true` for the kernel, `false` for the root file system.
pub open spec fn spec_build_steps(target: crate::cli::BuildTarget) -> Seq<bool> {
    match target {
        crate::cli::BuildTarget::Kernel => seq![true],
        crate::cli::BuildTarget::Rootfs => seq![false],
        crate::cli::BuildTarget::All => seq![true, false],
    }
}

proof fn lemma_vmms_named(cs: Seq<VmmConfigView>, names: Seq<Seq<char>>, pred: spec_fn(VmmConfigView) -> bool)
    requires
        forall|c: VmmConfigView| #[trigger] pred(c) == names.contains(c.name),
    ensures
        vmms_named(cs, names) == cs.filter(pred),
    decreases cs.len(),
{
    reveal_with_fuel(Seq::filter, 1);
    if cs.len() > 0 {
        lemma_vmms_named(cs.drop_last(), names, pred);
    }
}

proof fn lemma_first_unknown(ns: Seq<Seq<char>>)
    ensures
        first_unknown(ns).is_none() <==> (forall|i: int| 0 <= i < ns.len() ==> spec_all_scenarios().contains(#[trigger] ns[i])),
        first_unknown(ns) matches Some(n) ==> !spec_all_scenarios().contains(n) && ns.contains(n),
    decreases ns.len(),
{
    if ns.len() > 0 {
        lemma_first_unknown(ns.drop_first());
        assert forall|i: int| 0 < i < ns.len() implies ns[i] == ns.drop_first()[i - 1] by {}
        if let Some(n) = first_unknown(ns.drop_first()) {
            if spec_all_scenarios().contains(ns[0]) {
                let j = choose|j: int| 0 <= j < ns.drop_first().len() && ns.drop_first()[j] == n;
                assert(ns[j + 1] == n);
            }
        }
        if !spec_all_scenarios().contains(ns[0]) {
            assert(ns.contains(ns[0]));
        } else if first_unknown(ns.drop_first()).is_none() {
            assert forall|i: int| 0 <= i < ns.len() implies spec_all_scenarios().contains(#[trigger] ns[i]) by {
                if i > 0 {
                    assert(ns[i] == ns.drop_first()[i - 1]);
                }
            }
        }
    }
}

/// Naming VMMs on the command line keeps exactly the configured VMMs with those
/// names, in configuration order, and naming none keeps the enabled ones; naming
/// `all` as a scenario, or none, selects every scenario of the catalogue, and a run
/// that names a scenario outside the catalogue is refused.
pub proof fn law_selection(cs: Seq<VmmConfigView>, names: Seq<Seq<char>>, scenarios: Seq<Seq<char>>)
    ensures
        spec_selected_vmms(cs, Some(names)) == cs.filter(|c: VmmConfigView| names.contains(c.name)),
        spec_selected_vmms(cs, None) == enabled_vmms(cs),
        scenarios.contains("all"@) ==> spec_selected_scenarios(Some(scenarios))
            == Ok::<Seq<Seq<char>>, Seq<char>>(spec_all_scenarios()),
        !scenarios.contains("all"@) && (forall|i: int| 0 <= i < scenarios.len() ==> spec_all_scenarios().contains(#[trigger] scenarios[i]))
            ==> spec_selected_scenarios(Some(scenarios)) == Ok::<Seq<Seq<char>>, Seq<char>>(scenarios),
        !scenarios.contains("all"@) && (exists|i: int| 0 <= i < scenarios.len() && !spec_all_scenarios().contains(#[trigger] scenarios[i]))
            ==> spec_selected_scenarios(Some(scenarios)) is Err,
        spec_selected_scenarios(None) == Ok::<Seq<Seq<char>>, Seq<char>>(spec_all_scenarios()),
{
    lemma_vmms_named(cs, names, |c: VmmConfigView| names.contains(c.name));
    lemma_first_unknown(scenarios);
}

} // verus!
