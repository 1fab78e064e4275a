use begone::counters::{ActionOutcome, RunCounters};
use begone::engine::{deletions_for, plan_targets};
use begone::report::summary_line;
use begone::rules::{js_rules, python_rules, rust_rules};

fn names(list: &[&str]) -> Vec<String> {
    list.iter().map(|s| s.to_string()).collect()
}

/// Apply a plan to a listing the way a successful live run would: the
/// planned names disappear from the directory.
fn without(children: &[&str], removed: &Vec<String>) -> Vec<String> {
    children
        .iter()
        .filter(|c| !removed.iter().any(|r| r == *c))
        .map(|s| s.to_string())
        .collect()
}

#[test]
fn rust_live_scenario() {
    // Root with Cargo.toml and a target/ subtree: one removal, summary
    // in the singular.
    let rs = rust_rules();
    let children = names(&["Cargo.toml", "target", "src"]);
    let plan = plan_targets(&children, &rs);
    assert_eq!(plan, names(&["target"]));
    assert_eq!(deletions_for(&children, &rs, false), names(&["target"]));

    let mut counters = RunCounters::new();
    counters.apply_outcomes(&vec![ActionOutcome::Removed]);
    assert_eq!(counters.cleaned, 1);
    assert_eq!(counters.failed, 0);
    assert_eq!(summary_line(false, counters.cleaned, &rs.label), "Removed 1 Rust project");
}

#[test]
fn js_dry_run_scenario() {
    // package.json beside node_modules/ and dist/: both reported, both
    // counted, nothing commanded for deletion.
    let rs = js_rules();
    let children = names(&["package.json", "node_modules", "dist"]);
    let plan = plan_targets(&children, &rs);
    assert_eq!(plan, names(&["node_modules", "dist"]));
    assert_eq!(deletions_for(&children, &rs, true), Vec::<String>::new());

    let mut counters = RunCounters::new();
    counters.apply_outcomes(&vec![ActionOutcome::WouldRemove, ActionOutcome::WouldRemove]);
    assert_eq!(counters.cleaned, 2);
    assert_eq!(counters.failed, 0);
    assert_eq!(
        summary_line(true, counters.cleaned, &rs.label),
        "Would remove 2 JavaScript/TypeScript projects"
    );
}

#[test]
fn nested_roots_matched_independently() {
    // A monorepo root and a nested package each hold package.json and
    // node_modules; both are matched and both targets planned.
    let rs = js_rules();
    let mono = names(&["package.json", "packages", "node_modules"]);
    let nested = names(&["package.json", "node_modules", "src"]);

    let mono_plan = plan_targets(&mono, &rs);
    let nested_plan = plan_targets(&nested, &rs);
    assert_eq!(mono_plan, names(&["node_modules"]));
    assert_eq!(nested_plan, names(&["node_modules"]));

    let mut counters = RunCounters::new();
    counters.apply_outcomes(&vec![ActionOutcome::Removed]);
    counters.apply_outcomes(&vec![ActionOutcome::Removed]);
    assert_eq!(counters.cleaned, 2);
    assert_eq!(counters.failed, 0);
}

#[test]
fn live_run_twice_plans_nothing_the_second_time() {
    // Idempotence on concrete listings: after the planned targets are
    // gone, a second pass plans nothing anywhere.
    let rs = js_rules();
    let mono = ["package.json", "packages", "node_modules"];
    let nested = ["package.json", "node_modules", "src"];
    for children in [&mono[..], &nested[..]] {
        let first = plan_targets(&names(children), &rs);
        assert!(!first.is_empty());
        let after = without(children, &first);
        let second = plan_targets(&after, &rs);
        assert_eq!(second, Vec::<String>::new());
    }
}

#[test]
fn failure_is_isolated_and_counted_exactly() {
    // Three eligible targets in one Python root; the middle deletion
    // fails.  The others are still counted and the failure count is
    // exactly one; a later root is unaffected.
    let rs = python_rules();
    let children = names(&["requirements.txt", ".venv", "venv", "__pycache__"]);
    let plan = plan_targets(&children, &rs);
    assert_eq!(plan, names(&[".venv", "venv", "__pycache__"]));

    let mut counters = RunCounters::new();
    counters.apply_outcomes(&vec![
        ActionOutcome::Removed,
        ActionOutcome::Failed,
        ActionOutcome::Removed,
    ]);
    assert_eq!(counters.cleaned, 2);
    assert_eq!(counters.failed, 1);

    let other = names(&["requirements.txt", ".venv"]);
    assert_eq!(plan_targets(&other, &rs), names(&[".venv"]));
    counters.apply_outcomes(&vec![ActionOutcome::Removed]);
    assert_eq!(counters.cleaned, 3);
    assert_eq!(counters.failed, 1);
}

#[test]
fn no_plan_without_indicator() {
    // A target directory alone never makes a root: nothing is planned,
    // so nothing can be deleted there.
    let rs = rust_rules();
    let children = names(&["target"]);
    assert_eq!(plan_targets(&children, &rs), Vec::<String>::new());
    assert_eq!(deletions_for(&children, &rs, false), Vec::<String>::new());
}

#[test]
fn only_listed_targets_are_planned() {
    // Unlisted directories under a matched root are left alone.
    let rs = rust_rules();
    let children = names(&["Cargo.toml", "target", "coverage", "node_modules"]);
    assert_eq!(plan_targets(&children, &rs), names(&["target"]));
}

#[test]
fn plan_keeps_rule_set_order() {
    let rs = js_rules();
    let children = names(&["build", "dist", ".cache", "package.json"]);
    assert_eq!(plan_targets(&children, &rs), names(&[".cache", "dist", "build"]));
}
