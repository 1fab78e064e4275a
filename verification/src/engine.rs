//! Classification of directory listings and planning of removals.
//!
//! A directory is handed over as the plain list of its direct child entry
//! names.  Classification looks at nothing else, so a project root is by
//! construction decided from direct children alone.

use vstd::prelude::*;
use crate::pattern::{Pattern, PatternView, spec_name_matches, pattern_matches};
use crate::rules::{RuleSet, RuleSetView};

verus! {

/// The listing satisfies at least one of the patterns: some direct child
/// name matches some indicator.
pub open spec fn spec_dir_matches(children: Seq<Seq<char>>, indicators: Seq<PatternView>) -> bool {
    exists|i: int, j: int|
        0 <= i < indicators.len() && 0 <= j < children.len() && spec_name_matches(
            #[trigger] indicators[i],
            #[trigger] children[j],
        )
}

/// The target names, kept in order, that occur in the listing.
pub open spec fn spec_present_targets(children: Seq<Seq<char>>, targets: Seq<Seq<char>>) -> Seq<
    Seq<char>,
>
    decreases targets.len(),
{
    if targets.len() == 0 {
        Seq::empty()
    } else {
        let rest = spec_present_targets(children, targets.drop_last());
        if children.contains(targets.last()) {
            rest.push(targets.last())
        } else {
            rest
        }
    }
}

/// What one pass acts on in a directory: nothing unless the directory is a
/// project root, else every listed target present in the listing.
pub open spec fn spec_plan(children: Seq<Seq<char>>, rs: RuleSetView) -> Seq<Seq<char>> {
    if spec_dir_matches(children, rs.indicators) {
        spec_present_targets(children, rs.targets)
    } else {
        Seq::empty()
    }
}

/// What a run is allowed to delete in a directory: nothing at all in
/// dry-run mode, the plan otherwise.
pub open spec fn spec_deletions(children: Seq<Seq<char>>, rs: RuleSetView, dry_run: bool) -> Seq<
    Seq<char>,
> {
    if dry_run {
        Seq::empty()
    } else {
        spec_plan(children, rs)
    }
}

/// Is the directory with these direct child names a project root for the
/// given indicators?
pub fn is_project_root(children: &Vec<String>, indicators: &Vec<Pattern>) -> (r: bool)
    ensures
        r == spec_dir_matches(children.deep_view(), indicators.deep_view()),
{
    let mut i: usize = 0;
    while i < indicators.len()
        invariant
            i <= indicators.len(),
            forall|k: int, j: int|
                0 <= k < i && 0 <= j < children.deep_view().len() ==> !spec_name_matches(
                    #[trigger] indicators.deep_view()[k],
                    #[trigger] children.deep_view()[j],
                ),
        decreases indicators.len() - i,
    {
        let mut j: usize = 0;
        while j < children.len()
            invariant
                i < indicators.len(),
                j <= children.len(),
                forall|l: int|
                    0 <= l < j ==> !spec_name_matches(
                        indicators.deep_view()[i as int],
                        #[trigger] children.deep_view()[l],
                    ),
            decreases children.len() - j,
        {
            if pattern_matches(&indicators[i], &children[j]) {
                assert(spec_name_matches(
                    indicators.deep_view()[i as int],
                    children.deep_view()[j as int],
                ));
                return true;
            }
            j += 1;
        }
        i += 1;
    }
    false
}

/// Does the listing contain this exact name?
pub fn contains_name(children: &Vec<String>, name: &String) -> (r: bool)
    ensures
        r == children.deep_view().contains(name@),
{
    let mut j: usize = 0;
    while j < children.len()
        invariant
            j <= children.len(),
            forall|l: int| 0 <= l < j ==> children.deep_view()[l] != name@,
        decreases children.len() - j,
    {
        if <String as PartialEq>::eq(&children[j], name) {
            assert(children.deep_view()[j as int] == name@);
            return true;
        }
        j += 1;
    }
    false
}

/// The target directories to act on in a directory with these direct
/// children: empty unless the directory is a project root, else exactly
/// the targets of the rule set that occur in the listing, in order.
pub fn plan_targets(children: &Vec<String>, rs: &RuleSet) -> (plan: Vec<String>)
    ensures
        plan.deep_view() == spec_plan(children.deep_view(), rs@),
{
    let mut plan: Vec<String> = Vec::new();
    if !is_project_root(children, &rs.indicators) {
        assert(plan.deep_view() =~= Seq::<Seq<char>>::empty());
        return plan;
    }
    let ghost cdv = children.deep_view();
    let ghost tdv = rs.targets.deep_view();
    let mut i: usize = 0;
    while i < rs.targets.len()
        invariant
            i <= rs.targets.len(),
            cdv == children.deep_view(),
            tdv == rs.targets.deep_view(),
            plan.deep_view() == spec_present_targets(cdv, tdv.take(i as int)),
        decreases rs.targets.len() - i,
    {
        let ghost old_plan = plan.deep_view();
        if contains_name(children, &rs.targets[i]) {
            plan.push(rs.targets[i].clone());
            assert(plan.deep_view() =~= old_plan.push(tdv[i as int]));
        }
        proof {
            assert(tdv.take(i + 1).drop_last() =~= tdv.take(i as int));
            assert(tdv.take(i + 1).last() == tdv[i as int]);
        }
        i += 1;
    }
    proof {
        assert(tdv.take(rs.targets.len() as int) =~= tdv);
    }
    plan
}

/// The directories a pass may actually delete here.  In dry-run mode the
/// result is empty whatever the listing holds: a dry run commands no
/// removal.
pub fn deletions_for(children: &Vec<String>, rs: &RuleSet, dry_run: bool) -> (d: Vec<String>)
    ensures
        d.deep_view() == spec_deletions(children.deep_view(), rs@, dry_run),
        dry_run ==> d@.len() == 0,
{
    if dry_run {
        let d: Vec<String> = Vec::new();
        assert(d.deep_view() =~= Seq::<Seq<char>>::empty());
        d
    } else {
        plan_targets(children, rs)
    }
}

} // verus!
