//! Laws of the cleaner, proved over the same specifications its
//! executable functions are verified against.

use vstd::prelude::*;
use crate::engine::{spec_dir_matches, spec_present_targets, spec_plan, spec_deletions};
use crate::rules::RuleSetView;

verus! {

/// The listing after the named entries have been deleted from it: the
/// same names, in order, with every member of `removed` taken out.
pub open spec fn spec_remove_names(children: Seq<Seq<char>>, removed: Seq<Seq<char>>) -> Seq<
    Seq<char>,
>
    decreases children.len(),
{
    if children.len() == 0 {
        Seq::empty()
    } else {
        let rest = spec_remove_names(children.drop_last(), removed);
        if removed.contains(children.last()) {
            rest
        } else {
            rest.push(children.last())
        }
    }
}

proof fn lemma_push_contains(s: Seq<Seq<char>>, x: Seq<char>, t: Seq<char>)
    ensures
        s.push(x).contains(t) <==> (s.contains(t) || t == x),
{
    if s.contains(t) {
        let i = choose|i: int| 0 <= i < s.len() && s[i] == t;
        assert(s.push(x)[i] == t);
    }
    if t == x {
        assert(s.push(x)[s.len() as int] == t);
    }
    if s.push(x).contains(t) {
        let i = choose|i: int| 0 <= i < s.push(x).len() && s.push(x)[i] == t;
        if i < s.len() {
            assert(s[i] == t);
        }
    }
}

proof fn lemma_contains_split(s: Seq<Seq<char>>, t: Seq<char>)
    requires
        s.len() > 0,
    ensures
        s.contains(t) <==> (s.drop_last().contains(t) || t == s.last()),
{
    if s.drop_last().contains(t) {
        let i = choose|i: int| 0 <= i < s.drop_last().len() && s.drop_last()[i] == t;
        assert(s[i] == t);
    }
    if t == s.last() {
        assert(s[s.len() - 1] == t);
    }
    if s.contains(t) {
        let i = choose|i: int| 0 <= i < s.len() && s[i] == t;
        if i < s.len() - 1 {
            assert(s.drop_last()[i] == t);
        }
    }
}

/// A name survives the deletion exactly when it was in the listing and
/// was not among the removed names.
pub proof fn lemma_remove_names_contains(
    children: Seq<Seq<char>>,
    removed: Seq<Seq<char>>,
    t: Seq<char>,
)
    ensures
        spec_remove_names(children, removed).contains(t) <==> (children.contains(t)
            && !removed.contains(t)),
    decreases children.len(),
{
    if children.len() == 0 {
        assert(!spec_remove_names(children, removed).contains(t));
        assert(!children.contains(t));
    } else {
        lemma_remove_names_contains(children.drop_last(), removed, t);
        lemma_contains_split(children, t);
        let rest = spec_remove_names(children.drop_last(), removed);
        if !removed.contains(children.last()) {
            lemma_push_contains(rest, children.last(), t);
        }
    }
}

/// Deleting nothing changes nothing.
pub proof fn lemma_remove_no_names(children: Seq<Seq<char>>)
    ensures
        spec_remove_names(children, Seq::<Seq<char>>::empty()) == children,
    decreases children.len(),
{
    if children.len() == 0 {
        assert(spec_remove_names(children, Seq::<Seq<char>>::empty()) =~= children);
    } else {
        lemma_remove_no_names(children.drop_last());
        assert(spec_remove_names(children, Seq::<Seq<char>>::empty()) =~= children);
    }
}

/// Every listed target that exists in the listing is planned for action:
/// the plan of a matched root leaves no eligible target out, so one
/// failing target never keeps another from being attempted.
pub proof fn lemma_plan_complete(children: Seq<Seq<char>>, targets: Seq<Seq<char>>, t: Seq<char>)
    requires
        targets.contains(t),
        children.contains(t),
    ensures
        spec_present_targets(children, targets).contains(t),
    decreases targets.len(),
{
    lemma_contains_split(targets, t);
    let rest = spec_present_targets(children, targets.drop_last());
    if t == targets.last() {
        assert(rest.push(targets.last())[rest.len() as int] == t);
    } else {
        lemma_plan_complete(children, targets.drop_last(), t);
        let i = choose|i: int| 0 <= i < rest.len() && rest[i] == t;
        if children.contains(targets.last()) {
            assert(rest.push(targets.last())[i] == t);
        }
    }
}

/// When no listed target exists in the listing, the plan is empty.
pub proof fn lemma_plan_empty(children: Seq<Seq<char>>, targets: Seq<Seq<char>>)
    requires
        forall|k: int| 0 <= k < targets.len() ==> !children.contains(#[trigger] targets[k]),
    ensures
        spec_present_targets(children, targets).len() == 0,
    decreases targets.len(),
{
    if targets.len() > 0 {
        assert(forall|k: int|
            0 <= k < targets.drop_last().len() ==> targets.drop_last()[k] == targets[k]);
        lemma_plan_empty(children, targets.drop_last());
        assert(!children.contains(targets[targets.len() - 1]));
    }
}

/// Law: a dry run mutates nothing.  In dry-run mode the commanded
/// deletions are empty, and applying them to any listing returns the
/// listing unchanged.
pub proof fn lemma_dry_run_preserves_listing(children: Seq<Seq<char>>, rs: RuleSetView)
    ensures
        spec_deletions(children, rs, true) == Seq::<Seq<char>>::empty(),
        spec_remove_names(children, spec_deletions(children, rs, true)) == children,
{
    lemma_remove_no_names(children);
}

/// Law: the live cleaner is idempotent.  Once a pass has deleted
/// everything it planned, a second pass over the resulting listing plans
/// nothing and deletes nothing — with no actions, its removed and failed
/// counts are both zero.
pub proof fn lemma_live_run_idempotent(children: Seq<Seq<char>>, rs: RuleSetView)
    ensures
        spec_plan(spec_remove_names(children, spec_deletions(children, rs, false)), rs).len()
            == 0,
        spec_deletions(spec_remove_names(children, spec_deletions(children, rs, false)), rs, false)
            .len() == 0,
{
    let plan = spec_deletions(children, rs, false);
    let after = spec_remove_names(children, plan);
    if spec_dir_matches(children, rs.indicators) {
        assert forall|k: int| 0 <= k < rs.targets.len() implies !after.contains(
            #[trigger] rs.targets[k],
        ) by {
            lemma_remove_names_contains(children, plan, rs.targets[k]);
            if after.contains(rs.targets[k]) {
                assert(children.contains(rs.targets[k]));
                assert(rs.targets.contains(rs.targets[k]));
                lemma_plan_complete(children, rs.targets, rs.targets[k]);
            }
        }
        lemma_plan_empty(after, rs.targets);
    } else {
        lemma_remove_no_names(children);
        assert(after == children);
    }
}

} // verus!
