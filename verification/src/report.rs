//! The human-readable report lines, built with exact contents.

use vstd::prelude::*;

verus! {

/// The decimal digit character for `d`.
pub open spec fn spec_digit(d: int) -> char {
    if d == 0 {
        '0'
    } else if d == 1 {
        '1'
    } else if d == 2 {
        '2'
    } else if d == 3 {
        '3'
    } else if d == 4 {
        '4'
    } else if d == 5 {
        '5'
    } else if d == 6 {
        '6'
    } else if d == 7 {
        '7'
    } else if d == 8 {
        '8'
    } else {
        '9'
    }
}

/// The usual decimal rendering of `n`, without leading zeros (except for
/// `n == 0` itself).
pub open spec fn spec_decimal(n: nat) -> Seq<char>
    decreases n,
{
    if n < 10 {
        seq![spec_digit(n as int)]
    } else {
        spec_decimal(n / 10).push(spec_digit((n % 10) as int))
    }
}

fn digit_str(d: u64) -> (s: &'static str)
    requires
        d < 10,
    ensures
        s@ == seq![spec_digit(d as int)],
{
    let s = if d == 0 {
        "0"
    } else if d == 1 {
        "1"
    } else if d == 2 {
        "2"
    } else if d == 3 {
        "3"
    } else if d == 4 {
        "4"
    } else if d == 5 {
        "5"
    } else if d == 6 {
        "6"
    } else if d == 7 {
        "7"
    } else if d == 8 {
        "8"
    } else {
        "9"
    };
    proof {
        reveal_strlit("0");
        reveal_strlit("1");
        reveal_strlit("2");
        reveal_strlit("3");
        reveal_strlit("4");
        reveal_strlit("5");
        reveal_strlit("6");
        reveal_strlit("7");
        reveal_strlit("8");
        reveal_strlit("9");
        assert(s@ =~= seq![spec_digit(d as int)]);
    }
    s
}

/// Render `n` in decimal.
pub fn u64_to_string(n: u64) -> (s: String)
    ensures
        s@ == spec_decimal(n as nat),
    decreases n,
{
    if n < 10 {
        String::from_str(digit_str(n))
    } else {
        let mut s = u64_to_string(n / 10);
        s.append(digit_str(n % 10));
        proof {
            assert(s@ =~= spec_decimal((n / 10) as nat).push(spec_digit((n % 10) as int)));
        }
        s
    }
}

/// The summary line after one rule set's pass: action, count, label, and
/// a singular noun exactly when the count is 1.
pub open spec fn spec_summary_line(dry_run: bool, cleaned: nat, label: Seq<char>) -> Seq<char> {
    (if dry_run {
        "Would remove "@
    } else {
        "Removed "@
    }) + spec_decimal(cleaned) + " "@ + label + (if cleaned == 1 {
        " project"@
    } else {
        " projects"@
    })
}

pub fn summary_line(dry_run: bool, cleaned: u64, label: &str) -> (s: String)
    ensures
        s@ == spec_summary_line(dry_run, cleaned as nat, label@),
{
    let mut s = String::from_str(
        if dry_run {
            "Would remove "
        } else {
            "Removed "
        },
    );
    let count = u64_to_string(cleaned);
    s.append(count.as_str());
    s.append(" ");
    s.append(label);
    s.append(
        if cleaned == 1 {
            " project"
        } else {
            " projects"
        },
    );
    proof {
        assert(s@ =~= spec_summary_line(dry_run, cleaned as nat, label@));
    }
    s
}

/// The warning line emitted when some deletions failed.
pub open spec fn spec_failure_line(failed: nat) -> Seq<char> {
    "Failed to remove "@ + spec_decimal(failed) + " directories (permission denied or in use)"@
}

pub fn failure_line(failed: u64) -> (s: String)
    ensures
        s@ == spec_failure_line(failed as nat),
{
    let mut s = String::from_str("Failed to remove ");
    let count = u64_to_string(failed);
    s.append(count.as_str());
    s.append(" directories (permission denied or in use)");
    proof {
        assert(s@ =~= spec_failure_line(failed as nat));
    }
    s
}

/// The line emitted when a pass acted on nothing.
pub open spec fn spec_no_projects_line(label: Seq<char>) -> Seq<char> {
    "No "@ + label + " projects found to clean"@
}

pub fn no_projects_line(label: &str) -> (s: String)
    ensures
        s@ == spec_no_projects_line(label@),
{
    let mut s = String::from_str("No ");
    s.append(label);
    s.append(" projects found to clean");
    proof {
        assert(s@ =~= spec_no_projects_line(label@));
    }
    s
}

/// The line announcing one rule set's pass over a root path.
pub open spec fn spec_header_line(label: Seq<char>, root: Seq<char>) -> Seq<char> {
    "Cleaning "@ + label + " projects in: "@ + root
}

pub fn header_line(label: &str, root: &str) -> (s: String)
    ensures
        s@ == spec_header_line(label@, root@),
{
    let mut s = String::from_str("Cleaning ");
    s.append(label);
    s.append(" projects in: ");
    s.append(root);
    proof {
        assert(s@ =~= spec_header_line(label@, root@));
    }
    s
}

} // verus!
