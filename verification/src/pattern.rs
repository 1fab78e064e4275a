//! Indicator patterns and how a single file name matches one.

use vstd::prelude::*;

verus! {

/// An indicator pattern: either an exact file name, or a suffix that the
/// name must end with (written `*.csproj` in the usual convention).
#[derive(Debug, PartialEq, Eq)]
pub enum Pattern {
    Literal(String),
    Suffix(String),
}

/// Mathematical image of a `Pattern`: the same two shapes over `Seq<char>`.
pub ghost enum PatternView {
    Literal(Seq<char>),
    Suffix(Seq<char>),
}

impl View for Pattern {
    type V = PatternView;

    open spec fn view(&self) -> PatternView {
        match self {
            Pattern::Literal(s) => PatternView::Literal(s@),
            Pattern::Suffix(s) => PatternView::Suffix(s@),
        }
    }
}

impl DeepView for Pattern {
    type V = PatternView;

    open spec fn deep_view(&self) -> PatternView {
        self.view()
    }
}

/// `suffix` is a suffix of `name`.
pub open spec fn spec_ends_with(name: Seq<char>, suffix: Seq<char>) -> bool {
    suffix.len() <= name.len() && name.subrange(
        name.len() - suffix.len(),
        name.len() as int,
    ) == suffix
}

/// One file name satisfies one pattern: equality for a literal, a suffix
/// check for a wildcard.
pub open spec fn spec_name_matches(p: PatternView, name: Seq<char>) -> bool {
    match p {
        PatternView::Literal(want) => name == want,
        PatternView::Suffix(suffix) => spec_ends_with(name, suffix),
    }
}

/// Does `name` end with `suffix`?
pub fn ends_with(name: &str, suffix: &str) -> (r: bool)
    ensures
        r == spec_ends_with(name@, suffix@),
{
    let name_len: usize = name.unicode_len();
    let suffix_len: usize = suffix.unicode_len();
    if suffix_len > name_len {
        return false;
    }
    let start: usize = name_len - suffix_len;
    let mut i: usize = 0;
    while i < suffix_len
        invariant
            suffix_len <= name_len,
            start == name_len - suffix_len,
            name_len == name@.len(),
            suffix_len == suffix@.len(),
            i <= suffix_len,
            forall|k: int| 0 <= k < i ==> name@[start + k] == suffix@[k],
        decreases suffix_len - i,
    {
        if name.get_char(start + i) != suffix.get_char(i) {
            proof {
                let tail = name@.subrange(
                    name@.len() - suffix@.len(),
                    name@.len() as int,
                );
                assert(tail[i as int] == name@[start + i]);
            }
            return false;
        }
        i += 1;
    }
    proof {
        let tail = name@.subrange(name@.len() - suffix@.len(), name@.len() as int);
        assert(tail =~= suffix@);
    }
    true
}

/// Does `name` satisfy the pattern?
pub fn pattern_matches(p: &Pattern, name: &String) -> (r: bool)
    ensures
        r == spec_name_matches(p@, name@),
{
    match p {
        Pattern::Literal(want) => <String as PartialEq>::eq(name, want),
        Pattern::Suffix(suffix) => ends_with(name.as_str(), suffix.as_str()),
    }
}

} // verus!
