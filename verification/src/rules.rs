//! Rule sets: per-ecosystem indicator patterns and target directory names.

use vstd::prelude::*;
use crate::pattern::{Pattern, PatternView};

verus! {

/// Immutable configuration for one ecosystem: a display label, the
/// indicator patterns that mark a directory as a project root, and the
/// names of the target directories to remove under such a root.
#[derive(Debug)]
pub struct RuleSet {
    pub label: String,
    pub indicators: Vec<Pattern>,
    pub targets: Vec<String>,
}

/// Mathematical image of a `RuleSet`.
#[verifier::ext_equal]
pub ghost struct RuleSetView {
    pub label: Seq<char>,
    pub indicators: Seq<PatternView>,
    pub targets: Seq<Seq<char>>,
}

impl View for RuleSet {
    type V = RuleSetView;

    open spec fn view(&self) -> RuleSetView {
        RuleSetView {
            label: self.label@,
            indicators: self.indicators.deep_view(),
            targets: self.targets.deep_view(),
        }
    }
}

pub open spec fn spec_rust_rules() -> RuleSetView {
    RuleSetView {
        label: "Rust"@,
        indicators: seq![PatternView::Literal("Cargo.toml"@)],
        targets: seq!["target"@],
    }
}

pub open spec fn spec_python_rules() -> RuleSetView {
    RuleSetView {
        label: "Python"@,
        indicators: seq![
            PatternView::Literal("requirements.txt"@),
            PatternView::Literal("pyproject.toml"@),
            PatternView::Literal("setup.py"@),
            PatternView::Literal("Pipfile"@),
        ],
        targets: seq![".venv"@, "venv"@, "__pycache__"@, ".pytest_cache"@, ".mypy_cache"@],
    }
}

pub open spec fn spec_js_rules() -> RuleSetView {
    RuleSetView {
        label: "JavaScript/TypeScript"@,
        indicators: seq![PatternView::Literal("package.json"@)],
        targets: seq!["node_modules"@, ".next"@, ".nuxt"@, ".cache"@, "dist"@, "build"@],
    }
}

pub open spec fn spec_java_rules() -> RuleSetView {
    RuleSetView {
        label: "Java"@,
        indicators: seq![
            PatternView::Literal("pom.xml"@),
            PatternView::Literal("build.gradle"@),
            PatternView::Literal("build.gradle.kts"@),
        ],
        targets: seq!["target"@, "build"@, ".gradle"@, ".classpath"@],
    }
}

pub open spec fn spec_go_rules() -> RuleSetView {
    RuleSetView {
        label: "Go"@,
        indicators: seq![PatternView::Literal("go.mod"@), PatternView::Literal("go.sum"@)],
        targets: seq!["bin"@, "pkg"@, "__debug_bin"@],
    }
}

pub open spec fn spec_dotnet_rules() -> RuleSetView {
    RuleSetView {
        label: ".NET"@,
        indicators: seq![
            PatternView::Suffix(".csproj"@),
            PatternView::Suffix(".fsproj"@),
            PatternView::Suffix(".sln"@),
        ],
        targets: seq!["bin"@, "obj"@],
    }
}

pub fn rust_rules() -> (r: RuleSet)
    ensures
        r@ == spec_rust_rules(),
{
    let r = RuleSet {
        label: String::from_str("Rust"),
        indicators: vec![Pattern::Literal(String::from_str("Cargo.toml"))],
        targets: vec![String::from_str("target")],
    };
    proof {
        assert(r@.indicators =~= spec_rust_rules().indicators);
        assert(r@.targets =~= spec_rust_rules().targets);
        assert(r@ =~= spec_rust_rules());
    }
    r
}

pub fn python_rules() -> (r: RuleSet)
    ensures
        r@ == spec_python_rules(),
{
    let r = RuleSet {
        label: String::from_str("Python"),
        indicators: vec![
            Pattern::Literal(String::from_str("requirements.txt")),
            Pattern::Literal(String::from_str("pyproject.toml")),
            Pattern::Literal(String::from_str("setup.py")),
            Pattern::Literal(String::from_str("Pipfile")),
        ],
        targets: vec![
            String::from_str(".venv"),
            String::from_str("venv"),
            String::from_str("__pycache__"),
            String::from_str(".pytest_cache"),
            String::from_str(".mypy_cache"),
        ],
    };
    proof {
        assert(r@.indicators =~= spec_python_rules().indicators);
        assert(r@.targets =~= spec_python_rules().targets);
        assert(r@ =~= spec_python_rules());
    }
    r
}

pub fn js_rules() -> (r: RuleSet)
    ensures
        r@ == spec_js_rules(),
{
    let r = RuleSet {
        label: String::from_str("JavaScript/TypeScript"),
        indicators: vec![Pattern::Literal(String::from_str("package.json"))],
        targets: vec![
            String::from_str("node_modules"),
            String::from_str(".next"),
            String::from_str(".nuxt"),
            String::from_str(".cache"),
            String::from_str("dist"),
            String::from_str("build"),
        ],
    };
    proof {
        assert(r@.indicators =~= spec_js_rules().indicators);
        assert(r@.targets =~= spec_js_rules().targets);
        assert(r@ =~= spec_js_rules());
    }
    r
}

pub fn java_rules() -> (r: RuleSet)
    ensures
        r@ == spec_java_rules(),
{
    let r = RuleSet {
        label: String::from_str("Java"),
        indicators: vec![
            Pattern::Literal(String::from_str("pom.xml")),
            Pattern::Literal(String::from_str("build.gradle")),
            Pattern::Literal(String::from_str("build.gradle.kts")),
        ],
        targets: vec![
            String::from_str("target"),
            String::from_str("build"),
            String::from_str(".gradle"),
            String::from_str(".classpath"),
        ],
    };
    proof {
        assert(r@.indicators =~= spec_java_rules().indicators);
        assert(r@.targets =~= spec_java_rules().targets);
        assert(r@ =~= spec_java_rules());
    }
    r
}

pub fn go_rules() -> (r: RuleSet)
    ensures
        r@ == spec_go_rules(),
{
    let r = RuleSet {
        label: String::from_str("Go"),
        indicators: vec![
            Pattern::Literal(String::from_str("go.mod")),
            Pattern::Literal(String::from_str("go.sum")),
        ],
        targets: vec![
            String::from_str("bin"),
            String::from_str("pkg"),
            String::from_str("__debug_bin"),
        ],
    };
    proof {
        assert(r@.indicators =~= spec_go_rules().indicators);
        assert(r@.targets =~= spec_go_rules().targets);
        assert(r@ =~= spec_go_rules());
    }
    r
}

pub fn dotnet_rules() -> (r: RuleSet)
    ensures
        r@ == spec_dotnet_rules(),
{
    let r = RuleSet {
        label: String::from_str(".NET"),
        indicators: vec![
            Pattern::Suffix(String::from_str(".csproj")),
            Pattern::Suffix(String::from_str(".fsproj")),
            Pattern::Suffix(String::from_str(".sln")),
        ],
        targets: vec![String::from_str("bin"), String::from_str("obj")],
    };
    proof {
        assert(r@.indicators =~= spec_dotnet_rules().indicators);
        assert(r@.targets =~= spec_dotnet_rules().targets);
        assert(r@ =~= spec_dotnet_rules());
    }
    r
}

/// Every rule set, in the order an "all ecosystems" run applies them.
pub fn all_rule_sets() -> (v: Vec<RuleSet>)
    ensures
        v@.len() == 6,
        v@[0]@ == spec_rust_rules(),
        v@[1]@ == spec_python_rules(),
        v@[2]@ == spec_js_rules(),
        v@[3]@ == spec_java_rules(),
        v@[4]@ == spec_go_rules(),
        v@[5]@ == spec_dotnet_rules(),
{
    vec![
        rust_rules(),
        python_rules(),
        js_rules(),
        java_rules(),
        go_rules(),
        dotnet_rules(),
    ]
}

} // verus!
