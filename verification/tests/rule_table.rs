use begone::pattern::Pattern;
use begone::rules::{
    all_rule_sets, dotnet_rules, go_rules, java_rules, js_rules, python_rules, rust_rules,
    RuleSet,
};

fn literals(list: &[&str]) -> Vec<Pattern> {
    list.iter().map(|s| Pattern::Literal(s.to_string())).collect()
}

fn names(list: &[&str]) -> Vec<String> {
    list.iter().map(|s| s.to_string()).collect()
}

fn check(rs: &RuleSet, label: &str, indicators: &[Pattern], targets: &[&str]) {
    assert_eq!(rs.label, label);
    assert_eq!(rs.indicators, indicators);
    assert_eq!(rs.targets, names(targets));
}

#[test]
fn rust_table() {
    check(&rust_rules(), "Rust", &literals(&["Cargo.toml"]), &["target"]);
}

#[test]
fn python_table() {
    check(
        &python_rules(),
        "Python",
        &literals(&["requirements.txt", "pyproject.toml", "setup.py", "Pipfile"]),
        &[".venv", "venv", "__pycache__", ".pytest_cache", ".mypy_cache"],
    );
}

#[test]
fn js_table() {
    check(
        &js_rules(),
        "JavaScript/TypeScript",
        &literals(&["package.json"]),
        &["node_modules", ".next", ".nuxt", ".cache", "dist", "build"],
    );
}

#[test]
fn java_table() {
    check(
        &java_rules(),
        "Java",
        &literals(&["pom.xml", "build.gradle", "build.gradle.kts"]),
        &["target", "build", ".gradle", ".classpath"],
    );
}

#[test]
fn go_table() {
    check(
        &go_rules(),
        "Go",
        &literals(&["go.mod", "go.sum"]),
        &["bin", "pkg", "__debug_bin"],
    );
}

#[test]
fn dotnet_table() {
    let suffixes: Vec<Pattern> = [".csproj", ".fsproj", ".sln"]
        .iter()
        .map(|s| Pattern::Suffix(s.to_string()))
        .collect();
    check(&dotnet_rules(), ".NET", &suffixes, &["bin", "obj"]);
}

#[test]
fn all_rule_sets_in_fixed_order() {
    let all = all_rule_sets();
    let labels: Vec<&str> = all.iter().map(|rs| rs.label.as_str()).collect();
    assert_eq!(
        labels,
        vec!["Rust", "Python", "JavaScript/TypeScript", "Java", "Go", ".NET"]
    );
}
