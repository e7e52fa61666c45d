use enterprise_code_memory::github::parsers::{
    parse_go_mod, parse_manifest, parse_manifest_lowercase, parse_pep508, parse_requirements_txt,
    ManifestError,
};
use enterprise_code_memory::graph::models::{Dependency, FileKind};

fn triple(d: &Dependency) -> (String, Option<String>, String) {
    (d.name.clone(), d.version_spec.clone(), d.ecosystem.clone())
}

fn t(name: &str, version: Option<&str>, eco: &str) -> (String, Option<String>, String) {
    (name.to_string(), version.map(|v| v.to_string()), eco.to_string())
}

#[test]
fn cargo_toml_dependencies_and_dev_dependencies() {
    let content = r#"
[package]
name = "demo"
version = "0.1.0"

[dependencies]
anyhow = "1.0"
local = { path = "../local" }
serde = { version = "1", features = ["derive"] }

[dev-dependencies]
tempfile = "3"
"#;
    let deps = parse_manifest("Cargo.toml", content).unwrap();
    let got: Vec<_> = deps.iter().map(triple).collect();
    assert_eq!(
        got,
        vec![
            t("anyhow", Some("1.0"), "crates"),
            t("local", None, "crates"),
            t("serde", Some("1"), "crates"),
            t("tempfile", Some("3"), "crates"),
        ]
    );
}

#[test]
fn cargo_toml_name_is_matched_case_insensitively_and_by_suffix() {
    let content = "[dependencies]\nrand = \"0.8\"\n";
    let deps = parse_manifest("crates/core/CARGO.TOML", content).unwrap();
    assert_eq!(deps.iter().map(triple).collect::<Vec<_>>(), vec![t("rand", Some("0.8"), "crates")]);
}

#[test]
fn cargo_toml_without_dependency_tables_has_none() {
    let deps = parse_manifest("Cargo.toml", "[package]\nname = \"x\"\n").unwrap();
    assert!(deps.is_empty());
}

#[test]
fn invalid_toml_is_an_error() {
    match parse_manifest("Cargo.toml", "[dependencies\nserde = ") {
        Err(ManifestError::InvalidToml(msg)) => assert!(!msg.is_empty()),
        other => panic!("expected a TOML error, got {:?}", other),
    }
}

#[test]
fn package_json_dependencies() {
    let content = r#"{
  "name": "web",
  "dependencies": { "axios": "^1.6.0", "react": "18.2.0" },
  "devDependencies": { "typescript": "~5.3.0", "weird": 3 }
}"#;
    let deps = parse_manifest("frontend/package.json", content).unwrap();
    assert_eq!(
        deps.iter().map(triple).collect::<Vec<_>>(),
        vec![
            t("axios", Some("^1.6.0"), "npm"),
            t("react", Some("18.2.0"), "npm"),
            t("typescript", Some("~5.3.0"), "npm"),
            t("weird", None, "npm"),
        ]
    );
}

#[test]
fn invalid_json_is_an_error() {
    assert!(matches!(
        parse_manifest("package.json", "{ not json"),
        Err(ManifestError::InvalidJson(_))
    ));
}

#[test]
fn go_mod_single_and_block_requires() {
    let content = "module example.com/m\n\ngo 1.21\n\nrequire github.com/pkg/errors v0.9.1\n\nrequire (\n\tgolang.org/x/text v0.3.7\n    rsc.io/quote v1.5.2 // indirect\n\tbroken\n)\n\nreplace a => b v1\n";
    let deps = parse_go_mod(content);
    assert_eq!(
        deps.iter().map(triple).collect::<Vec<_>>(),
        vec![
            t("github.com/pkg/errors", Some("v0.9.1"), "go"),
            t("golang.org/x/text", Some("v0.3.7"), "go"),
            t("rsc.io/quote", Some("v1.5.2"), "go"),
        ]
    );
    let via_manifest = parse_manifest("go.mod", content).unwrap();
    assert_eq!(via_manifest.len(), 3);
}

#[test]
fn go_mod_with_crlf_lines() {
    let content = "module m\r\nrequire (\r\n  a.io/b v1.0.0\r\n)\r\n";
    let deps = parse_go_mod(content);
    assert_eq!(deps.iter().map(triple).collect::<Vec<_>>(), vec![t("a.io/b", Some("v1.0.0"), "go")]);
}

#[test]
fn requirements_txt_lines() {
    let content = "# pinned\nrequests==2.31.0\nflask>=2.0\n-r other.txt\n\n  numpy  \ndjango ~= 4.2\n==1.0\n";
    let deps = parse_requirements_txt(content);
    assert_eq!(
        deps.iter().map(triple).collect::<Vec<_>>(),
        vec![
            t("requests", Some("==2.31.0"), "pypi"),
            t("flask", Some(">=2.0"), "pypi"),
            t("numpy", None, "pypi"),
            t("django", Some("~= 4.2"), "pypi"),
        ]
    );
}

#[test]
fn pyproject_project_dependencies() {
    let content = r#"
[project]
name = "svc"
dependencies = ["requests>=2", "click", "uvicorn[standard] >= 0.20", 5]
"#;
    let deps = parse_manifest("pyproject.toml", content).unwrap();
    assert_eq!(
        deps.iter().map(triple).collect::<Vec<_>>(),
        vec![
            t("requests", Some(">=2"), "pypi"),
            t("click", None, "pypi"),
            t("uvicorn", Some("[standard] >= 0.20"), "pypi"),
        ]
    );
}

#[test]
fn pyproject_without_project_table_has_none() {
    let deps = parse_manifest("pyproject.toml", "[tool.poetry]\nname = \"x\"\n").unwrap();
    assert!(deps.is_empty());
}

#[test]
fn pep508_specifiers() {
    assert_eq!(parse_pep508("  requests >= 2.0 "), ("requests".to_string(), Some(">= 2.0".to_string())));
    assert_eq!(parse_pep508("click"), ("click".to_string(), None));
    assert_eq!(parse_pep508("pkg[extra]"), ("pkg".to_string(), Some("[extra]".to_string())));
    assert_eq!(parse_pep508("a!=1"), ("a".to_string(), Some("!=1".to_string())));
}

#[test]
fn unknown_manifest_has_no_dependencies() {
    assert!(parse_manifest("pom.xml", "<project/>").unwrap().is_empty());
    assert!(parse_manifest_lowercase("readme.md", "[dependencies]\nx=\"1\"").unwrap().is_empty());
}

#[test]
fn manifest_files_are_classified_as_manifests() {
    for name in ["Cargo.toml", "package.json", "go.mod", "requirements.txt", "pyproject.toml"] {
        assert_eq!(FileKind::from_path(name), FileKind::Manifest, "{name}");
    }
}
