//! Node types of the knowledge graph.
use vstd::prelude::*;

use crate::text::{contains, contains_str, ends_with, ends_with_str, lowercase, to_lowercase};

verus! {

#[derive(Debug, Clone)]
pub struct Organization {
    pub login: String,
    pub name: Option<String>,
    pub url: String,
    pub last_sync_at: Option<String>,
}

#[derive(Debug, Clone)]
pub struct Repository {
    pub full_name: String,
    pub name: String,
    pub description: Option<String>,
    pub default_branch: String,
    pub is_archived: bool,
    pub is_fork: bool,
    pub stars: u32,
    pub updated_at: String,
    pub url: String,
}

#[derive(Debug, Clone)]
pub struct Language {
    pub name: String,
}

#[derive(Debug, Clone)]
pub struct Dependency {
    pub name: String,
    pub version_spec: Option<String>,
    pub ecosystem: String,
}

/// The mathematical content of a [`Dependency`].
pub struct DependencyView {
    pub name: Seq<char>,
    pub version_spec: Option<Seq<char>>,
    pub ecosystem: Seq<char>,
}

pub open spec fn opt_view(o: Option<String>) -> Option<Seq<char>> {
    match o {
        Some(s) => Some(s@),
        None => None,
    }
}

impl View for Dependency {
    type V = DependencyView;

    open spec fn view(&self) -> DependencyView {
        DependencyView {
            name: self.name@,
            version_spec: opt_view(self.version_spec),
            ecosystem: self.ecosystem@,
        }
    }
}

/// The views of a list of dependencies.
pub open spec fn dep_views(v: Seq<Dependency>) -> Seq<DependencyView> {
    v.map_values(|d: Dependency| d@)
}

#[derive(Debug, Clone)]
pub struct Topic {
    pub name: String,
}

#[derive(Debug, Clone)]
pub struct Team {
    pub slug: String,
    pub name: String,
}

#[derive(Debug, Clone)]
pub struct FileNode {
    pub path: String,
    pub repo: String,
    pub kind: FileKind,
}

#[derive(Debug, Clone, Copy, PartialEq, Eq, Structural)]
pub enum FileKind {
    Config,
    Readme,
    Source,
    Manifest,
    Ci,
    Other,
}

/// Whether a lowercased path names a dependency manifest.
pub open spec fn is_manifest_name(lower: Seq<char>) -> bool {
    ||| ends_with(lower, "cargo.toml"@)
    ||| ends_with(lower, "package.json"@)
    ||| ends_with(lower, "go.mod"@)
    ||| ends_with(lower, "requirements.txt"@)
    ||| ends_with(lower, "pyproject.toml"@)
    ||| ends_with(lower, "pom.xml"@)
    ||| ends_with(lower, "build.gradle"@)
    ||| ends_with(lower, "gemfile"@)
}

/// Whether a lowercased path names a CI definition.
pub open spec fn is_ci_name(lower: Seq<char>) -> bool {
    ||| contains(lower, ".github/workflows"@)
    ||| contains(lower, ".gitlab-ci"@)
    ||| ends_with(lower, "jenkinsfile"@)
}

/// Whether a lowercased path names a configuration file.
pub open spec fn is_config_name(lower: Seq<char>) -> bool {
    ||| ends_with(lower, ".toml"@)
    ||| ends_with(lower, ".yaml"@)
    ||| ends_with(lower, ".yml"@)
    ||| ends_with(lower, ".json"@)
    ||| ends_with(lower, ".ini"@)
}

/// Classification of an already lowercased path; the checks are tried in
/// this order and the first that holds decides.
pub open spec fn kind_of_lower(lower: Seq<char>) -> FileKind {
    if contains(lower, "readme"@) {
        FileKind::Readme
    } else if is_manifest_name(lower) {
        FileKind::Manifest
    } else if is_ci_name(lower) {
        FileKind::Ci
    } else if is_config_name(lower) {
        FileKind::Config
    } else {
        FileKind::Other
    }
}

impl FileKind {
    /// The name the kind is displayed by.
    pub open spec fn label(self) -> Seq<char> {
        match self {
            FileKind::Config => "config"@,
            FileKind::Readme => "readme"@,
            FileKind::Source => "source"@,
            FileKind::Manifest => "manifest"@,
            FileKind::Ci => "ci"@,
            FileKind::Other => "other"@,
        }
    }

    /// The displayed name of the kind.
    pub fn to_string(&self) -> (s: String)
        ensures
            s@ == self.label(),
    {
        match self {
            FileKind::Config => String::from_str("config"),
            FileKind::Readme => String::from_str("readme"),
            FileKind::Source => String::from_str("source"),
            FileKind::Manifest => String::from_str("manifest"),
            FileKind::Ci => String::from_str("ci"),
            FileKind::Other => String::from_str("other"),
        }
    }

    /// Classifies a path by its lowercased form.
    pub fn from_path(path: &str) -> (k: FileKind)
        ensures
            k == kind_of_lower(lowercase(path@)),
    {
        let lower = to_lowercase(path);
        Self::from_lowercase_path(lower.as_str())
    }

    /// Classifies a path that is already lowercased.
    pub fn from_lowercase_path(lower: &str) -> (k: FileKind)
        ensures
            k == kind_of_lower(lower@),
    {
        if contains_str(lower, "readme") {
            FileKind::Readme
        } else if ends_with_str(lower, "cargo.toml") || ends_with_str(lower, "package.json")
            || ends_with_str(lower, "go.mod") || ends_with_str(lower, "requirements.txt")
            || ends_with_str(lower, "pyproject.toml") || ends_with_str(lower, "pom.xml")
            || ends_with_str(lower, "build.gradle") || ends_with_str(lower, "gemfile") {
            FileKind::Manifest
        } else if contains_str(lower, ".github/workflows") || contains_str(lower, ".gitlab-ci")
            || ends_with_str(lower, "jenkinsfile") {
            FileKind::Ci
        } else if ends_with_str(lower, ".toml") || ends_with_str(lower, ".yaml") || ends_with_str(
            lower,
            ".yml",
        ) || ends_with_str(lower, ".json") || ends_with_str(lower, ".ini") {
            FileKind::Config
        } else {
            FileKind::Other
        }
    }
}


// ---------------------------------------------------------------------------
// Laws of the classification
// ---------------------------------------------------------------------------

/// The eight manifest file names, spelled out.
pub open spec fn ends_in_manifest_name(lower: Seq<char>) -> bool {
    ends_with(lower, "cargo.toml"@) || ends_with(lower, "package.json"@) || ends_with(lower, "go.mod"@)
        || ends_with(lower, "requirements.txt"@) || ends_with(lower, "pyproject.toml"@) || ends_with(
        lower,
        "pom.xml"@,
    ) || ends_with(lower, "build.gradle"@) || ends_with(lower, "gemfile"@)
}

/// A path mentioning "readme" anywhere is a readme, whatever else it is.
pub proof fn law_readme_wins(lower: Seq<char>)
    requires
        contains(lower, "readme"@),
    ensures
        kind_of_lower(lower) == FileKind::Readme,
{
}

/// A path (lowercased) ending in `cargo.toml`, `package.json`, `go.mod`,
/// `requirements.txt`, `pyproject.toml`, `pom.xml`, `build.gradle` or
/// `gemfile`, and not mentioning "readme", is a manifest.
pub proof fn law_manifest_names(lower: Seq<char>)
    requires
        !contains(lower, "readme"@),
        ends_in_manifest_name(lower),
    ensures
        kind_of_lower(lower) == FileKind::Manifest,
{
}

/// A path under `.github/workflows`, a `.gitlab-ci` file or a `jenkinsfile`
/// is a CI definition, unless it is a readme or a manifest.
pub proof fn law_ci_names(lower: Seq<char>)
    requires
        !contains(lower, "readme"@),
        !ends_in_manifest_name(lower),
        contains(lower, ".github/workflows"@) || contains(lower, ".gitlab-ci"@) || ends_with(lower, "jenkinsfile"@),
    ensures
        kind_of_lower(lower) == FileKind::Ci,
{
}

/// A `.toml`, `.yaml`, `.yml`, `.json` or `.ini` file that is no readme,
/// manifest or CI definition is a configuration file; a path that is none
/// of these is of no recorded kind.
pub proof fn law_config_and_other_names(lower: Seq<char>)
    requires
        !contains(lower, "readme"@),
        !ends_in_manifest_name(lower),
        !(contains(lower, ".github/workflows"@) || contains(lower, ".gitlab-ci"@) || ends_with(lower, "jenkinsfile"@)),
    ensures
        ends_with(lower, ".toml"@) || ends_with(lower, ".yaml"@) || ends_with(lower, ".yml"@) || ends_with(
            lower,
            ".json"@,
        ) || ends_with(lower, ".ini"@) ==> kind_of_lower(lower) == FileKind::Config,
        !(ends_with(lower, ".toml"@) || ends_with(lower, ".yaml"@) || ends_with(lower, ".yml"@) || ends_with(
            lower,
            ".json"@,
        ) || ends_with(lower, ".ini"@)) ==> kind_of_lower(lower) == FileKind::Other,
{
}

/// Any text followed by one of the manifest names is classified as a
/// manifest when it does not mention "readme": `pom.xml`, `app/build.gradle`
/// and `Gemfile` (lowercased) among them.
pub proof fn law_manifest_suffixes(dir: Seq<char>, file: Seq<char>)
    requires
        file == "cargo.toml"@ || file == "package.json"@ || file == "go.mod"@ || file == "requirements.txt"@ || file
            == "pyproject.toml"@ || file == "pom.xml"@ || file == "build.gradle"@ || file == "gemfile"@,
        !contains(dir + file, "readme"@),
    ensures
        kind_of_lower(dir + file) == FileKind::Manifest,
{
    let p = dir + file;
    assert(p.skip(p.len() - file.len()) =~= file);
    law_manifest_names(p);
}

} // verus!
