//! Extraction of dependencies from manifest files (Cargo.toml, package.json,
//! go.mod, requirements.txt, pyproject.toml).
use vstd::prelude::*;

use crate::doc::{
    child, child_of, entry, json_as_object, json_as_str, json_document, json_entries, json_error_message,
    json_get, json_object_iter, json_parse, json_tree, toml_as_array, toml_as_str, toml_as_table,
    toml_document, toml_entries, toml_error_message, toml_get, toml_parse, toml_table_iter, toml_tree,
    DocTree,
};
use crate::graph::models::{dep_views, kind_of_lower, opt_view, Dependency, DependencyView, FileKind};
use crate::text::{
    chars_of, ends_with, eq_str, ends_with_str, find_any, find_any_str, lemma_find_any_is, lemma_find_any_some, lines,
    lines_str,
    lowercase, starts_with, starts_with_str, string_of, strip_prefix_str, to_lowercase, trim, trim_str,
    views, words, words_str,
};

verus! {

/// Why a manifest could not be read.
#[derive(Debug, Clone)]
pub enum ManifestError {
    /// The TOML parser rejected the file; its message.
    InvalidToml(String),
    /// The JSON parser rejected the file; its message.
    InvalidJson(String),
}

// ---------------------------------------------------------------------------
// Specifications
// ---------------------------------------------------------------------------

pub open spec fn dep(name: Seq<char>, version: Option<Seq<char>>, ecosystem: Seq<char>) -> DependencyView {
    DependencyView { name, version_spec: version, ecosystem }
}

pub open spec fn str_of(t: DocTree) -> Option<Seq<char>> {
    match t {
        DocTree::Str(s) => Some(s),
        _ => None,
    }
}

/// The version of a Cargo dependency entry: a bare string, or the `version`
/// string of a detailed table.
pub open spec fn cargo_version(t: DocTree) -> Option<Seq<char>> {
    match t {
        DocTree::Str(s) => Some(s),
        DocTree::Table(es) => match entry(es, "version"@) {
            Some(DocTree::Str(s)) => Some(s),
            _ => None,
        },
        _ => None,
    }
}

/// The crates listed in one table of a Cargo manifest, in table order.
pub open spec fn cargo_section(doc: DocTree, section: Seq<char>) -> Seq<DependencyView> {
    match child(doc, section) {
        Some(DocTree::Table(es)) => Seq::new(
            es.len(),
            |i: int| dep(es[i].0, cargo_version(es[i].1), "crates"@),
        ),
        _ => Seq::empty(),
    }
}

/// `[dependencies]` followed by `[dev-dependencies]`.
pub open spec fn cargo_deps(doc: DocTree) -> Seq<DependencyView> {
    cargo_section(doc, "dependencies"@) + cargo_section(doc, "dev-dependencies"@)
}

/// The packages listed in one object of a package.json, in object order.
pub open spec fn npm_section(doc: DocTree, section: Seq<char>) -> Seq<DependencyView> {
    match child(doc, section) {
        Some(DocTree::Table(es)) => Seq::new(
            es.len(),
            |i: int| dep(es[i].0, str_of(es[i].1), "npm"@),
        ),
        _ => Seq::empty(),
    }
}

/// `dependencies` followed by `devDependencies`.
pub open spec fn npm_deps(doc: DocTree) -> Seq<DependencyView> {
    npm_section(doc, "dependencies"@) + npm_section(doc, "devDependencies"@)
}

/// Characters that start the version part of a PEP 508 specifier.
pub open spec fn pep508_stops() -> Seq<char> {
    seq!['>', '<', '=', '~', '!', '[']
}

/// A PEP 508 specifier split into its (trimmed) name and the rest, from the
/// first version or extras character on.
pub open spec fn pep508(spec: Seq<char>) -> (Seq<char>, Option<Seq<char>>) {
    let t = trim(spec);
    match find_any(t, pep508_stops()) {
        Some(p) => (trim(t.take(p)), Some(t.skip(p))),
        None => (t, None),
    }
}

/// The string items of `[project].dependencies`, read as PEP 508 specifiers.
pub open spec fn pep_deps(items: Seq<DocTree>) -> Seq<DependencyView>
    decreases items.len(),
{
    if items.len() == 0 {
        Seq::empty()
    } else {
        pep_deps(items.drop_last()) + match items.last() {
            DocTree::Str(s) => seq![dep(pep508(s).0, pep508(s).1, "pypi"@)],
            _ => Seq::empty(),
        }
    }
}

pub open spec fn pyproject_deps(doc: DocTree) -> Seq<DependencyView> {
    match child_of(child(doc, "project"@), "dependencies"@) {
        Some(DocTree::Array(items)) => pep_deps(items),
        _ => Seq::empty(),
    }
}

/// Characters that start the version part of a requirements.txt line.
pub open spec fn requirement_stops() -> Seq<char> {
    seq!['=', '>', '<', '~', '!']
}

/// The dependency a requirements.txt line names, if any: blank lines,
/// comments and option lines (`-r`, `-e`, ...) name none.
pub open spec fn requirement(line: Seq<char>) -> Option<DependencyView> {
    let t = trim(line);
    if t.len() == 0 || starts_with(t, "#"@) || starts_with(t, "-"@) {
        None
    } else {
        let name = match find_any(t, requirement_stops()) {
            Some(p) => t.take(p),
            None => t,
        };
        let version = match find_any(t, requirement_stops()) {
            Some(p) => Some(t.skip(p)),
            None => None,
        };
        if name.len() == 0 {
            None
        } else {
            Some(dep(trim(name), version, "pypi"@))
        }
    }
}

pub open spec fn requirements_of(ls: Seq<Seq<char>>) -> Seq<DependencyView>
    decreases ls.len(),
{
    if ls.len() == 0 {
        Seq::empty()
    } else {
        requirements_of(ls.drop_last()) + match requirement(ls.last()) {
            Some(d) => seq![d],
            None => Seq::empty(),
        }
    }
}

pub open spec fn requirements_deps(content: Seq<char>) -> Seq<DependencyView> {
    requirements_of(lines(content))
}

/// A go.mod requirement from its first two words.
pub open spec fn go_dep(parts: Seq<Seq<char>>) -> DependencyView {
    dep(parts[0], Some(parts[1]), "go"@)
}

/// Reading one go.mod line, given whether a `require ( ... )` block is open
/// and what was found so far.
pub open spec fn go_step(st: (bool, Seq<DependencyView>), line: Seq<char>) -> (bool, Seq<DependencyView>) {
    let t = trim(line);
    if starts_with(t, "require ("@) || t == "require ("@ {
        (true, st.1)
    } else if t == ")"@ {
        (false, st.1)
    } else if st.0 {
        let parts = words(t);
        (true, if parts.len() >= 2 { st.1.push(go_dep(parts)) } else { st.1 })
    } else if starts_with(t, "require "@) {
        let parts = words(t.skip("require "@.len() as int));
        (false, if parts.len() >= 2 { st.1.push(go_dep(parts)) } else { st.1 })
    } else {
        st
    }
}

pub open spec fn go_scan(ls: Seq<Seq<char>>) -> (bool, Seq<DependencyView>)
    decreases ls.len(),
{
    if ls.len() == 0 {
        (false, Seq::empty())
    } else {
        go_step(go_scan(ls.drop_last()), ls.last())
    }
}

pub open spec fn go_deps(content: Seq<char>) -> Seq<DependencyView> {
    go_scan(lines(content)).1
}

/// The dependencies of a manifest, chosen by the (lowercased) file name;
/// `None` where the file's TOML or JSON does not parse.
pub open spec fn manifest_deps(lower: Seq<char>, content: Seq<char>) -> Option<Seq<DependencyView>> {
    if ends_with(lower, "cargo.toml"@) {
        match toml_document(content) {
            Some(doc) => Some(cargo_deps(doc)),
            None => None,
        }
    } else if ends_with(lower, "package.json"@) {
        match json_document(content) {
            Some(doc) => Some(npm_deps(doc)),
            None => None,
        }
    } else if ends_with(lower, "go.mod"@) {
        Some(go_deps(content))
    } else if ends_with(lower, "requirements.txt"@) {
        Some(requirements_deps(content))
    } else if ends_with(lower, "pyproject.toml"@) {
        match toml_document(content) {
            Some(doc) => Some(pyproject_deps(doc)),
            None => None,
        }
    } else {
        Some(Seq::empty())
    }
}

// ---------------------------------------------------------------------------
// Executable parsers
// ---------------------------------------------------------------------------

fn opt_string(o: Option<&str>) -> (r: Option<String>)
    ensures
        match o {
            Some(s) => (r matches Some(x) && x@ == s@),
            None => r is None,
        },
{
    match o {
        Some(s) => Some(s.to_owned()),
        None => None,
    }
}

/// Parses dependencies from a manifest file, chosen by its file name
/// (compared case-insensitively).
pub fn parse_manifest(filename: &str, content: &str) -> (r: Result<Vec<Dependency>, ManifestError>)
    ensures
        match manifest_deps(lowercase(filename@), content@) {
            Some(ds) => (r matches Ok(d) && dep_views(d@) == ds),
            None => r is Err,
        },
{
    let lower = to_lowercase(filename);
    parse_manifest_lowercase(lower.as_str(), content)
}

/// Parses dependencies from a manifest whose file name is already lowercased.
pub fn parse_manifest_lowercase(lower: &str, content: &str) -> (r: Result<Vec<Dependency>, ManifestError>)
    ensures
        match manifest_deps(lower@, content@) {
            Some(ds) => (r matches Ok(d) && dep_views(d@) == ds),
            None => r is Err,
        },
{
    if ends_with_str(lower, "cargo.toml") {
        parse_cargo_toml(content)
    } else if ends_with_str(lower, "package.json") {
        parse_package_json(content)
    } else if ends_with_str(lower, "go.mod") {
        Ok(parse_go_mod(content))
    } else if ends_with_str(lower, "requirements.txt") {
        Ok(parse_requirements_txt(content))
    } else if ends_with_str(lower, "pyproject.toml") {
        parse_pyproject_toml(content)
    } else {
        let empty: Vec<Dependency> = Vec::new();
        assert(dep_views(empty@) =~= Seq::<DependencyView>::empty());
        Ok(empty)
    }
}

fn cargo_version_of(v: &toml::Value) -> (r: Option<String>)
    ensures
        opt_view(r) == cargo_version(toml_tree(*v)),
{
    match toml_as_str(v) {
        Some(s) => Some(s.to_owned()),
        None => match toml_as_table(v) {
            Some(_) => match toml_get(v, "version") {
                Some(x) => opt_string(toml_as_str(x)),
                None => None,
            },
            None => None,
        },
    }
}

fn push_cargo_section(parsed: &toml::Value, section: &str, deps: &mut Vec<Dependency>)
    ensures
        dep_views(final(deps)@) == dep_views(old(deps)@) + cargo_section(toml_tree(*parsed), section@),
{
    let ghost start = dep_views(deps@);
    match toml_get(parsed, section) {
        Some(v) => match toml_as_table(v) {
            Some(m) => {
                let entries = toml_table_iter(m);
                let ghost es = toml_entries(*m);
                let mut i: usize = 0;
                while i < entries.len()
                    invariant
                        0 <= i <= entries.len(),
                        entries@.len() == es.len(),
                        forall|k: int|
                            0 <= k < entries@.len() ==> (#[trigger] entries@[k]).0@ == es[k].0
                                && toml_tree(*entries@[k].1) == es[k].1,
                        cargo_section(toml_tree(*parsed), section@) == Seq::new(
                            es.len(),
                            |k: int| dep(es[k].0, cargo_version(es[k].1), "crates"@),
                        ),
                        dep_views(deps@) == start + Seq::new(
                            i as nat,
                            |k: int| dep(es[k].0, cargo_version(es[k].1), "crates"@),
                        ),
                    decreases entries.len() - i,
                {
                    let (name, value) = entries[i];
                    let d = Dependency {
                        name: name.clone(),
                        version_spec: cargo_version_of(value),
                        ecosystem: String::from_str("crates"),
                    };
                    let ghost before = dep_views(deps@);
                    deps.push(d);
                    assert(dep_views(deps@) =~= before.push(d@));
                    assert(dep_views(deps@) =~= start + Seq::new(
                        (i + 1) as nat,
                        |k: int| dep(es[k].0, cargo_version(es[k].1), "crates"@),
                    ));
                    i = i + 1;
                }
            },
            None => {
                assert(dep_views(deps@) =~= start + Seq::<DependencyView>::empty());
            },
        },
        None => {
            assert(dep_views(deps@) =~= start + Seq::<DependencyView>::empty());
        },
    }
}

fn parse_cargo_toml(content: &str) -> (r: Result<Vec<Dependency>, ManifestError>)
    ensures
        match toml_document(content@) {
            Some(doc) => (r matches Ok(d) && dep_views(d@) == cargo_deps(doc)),
            None => r is Err,
        },
{
    let parsed = match toml_parse(content) {
        Ok(v) => v,
        Err(e) => {
            return Err(ManifestError::InvalidToml(toml_error_message(&e)));
        },
    };
    let mut deps: Vec<Dependency> = Vec::new();
    assert(dep_views(deps@) =~= Seq::<DependencyView>::empty());
    push_cargo_section(&parsed, "dependencies", &mut deps);
    push_cargo_section(&parsed, "dev-dependencies", &mut deps);
    assert(dep_views(deps@) =~= cargo_deps(toml_tree(parsed)));
    Ok(deps)
}

fn push_npm_section(parsed: &serde_json::Value, section: &str, deps: &mut Vec<Dependency>)
    ensures
        dep_views(final(deps)@) == dep_views(old(deps)@) + npm_section(json_tree(*parsed), section@),
{
    let ghost start = dep_views(deps@);
    match json_get(parsed, section) {
        Some(v) => match json_as_object(v) {
            Some(m) => {
                let entries = json_object_iter(m);
                let ghost es = json_entries(*m);
                let mut i: usize = 0;
                while i < entries.len()
                    invariant
                        0 <= i <= entries.len(),
                        entries@.len() == es.len(),
                        forall|k: int|
                            0 <= k < entries@.len() ==> (#[trigger] entries@[k]).0@ == es[k].0
                                && json_tree(*entries@[k].1) == es[k].1,
                        npm_section(json_tree(*parsed), section@) == Seq::new(
                            es.len(),
                            |k: int| dep(es[k].0, str_of(es[k].1), "npm"@),
                        ),
                        dep_views(deps@) == start + Seq::new(
                            i as nat,
                            |k: int| dep(es[k].0, str_of(es[k].1), "npm"@),
                        ),
                    decreases entries.len() - i,
                {
                    let (name, value) = entries[i];
                    let d = Dependency {
                        name: name.clone(),
                        version_spec: opt_string(json_as_str(value)),
                        ecosystem: String::from_str("npm"),
                    };
                    let ghost before = dep_views(deps@);
                    deps.push(d);
                    assert(dep_views(deps@) =~= before.push(d@));
                    assert(dep_views(deps@) =~= start + Seq::new(
                        (i + 1) as nat,
                        |k: int| dep(es[k].0, str_of(es[k].1), "npm"@),
                    ));
                    i = i + 1;
                }
            },
            None => {
                assert(dep_views(deps@) =~= start + Seq::<DependencyView>::empty());
            },
        },
        None => {
            assert(dep_views(deps@) =~= start + Seq::<DependencyView>::empty());
        },
    }
}

fn parse_package_json(content: &str) -> (r: Result<Vec<Dependency>, ManifestError>)
    ensures
        match json_document(content@) {
            Some(doc) => (r matches Ok(d) && dep_views(d@) == npm_deps(doc)),
            None => r is Err,
        },
{
    let parsed = match json_parse(content) {
        Ok(v) => v,
        Err(e) => {
            return Err(ManifestError::InvalidJson(json_error_message(&e)));
        },
    };
    let mut deps: Vec<Dependency> = Vec::new();
    assert(dep_views(deps@) =~= Seq::<DependencyView>::empty());
    push_npm_section(&parsed, "dependencies", &mut deps);
    push_npm_section(&parsed, "devDependencies", &mut deps);
    assert(dep_views(deps@) =~= npm_deps(json_tree(parsed)));
    Ok(deps)
}

/// Splits a PEP 508 dependency specifier into its name and version part.
pub fn parse_pep508(spec: &str) -> (r: (String, Option<String>))
    ensures
        r.0@ == pep508(spec@).0,
        opt_view(r.1) == pep508(spec@).1,
{
    let t = trim_str(spec);
    let stops = vec!['>', '<', '=', '~', '!', '['];
    assert(stops@ =~= pep508_stops());
    match find_any_str(t.as_str(), &stops) {
        Some(p) => {
            let v = chars_of(t.as_str());
            proof {
                lemma_find_any_some(t@, pep508_stops());
            }
            let head = string_of(&v, 0, p);
            let rest = string_of(&v, p, v.len());
            assert(v@.subrange(0, p as int) =~= t@.take(p as int));
            assert(v@.subrange(p as int, v@.len() as int) =~= t@.skip(p as int));
            (trim_str(head.as_str()), Some(rest))
        },
        None => (t, None),
    }
}

fn parse_pyproject_toml(content: &str) -> (r: Result<Vec<Dependency>, ManifestError>)
    ensures
        match toml_document(content@) {
            Some(doc) => (r matches Ok(d) && dep_views(d@) == pyproject_deps(doc)),
            None => r is Err,
        },
{
    let parsed = match toml_parse(content) {
        Ok(v) => v,
        Err(e) => {
            return Err(ManifestError::InvalidToml(toml_error_message(&e)));
        },
    };
    let mut deps: Vec<Dependency> = Vec::new();
    let items = match toml_get(&parsed, "project") {
        Some(p) => match toml_get(p, "dependencies") {
            Some(d) => toml_as_array(d),
            None => None,
        },
        None => None,
    };
    match items {
        Some(a) => {
            let ghost ts = match child_of(child(toml_tree(parsed), "project"@), "dependencies"@) {
                Some(DocTree::Array(items)) => items,
                _ => Seq::empty(),
            };
            let mut i: usize = 0;
            assert(ts.take(0) =~= Seq::<DocTree>::empty());
            while i < a.len()
                invariant
                    0 <= i <= a.len(),
                    a@.len() == ts.len(),
                    forall|k: int| 0 <= k < ts.len() ==> toml_tree(#[trigger] a@[k]) == ts[k],
                    dep_views(deps@) == pep_deps(ts.take(i as int)),
                decreases a.len() - i,
            {
                assert(ts.take(i + 1).drop_last() =~= ts.take(i as int));
                assert(ts.take(i + 1).last() == toml_tree(a@[i as int]));
                let ghost before = dep_views(deps@);
                match toml_as_str(&a[i]) {
                    Some(s) => {
                        let (name, version) = parse_pep508(s);
                        let d = Dependency { name, version_spec: version, ecosystem: String::from_str("pypi") };
                        deps.push(d);
                        assert(dep_views(deps@) =~= before.push(d@));
                    },
                    None => {
                        assert(dep_views(deps@) =~= before + Seq::<DependencyView>::empty());
                    },
                }
                i = i + 1;
            }
            assert(ts.take(ts.len() as int) =~= ts);
            Ok(deps)
        },
        None => {
            assert(dep_views(deps@) =~= Seq::<DependencyView>::empty());
            Ok(deps)
        },
    }
}

/// The dependency a requirements.txt line names, if any.
fn parse_requirement_line(line: &str) -> (r: Option<Dependency>)
    ensures
        match requirement(line@) {
            Some(d) => (r matches Some(x) && x@ == d),
            None => r is None,
        },
{
    let t = trim_str(line);
    if t.as_str().unicode_len() == 0 || starts_with_str(t.as_str(), "#") || starts_with_str(t.as_str(), "-") {
        return None;
    }
    let stops = vec!['=', '>', '<', '~', '!'];
    assert(stops@ =~= requirement_stops());
    let v = chars_of(t.as_str());
    let (name, version) = match find_any_str(t.as_str(), &stops) {
        Some(p) => {
            proof {
                lemma_find_any_some(t@, requirement_stops());
            }
            let head = string_of(&v, 0, p);
            let rest = string_of(&v, p, v.len());
            assert(v@.subrange(0, p as int) =~= t@.take(p as int));
            assert(v@.subrange(p as int, v@.len() as int) =~= t@.skip(p as int));
            (head, Some(rest))
        },
        None => (t.clone(), None),
    };
    if name.as_str().unicode_len() == 0 {
        None
    } else {
        Some(Dependency { name: trim_str(name.as_str()), version_spec: version, ecosystem: String::from_str("pypi") })
    }
}

/// Dependencies named by the lines of a requirements.txt file.
pub fn parse_requirements_txt(content: &str) -> (deps: Vec<Dependency>)
    ensures
        dep_views(deps@) == requirements_deps(content@),
{
    let ls = lines_str(content);
    let ghost lv = lines(content@);
    let mut deps: Vec<Dependency> = Vec::new();
    let mut i: usize = 0;
    assert(lv.take(0) =~= Seq::<Seq<char>>::empty());
    while i < ls.len()
        invariant
            0 <= i <= ls.len(),
            views(ls@) == lv,
            dep_views(deps@) == requirements_of(lv.take(i as int)),
        decreases ls.len() - i,
    {
        assert(lv.take(i + 1).drop_last() =~= lv.take(i as int));
        assert(lv.take(i + 1).last() == ls@[i as int]@);
        let ghost before = dep_views(deps@);
        match parse_requirement_line(ls[i].as_str()) {
            Some(d) => {
                deps.push(d);
                assert(dep_views(deps@) =~= before.push(d@));
            },
            None => {
                assert(dep_views(deps@) =~= before + Seq::<DependencyView>::empty());
            },
        }
        i = i + 1;
    }
    assert(lv.take(lv.len() as int) =~= lv);
    deps
}

/// A go.mod dependency from the words of a requirement line.
fn go_dependency(parts: &Vec<String>) -> (d: Dependency)
    requires
        parts@.len() >= 2,
    ensures
        d@ == go_dep(views(parts@)),
{
    Dependency {
        name: parts[0].clone(),
        version_spec: Some(parts[1].clone()),
        ecosystem: String::from_str("go"),
    }
}

/// Dependencies named by the `require` directives of a go.mod file.
pub fn parse_go_mod(content: &str) -> (deps: Vec<Dependency>)
    ensures
        dep_views(deps@) == go_deps(content@),
{
    let ls = lines_str(content);
    let ghost lv = lines(content@);
    let mut deps: Vec<Dependency> = Vec::new();
    let mut in_require = false;
    let mut i: usize = 0;
    assert(lv.take(0) =~= Seq::<Seq<char>>::empty());
    assert(dep_views(deps@) =~= Seq::<DependencyView>::empty());
    while i < ls.len()
        invariant
            0 <= i <= ls.len(),
            views(ls@) == lv,
            (in_require, dep_views(deps@)) == go_scan(lv.take(i as int)),
        decreases ls.len() - i,
    {
        assert(lv.take(i + 1).drop_last() =~= lv.take(i as int));
        assert(lv.take(i + 1).last() == ls@[i as int]@);
        let ghost before = dep_views(deps@);
        let trimmed = trim_str(ls[i].as_str());
        let t = trimmed.as_str();
        if starts_with_str(t, "require (") || eq_str(t, "require (") {
            in_require = true;
        } else if eq_str(t, ")") {
            in_require = false;
        } else if in_require {
            let parts = words_str(t);
            if parts.len() >= 2 {
                let d = go_dependency(&parts);
                deps.push(d);
                assert(dep_views(deps@) =~= before.push(d@));
            }
        } else if starts_with_str(t, "require ") {
            let rest = match strip_prefix_str(t, "require ") {
                Some(r) => r,
                None => String::new(),
            };
            let parts = words_str(rest.as_str());
            if parts.len() >= 2 {
                let d = go_dependency(&parts);
                deps.push(d);
                assert(dep_views(deps@) =~= before.push(d@));
            }
        }
        i = i + 1;
    }
    assert(lv.take(lv.len() as int) =~= lv);
    deps
}

// ---------------------------------------------------------------------------
// Laws
// ---------------------------------------------------------------------------

/// The ecosystem the dependencies of a manifest belong to.
pub open spec fn ecosystem_for(lower: Seq<char>) -> Seq<char> {
    if ends_with(lower, "cargo.toml"@) {
        "crates"@
    } else if ends_with(lower, "package.json"@) {
        "npm"@
    } else if ends_with(lower, "go.mod"@) {
        "go"@
    } else {
        "pypi"@
    }
}

pub open spec fn all_in(ds: Seq<DependencyView>, eco: Seq<char>) -> bool {
    forall|i: int| 0 <= i < ds.len() ==> (#[trigger] ds[i]).ecosystem == eco
}

proof fn lemma_go_scan_ecosystem(ls: Seq<Seq<char>>)
    ensures
        all_in(go_scan(ls).1, "go"@),
    decreases ls.len(),
{
    if ls.len() > 0 {
        lemma_go_scan_ecosystem(ls.drop_last());
    }
}

proof fn lemma_requirements_ecosystem(ls: Seq<Seq<char>>)
    ensures
        all_in(requirements_of(ls), "pypi"@),
    decreases ls.len(),
{
    if ls.len() > 0 {
        lemma_requirements_ecosystem(ls.drop_last());
        let p = requirements_of(ls.drop_last());
        let q = requirements_of(ls);
        assert forall|i: int| 0 <= i < q.len() implies (#[trigger] q[i]).ecosystem == "pypi"@ by {
            if i < p.len() {
                assert(q[i] == p[i]);
            }
        }
    }
}

proof fn lemma_pep_ecosystem(items: Seq<DocTree>)
    ensures
        all_in(pep_deps(items), "pypi"@),
    decreases items.len(),
{
    if items.len() > 0 {
        lemma_pep_ecosystem(items.drop_last());
        let p = pep_deps(items.drop_last());
        let q = pep_deps(items);
        assert forall|i: int| 0 <= i < q.len() implies (#[trigger] q[i]).ecosystem == "pypi"@ by {
            if i < p.len() {
                assert(q[i] == p[i]);
            }
        }
    }
}

/// Every dependency read from a manifest belongs to the manifest's
/// ecosystem: crates for Cargo.toml, npm for package.json, go for go.mod,
/// pypi for requirements.txt and pyproject.toml.
pub proof fn law_manifest_ecosystem(lower: Seq<char>, content: Seq<char>)
    ensures
        manifest_deps(lower, content) matches Some(ds) ==> all_in(ds, ecosystem_for(lower)),
{
    lemma_go_scan_ecosystem(lines(content));
    lemma_requirements_ecosystem(lines(content));
    if ends_with(lower, "cargo.toml"@) {
        if let Some(doc) = toml_document(content) {
            let ds = cargo_deps(doc);
            let a = cargo_section(doc, "dependencies"@);
            assert forall|i: int| 0 <= i < ds.len() implies (#[trigger] ds[i]).ecosystem == "crates"@ by {
                if i < a.len() {
                    assert(ds[i] == a[i]);
                } else {
                    assert(ds[i] == cargo_section(doc, "dev-dependencies"@)[i - a.len()]);
                }
            }
        }
    } else if ends_with(lower, "package.json"@) {
        if let Some(doc) = json_document(content) {
            let ds = npm_deps(doc);
            let a = npm_section(doc, "dependencies"@);
            assert forall|i: int| 0 <= i < ds.len() implies (#[trigger] ds[i]).ecosystem == "npm"@ by {
                if i < a.len() {
                    assert(ds[i] == a[i]);
                } else {
                    assert(ds[i] == npm_section(doc, "devDependencies"@)[i - a.len()]);
                }
            }
        }
    } else if ends_with(lower, "pyproject.toml"@) {
        if let Some(doc) = toml_document(content) {
            match child_of(child(doc, "project"@), "dependencies"@) {
                Some(DocTree::Array(items)) => lemma_pep_ecosystem(items),
                _ => {},
            }
        }
    }
}

/// Every file whose dependencies are read (Cargo.toml, package.json, go.mod,
/// requirements.txt, pyproject.toml, in any case) is classified as a
/// manifest when its path is walked, unless the path mentions "readme".
pub proof fn law_parsed_manifests_are_manifest_files(lower: Seq<char>)
    requires
        ends_with(lower, "cargo.toml"@) || ends_with(lower, "package.json"@) || ends_with(lower, "go.mod"@)
            || ends_with(lower, "requirements.txt"@) || ends_with(lower, "pyproject.toml"@),
        !crate::text::contains(lower, "readme"@),
    ensures
        kind_of_lower(lower) == FileKind::Manifest,
{
}


/// The characters `=`, `>`, `<`, `~` and `!`, spelled out.
pub open spec fn is_version_operator(c: char) -> bool {
    c == '=' || c == '>' || c == '<' || c == '~' || c == '!'
}

proof fn lemma_requirement_stops(x: char)
    ensures
        requirement_stops().contains(x) <==> is_version_operator(x),
{
    let st = requirement_stops();
    if is_version_operator(x) {
        if x == '=' {
            assert(st[0] == x);
        } else if x == '>' {
            assert(st[1] == x);
        } else if x == '<' {
            assert(st[2] == x);
        } else if x == '~' {
            assert(st[3] == x);
        } else {
            assert(st[4] == x);
        }
    }
}

proof fn lemma_not_marked(t: Seq<char>)
    requires
        t.len() > 0,
        t[0] != '#',
        t[0] != '-',
    ensures
        !starts_with(t, "#"@),
        !starts_with(t, "-"@),
{
    reveal_strlit("#");
    reveal_strlit("-");
    if starts_with(t, "#"@) {
        assert(t.take(1)[0] == "#"@[0]);
    }
    if starts_with(t, "-"@) {
        assert(t.take(1)[0] == "-"@[0]);
    }
}

/// A requirements.txt line `name<op>rest` (after trimming), where `<op>` is
/// the first of `=`, `>`, `<`, `~`, `!` in it, names the package `name`
/// (trimmed) of the pypi ecosystem, with version part `<op>rest`: for
/// `numpy<2.0`, `numpy` and `<2.0`.
pub proof fn law_requirement_splits_at_first_operator(line: Seq<char>, name: Seq<char>, op: char, rest: Seq<char>)
    requires
        trim(line) == name + seq![op] + rest,
        is_version_operator(op),
        name.len() > 0,
        name[0] != '#',
        name[0] != '-',
        forall|k: int| 0 <= k < name.len() ==> !is_version_operator(#[trigger] name[k]),
    ensures
        requirement(line) == Some(
            DependencyView { name: trim(name), version_spec: Some(seq![op] + rest), ecosystem: "pypi"@ },
        ),
{
    let t = trim(line);
    let n = name.len() as int;
    assert(t[n] == op);
    lemma_requirement_stops(op);
    assert forall|j: int| 0 <= j < n implies !requirement_stops().contains(#[trigger] t[j]) by {
        assert(t[j] == name[j]);
        lemma_requirement_stops(t[j]);
    }
    lemma_find_any_is(t, requirement_stops(), n);
    assert(t.take(n) =~= name);
    assert(t.skip(n) =~= seq![op] + rest);
    assert(t[0] == name[0]);
    lemma_not_marked(t);
}

/// A requirements.txt line (after trimming) with none of `=`, `>`, `<`,
/// `~`, `!` names the package it spells, with no version part; blank lines
/// and lines starting with `#` or `-` name none.
pub proof fn law_requirement_without_operator(line: Seq<char>)
    requires
        forall|k: int| 0 <= k < trim(line).len() ==> !is_version_operator(#[trigger] trim(line)[k]),
    ensures
        trim(line).len() == 0 || trim(line)[0] == '#' || trim(line)[0] == '-' ==> requirement(line) is None,
        trim(line).len() > 0 && trim(line)[0] != '#' && trim(line)[0] != '-' ==> requirement(line) == Some(
            DependencyView { name: trim(trim(line)), version_spec: None, ecosystem: "pypi"@ },
        ),
{
    let t = trim(line);
    reveal_strlit("#");
    reveal_strlit("-");
    assert forall|j: int| 0 <= j < t.len() implies !requirement_stops().contains(#[trigger] t[j]) by {
        lemma_requirement_stops(t[j]);
    }
    lemma_find_any_some(t, requirement_stops());
    if t.len() > 0 {
        if t[0] == '#' {
            assert(t.take(1) =~= "#"@);
        } else if t[0] == '-' {
            assert(t.take(1) =~= "-"@);
        } else {
            lemma_not_marked(t);
        }
    }
}


/// The characters `>`, `<`, `=`, `~`, `!` and `[`, spelled out.
pub open spec fn starts_pep508_version(c: char) -> bool {
    c == '>' || c == '<' || c == '=' || c == '~' || c == '!' || c == '['
}

proof fn lemma_pep508_stops(x: char)
    ensures
        pep508_stops().contains(x) <==> starts_pep508_version(x),
{
    let st = pep508_stops();
    if starts_pep508_version(x) {
        if x == '>' {
            assert(st[0] == x);
        } else if x == '<' {
            assert(st[1] == x);
        } else if x == '=' {
            assert(st[2] == x);
        } else if x == '~' {
            assert(st[3] == x);
        } else if x == '!' {
            assert(st[4] == x);
        } else {
            assert(st[5] == x);
        }
    }
}

/// A PEP 508 specifier `name<c>rest` (after trimming), where `<c>` is the
/// first of `>`, `<`, `=`, `~`, `!`, `[` in it, splits into the trimmed
/// `name` and the version part `<c>rest`: `requests>=2.0` gives `requests`
/// and `>=2.0`. A specifier with none of them is all name.
pub proof fn law_pep508_splits_at_first_marker(spec: Seq<char>, name: Seq<char>, c: char, rest: Seq<char>)
    requires
        trim(spec) == name + seq![c] + rest,
        starts_pep508_version(c),
        forall|k: int| 0 <= k < name.len() ==> !starts_pep508_version(#[trigger] name[k]),
    ensures
        pep508(spec) == (trim(name), Some(seq![c] + rest)),
{
    let t = trim(spec);
    let n = name.len() as int;
    assert(t[n] == c);
    lemma_pep508_stops(c);
    assert forall|j: int| 0 <= j < n implies !pep508_stops().contains(#[trigger] t[j]) by {
        assert(t[j] == name[j]);
        lemma_pep508_stops(t[j]);
    }
    lemma_find_any_is(t, pep508_stops(), n);
    assert(t.take(n) =~= name);
    assert(t.skip(n) =~= seq![c] + rest);
}

/// A PEP 508 specifier without a version marker is its trimmed self.
pub proof fn law_pep508_without_marker(spec: Seq<char>)
    requires
        forall|k: int| 0 <= k < trim(spec).len() ==> !starts_pep508_version(#[trigger] trim(spec)[k]),
    ensures
        pep508(spec) == (trim(spec), None::<Seq<char>>),
{
    let t = trim(spec);
    assert forall|j: int| 0 <= j < t.len() implies !pep508_stops().contains(#[trigger] t[j]) by {
        lemma_pep508_stops(t[j]);
    }
    lemma_find_any_some(t, pep508_stops());
}


/// The crates of a Cargo manifest's `[dependencies]` table come first, one
/// per entry in table order, each of the crates ecosystem with its version:
/// the entry's string, or the `version` string of a detailed entry, or none.
pub proof fn law_cargo_dependencies(doc: DocTree, es: Seq<(Seq<char>, DocTree)>)
    requires
        child(doc, "dependencies"@) == Some(DocTree::Table(es)),
    ensures
        cargo_deps(doc).len() >= es.len(),
        forall|i: int|
            0 <= i < es.len() ==> #[trigger] cargo_deps(doc)[i] == (DependencyView {
                name: es[i].0,
                version_spec: match es[i].1 {
                    DocTree::Str(v) => Some(v),
                    DocTree::Table(fields) => match entry(fields, "version"@) {
                        Some(DocTree::Str(v)) => Some(v),
                        _ => None,
                    },
                    _ => None,
                },
                ecosystem: "crates"@,
            }),
{
    assert forall|i: int| 0 <= i < es.len() implies #[trigger] cargo_deps(doc)[i] == cargo_section(
        doc,
        "dependencies"@,
    )[i] by {}
}

/// The packages of a package.json's `dependencies` object come first, one
/// per member in object order, each of the npm ecosystem with its version
/// string (none when the member is not a string).
pub proof fn law_npm_dependencies(doc: DocTree, es: Seq<(Seq<char>, DocTree)>)
    requires
        child(doc, "dependencies"@) == Some(DocTree::Table(es)),
    ensures
        npm_deps(doc).len() >= es.len(),
        forall|i: int|
            0 <= i < es.len() ==> #[trigger] npm_deps(doc)[i] == (DependencyView {
                name: es[i].0,
                version_spec: match es[i].1 {
                    DocTree::Str(v) => Some(v),
                    _ => None,
                },
                ecosystem: "npm"@,
            }),
{
    assert forall|i: int| 0 <= i < es.len() implies #[trigger] npm_deps(doc)[i] == npm_section(
        doc,
        "dependencies"@,
    )[i] by {}
}

/// The manifest a file name chooses, by the end of its lowercased name:
/// `cargo.toml` (TOML, crates), `package.json` (JSON, npm), `go.mod`,
/// `requirements.txt`, `pyproject.toml` (TOML, pypi); any other file
/// gives no dependencies.
pub proof fn law_manifest_choice(lower: Seq<char>, content: Seq<char>)
    ensures
        ends_with(lower, "cargo.toml"@) ==> manifest_deps(lower, content) == match toml_document(content) {
            Some(doc) => Some(cargo_deps(doc)),
            None => None,
        },
        ends_with(lower, "package.json"@) ==> manifest_deps(lower, content) == match json_document(content) {
            Some(doc) => Some(npm_deps(doc)),
            None => None,
        },
        ends_with(lower, "go.mod"@) ==> manifest_deps(lower, content) == Some(go_deps(content)),
        ends_with(lower, "requirements.txt"@) ==> manifest_deps(lower, content) == Some(requirements_deps(content)),
        ends_with(lower, "pyproject.toml"@) && !ends_with(lower, "cargo.toml"@) ==> manifest_deps(lower, content)
            == match toml_document(content) {
            Some(doc) => Some(pyproject_deps(doc)),
            None => None,
        },
        !ends_with(lower, "cargo.toml"@) && !ends_with(lower, "package.json"@) && !ends_with(lower, "go.mod"@)
            && !ends_with(lower, "requirements.txt"@) && !ends_with(lower, "pyproject.toml"@) ==> manifest_deps(
            lower,
            content,
        ) == Some(Seq::<DependencyView>::empty()),
{
    reveal_strlit("cargo.toml");
    reveal_strlit("package.json");
    reveal_strlit("go.mod");
    reveal_strlit("requirements.txt");
    if ends_with(lower, "package.json"@) && ends_with(lower, "cargo.toml"@) {
        let n = lower.len();
        assert(lower[n - 1] == "package.json"@[11]);
        assert(lower[n - 1] == "cargo.toml"@[9]);
    }
    if ends_with(lower, "go.mod"@) {
        let n = lower.len();
        assert(lower[n - 1] == "go.mod"@[5]);
        if ends_with(lower, "cargo.toml"@) {
            assert(lower[n - 1] == "cargo.toml"@[9]);
        }
        if ends_with(lower, "package.json"@) {
            assert(lower[n - 1] == "package.json"@[11]);
        }
    }
    if ends_with(lower, "pyproject.toml"@) {
        reveal_strlit("pyproject.toml");
        let n = lower.len();
        assert(lower[n - 1] == "pyproject.toml"@[13]);
        if ends_with(lower, "package.json"@) {
            assert(lower[n - 1] == "package.json"@[11]);
        }
        if ends_with(lower, "go.mod"@) {
            assert(lower[n - 1] == "go.mod"@[5]);
        }
        if ends_with(lower, "requirements.txt"@) {
            assert(lower[n - 1] == "requirements.txt"@[15]);
        }
    }
    if ends_with(lower, "requirements.txt"@) {
        let n = lower.len();
        assert(lower[n - 1] == "requirements.txt"@[15]);
        if ends_with(lower, "cargo.toml"@) {
            assert(lower[n - 1] == "cargo.toml"@[9]);
        }
        if ends_with(lower, "package.json"@) {
            assert(lower[n - 1] == "package.json"@[11]);
        }
        if ends_with(lower, "go.mod"@) {
            assert(lower[n - 1] == "go.mod"@[5]);
        }
    }
}


/// Reading go.mod, line by line: `require (` opens a block and `)` closes
/// it; inside a block a line `module version ...` records the module of the
/// go ecosystem at that version; outside, `require module version` does; a
/// line with fewer than two words records nothing, and other lines outside
/// a block change nothing.
pub proof fn law_go_mod_lines(in_block: bool, ds: Seq<DependencyView>, line: Seq<char>)
    ensures
        trim(line) == "require ("@ ==> go_step((in_block, ds), line) == (true, ds),
        trim(line) == ")"@ ==> go_step((in_block, ds), line) == (false, ds),
        (in_block && !starts_with(trim(line), "require ("@) && trim(line) != ")"@) ==> ({
            let w = words(trim(line));
            go_step((in_block, ds), line) == (
                true,
                if w.len() >= 2 {
                    ds.push(DependencyView { name: w[0], version_spec: Some(w[1]), ecosystem: "go"@ })
                } else {
                    ds
                },
            )
        }),
        (!in_block && !starts_with(trim(line), "require ("@) && trim(line) != ")"@ && starts_with(
            trim(line),
            "require "@,
        )) ==> ({
            let w = words(trim(line).skip(8));
            go_step((in_block, ds), line) == (
                false,
                if w.len() >= 2 {
                    ds.push(DependencyView { name: w[0], version_spec: Some(w[1]), ecosystem: "go"@ })
                } else {
                    ds
                },
            )
        }),
        (!in_block && !starts_with(trim(line), "require "@) && trim(line) != ")"@) ==> go_step(
            (in_block, ds),
            line,
        ) == (in_block, ds),
{
    reveal_strlit("require (");
    reveal_strlit("require ");
    reveal_strlit(")");
    let t = trim(line);
    if t == "require ("@ {
        assert(t.take(9) =~= "require ("@);
    }
    if t == ")"@ {
        assert(!starts_with(t, "require ("@));
    }
    if !starts_with(t, "require "@) && t.len() >= 9 && starts_with(t, "require ("@) {
        assert(t.take(8) =~= t.take(9).take(8));
        assert("require ("@.take(8) =~= "require "@);
    }
}

} // verus!
