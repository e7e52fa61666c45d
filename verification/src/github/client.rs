//! The computing side of the GitHub API client: request paths, the
//! selection of tree entries, and the decoding of file contents.
use vstd::prelude::*;
use vstd::utf8::{decode_utf8, valid_utf8};

use crate::github::base64::{base64_decode, base64_decoded};
use crate::text::{concat, decimal, eq_str, remove_char, remove_char_str, u64_to_string};

verus! {

/// A file in a repository tree.
#[derive(Debug, Clone)]
pub struct TreeEntry {
    pub path: String,
    pub size: u64,
}

/// An entry of a git tree as the API reports it.
#[derive(Debug, Clone)]
pub struct RawTreeEntry {
    pub path: String,
    /// "blob", "tree" or "commit"
    pub entry_type: String,
    pub size: Option<u64>,
}

pub open spec fn size_or_zero(s: Option<u64>) -> u64 {
    match s {
        Some(n) => n,
        None => 0,
    }
}

/// The files of a tree: its blob entries in order, a missing size read as 0.
pub open spec fn blobs(raw: Seq<RawTreeEntry>) -> Seq<(Seq<char>, u64)>
    decreases raw.len(),
{
    if raw.len() == 0 {
        Seq::empty()
    } else {
        blobs(raw.drop_last()) + if raw.last().entry_type@ == "blob"@ {
            seq![(raw.last().path@, size_or_zero(raw.last().size))]
        } else {
            Seq::empty()
        }
    }
}

pub open spec fn entry_views(v: Seq<TreeEntry>) -> Seq<(Seq<char>, u64)> {
    v.map_values(|e: TreeEntry| (e.path@, e.size))
}

/// Keeps the blob entries of a tree (files, not subtrees or submodules).
pub fn select_blobs(raw: &Vec<RawTreeEntry>) -> (r: Vec<TreeEntry>)
    ensures
        entry_views(r@) == blobs(raw@),
{
    let mut out: Vec<TreeEntry> = Vec::new();
    let mut i: usize = 0;
    assert(raw@.take(0) =~= Seq::<RawTreeEntry>::empty());
    while i < raw.len()
        invariant
            0 <= i <= raw.len(),
            entry_views(out@) == blobs(raw@.take(i as int)),
        decreases raw.len() - i,
    {
        assert(raw@.take(i + 1).drop_last() =~= raw@.take(i as int));
        assert(raw@.take(i + 1).last() == raw@[i as int]);
        let ghost before = entry_views(out@);
        let e = &raw[i];
        if eq_str(e.entry_type.as_str(), "blob") {
            let size = match e.size {
                Some(n) => n,
                None => 0,
            };
            let t = TreeEntry { path: e.path.clone(), size };
            out.push(t);
            assert(entry_views(out@) =~= before.push((t.path@, t.size)));
        } else {
            assert(entry_views(out@) =~= before + Seq::<(Seq<char>, u64)>::empty());
        }
        i = i + 1;
    }
    assert(raw@.take(raw@.len() as int) =~= raw@);
    out
}

/// Path of an API resource under a repository.
pub open spec fn repo_path(org: Seq<char>, repo: Seq<char>, tail: Seq<char>) -> Seq<char> {
    "/repos/"@ + org + "/"@ + repo + tail
}

/// `/repos/{org}/{repo}{tail}`.
pub fn repo_resource_path(org: &str, repo: &str, tail: &str) -> (r: String)
    ensures
        r@ == repo_path(org@, repo@, tail@),
{
    let a = concat("/repos/", org);
    let b = concat(a.as_str(), "/");
    let c = concat(b.as_str(), repo);
    concat(c.as_str(), tail)
}

/// The languages of a repository.
pub fn languages_path(org: &str, repo: &str) -> (r: String)
    ensures
        r@ == repo_path(org@, repo@, "/languages"@),
{
    repo_resource_path(org, repo, "/languages")
}

/// The topics of a repository.
pub fn topics_path(org: &str, repo: &str) -> (r: String)
    ensures
        r@ == repo_path(org@, repo@, "/topics"@),
{
    repo_resource_path(org, repo, "/topics")
}

/// The teams with access to a repository.
pub fn teams_path(org: &str, repo: &str) -> (r: String)
    ensures
        r@ == repo_path(org@, repo@, "/teams"@),
{
    repo_resource_path(org, repo, "/teams")
}

/// The recursive tree of a repository at a revision.
pub fn tree_path(org: &str, repo: &str, sha: &str) -> (r: String)
    ensures
        r@ == repo_path(org@, repo@, "/git/trees/"@ + sha@ + "?recursive=1"@),
{
    let a = concat("/git/trees/", sha);
    let tail = concat(a.as_str(), "?recursive=1");
    repo_resource_path(org, repo, tail.as_str())
}

/// The contents of a file of a repository.
pub fn contents_path(org: &str, repo: &str, path: &str) -> (r: String)
    ensures
        r@ == repo_path(org@, repo@, "/contents/"@ + path@),
{
    let tail = concat("/contents/", path);
    repo_resource_path(org, repo, tail.as_str())
}

/// A page of a user's repositories, most recently updated first.
pub open spec fn user_repos_path_of(user: Seq<char>, per_page: u8, page: u32) -> Seq<char> {
    "/users/"@ + user + "/repos?sort=updated&direction=desc&per_page="@ + decimal(per_page as nat)
        + "&page="@ + decimal(page as nat)
}

/// A page of a user's repositories (the fallback when the org listing fails).
pub fn user_repos_path(user: &str, per_page: u8, page: u32) -> (r: String)
    ensures
        r@ == user_repos_path_of(user@, per_page, page),
{
    let a = concat("/users/", user);
    let b = concat(a.as_str(), "/repos?sort=updated&direction=desc&per_page=");
    let pp = u64_to_string(per_page as u64);
    let c = concat(b.as_str(), pp.as_str());
    let d = concat(c.as_str(), "&page=");
    let p = u64_to_string(page as u64);
    concat(d.as_str(), p.as_str())
}

/// Whether the client must be pointed at an API other than github.com's.
pub fn needs_custom_base_uri(api_url: &str) -> (b: bool)
    ensures
        b == (api_url@ != "https://api.github.com"@),
{
    !eq_str(api_url, "https://api.github.com")
}

/// `String::from_utf8`: the text the bytes encode, when they are valid UTF-8.
#[verifier::external_body]
fn utf8_string(bytes: Vec<u8>) -> (r: Option<String>)
    ensures
        match r {
            Some(s) => valid_utf8(bytes@) && s@ == decode_utf8(bytes@),
            None => !valid_utf8(bytes@),
        },
{
    String::from_utf8(bytes).ok()
}

/// Why a file's content could not be read.
#[derive(Debug, Clone, Copy, PartialEq, Eq, Structural)]
pub enum ContentError {
    /// The base64 content does not decode to UTF-8 text.
    NotUtf8,
}

/// What a contents response amounts to: base64 content is decoded (line
/// breaks dropped) and must be UTF-8; other content is taken as it is; no
/// content reads as the empty text. `None` where the decoded bytes are not UTF-8.
pub open spec fn file_text(content: Option<Seq<char>>, encoding: Option<Seq<char>>) -> Option<Seq<char>> {
    match content {
        Some(c) => if encoding == Some("base64"@) {
            let bytes = base64_decoded(remove_char(c, '\n'));
            if valid_utf8(bytes) {
                Some(decode_utf8(bytes))
            } else {
                None
            }
        } else {
            Some(c)
        },
        None => Some(Seq::empty()),
    }
}

pub open spec fn opt_str_view(o: Option<String>) -> Option<Seq<char>> {
    match o {
        Some(s) => Some(s@),
        None => None,
    }
}

/// The text of a file from the `content` and `encoding` fields of a
/// contents response.
pub fn decode_file_content(content: Option<String>, encoding: Option<String>) -> (r: Result<String, ContentError>)
    ensures
        match file_text(opt_str_view(content), opt_str_view(encoding)) {
            Some(t) => (r matches Ok(s) && s@ == t),
            None => r == Err::<String, ContentError>(ContentError::NotUtf8),
        },
{
    match content {
        Some(c) => {
            let is_base64 = match &encoding {
                Some(e) => eq_str(e.as_str(), "base64"),
                None => false,
            };
            if is_base64 {
                let cleaned = remove_char_str(c.as_str(), '\n');
                let bytes = base64_decode(cleaned.as_str());
                match utf8_string(bytes) {
                    Some(s) => Ok(s),
                    None => Err(ContentError::NotUtf8),
                }
            } else {
                Ok(c)
            }
        },
        None => {
            proof {
                reveal_strlit("");
            }
            Ok(String::new())
        },
    }
}

} // verus!
