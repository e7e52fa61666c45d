//! Query parameters and connection details for the FalkorDB graph.
use vstd::prelude::*;

use crate::config::AppConfig;
use crate::text::{chars_of, concat, decimal, i64_to_string, int_decimal, join, join_str, u64_to_string, views};

verus! {

/// Parameter types supported by FalkorDB queries.
/// FalkorDB's client only accepts string parameters, so values are
/// rendered into Cypher-compatible text.
#[derive(Debug, Clone)]
pub enum FalkorParam {
    String(String),
    Int(i64),
    Bool(bool),
}

/// The mathematical content of a [`FalkorParam`].
pub enum ParamView {
    Text(Seq<char>),
    Int(i64),
    Bool(bool),
}

impl View for FalkorParam {
    type V = ParamView;

    open spec fn view(&self) -> ParamView {
        match self {
            FalkorParam::String(s) => ParamView::Text(s@),
            FalkorParam::Int(i) => ParamView::Int(*i),
            FalkorParam::Bool(b) => ParamView::Bool(*b),
        }
    }
}

/// How a character is written inside a single-quoted Cypher string:
/// backslash, quote and the control characters \n \r \t \b \f behind a
/// backslash, every other character as it is.
pub open spec fn escape_char(c: char) -> Seq<char> {
    if c == '\\' {
        seq!['\\', '\\']
    } else if c == '\'' {
        seq!['\\', '\'']
    } else if c == '\n' {
        seq!['\\', 'n']
    } else if c == '\r' {
        seq!['\\', 'r']
    } else if c == '\t' {
        seq!['\\', 't']
    } else if c == '\u{08}' {
        seq!['\\', 'b']
    } else if c == '\u{0C}' {
        seq!['\\', 'f']
    } else {
        seq![c]
    }
}

/// A text with every character escaped for a single-quoted Cypher string.
pub open spec fn escaped(s: Seq<char>) -> Seq<char>
    decreases s.len(),
{
    if s.len() == 0 {
        Seq::empty()
    } else {
        escape_char(s[0]) + escaped(s.skip(1))
    }
}

/// The character an escape `\x` stands for, if `x` is one that
/// `escape_char` writes.
pub open spec fn unescape_char(x: char) -> Option<char> {
    if x == '\\' {
        Some('\\')
    } else if x == '\'' {
        Some('\'')
    } else if x == 'n' {
        Some('\n')
    } else if x == 'r' {
        Some('\r')
    } else if x == 't' {
        Some('\t')
    } else if x == 'b' {
        Some('\u{08}')
    } else if x == 'f' {
        Some('\u{0C}')
    } else {
        None
    }
}

/// Reads the body of a single-quoted Cypher string back: `None` where a
/// quote stands unescaped or an escape is unknown or cut off.
pub open spec fn unescaped(t: Seq<char>) -> Option<Seq<char>>
    decreases t.len(),
{
    if t.len() == 0 {
        Some(Seq::empty())
    } else if t[0] == '\\' {
        if t.len() < 2 {
            None
        } else {
            match (unescape_char(t[1]), unescaped(t.skip(2))) {
                (Some(c), Some(rest)) => Some(seq![c] + rest),
                _ => None,
            }
        }
    } else if t[0] == '\'' {
        None
    } else {
        match unescaped(t.skip(1)) {
            Some(rest) => Some(seq![t[0]] + rest),
            None => None,
        }
    }
}

/// The Cypher-compatible text of a parameter value: text with its quotes,
/// backslashes and control characters escaped (ready to stand between
/// single quotes); numbers in decimal; booleans as `true`/`false`.
pub open spec fn cypher_text(p: ParamView) -> Seq<char> {
    match p {
        ParamView::Text(s) => escaped(s),
        ParamView::Int(i) => int_decimal(i as int),
        ParamView::Bool(b) => if b {
            "true"@
        } else {
            "false"@
        },
    }
}

/// A parameter value as a Cypher literal: text between single quotes
/// (its escaped form inside), anything else as its Cypher text.
pub open spec fn cypher_literal(p: ParamView) -> Seq<char> {
    match p {
        ParamView::Text(s) => seq!['\''] + escaped(s) + seq!['\''],
        _ => cypher_text(p),
    }
}

/// Escaping one more character appends its escape.
pub proof fn lemma_escaped_push(s: Seq<char>, c: char)
    ensures
        escaped(s.push(c)) == escaped(s) + escape_char(c),
    decreases s.len(),
{
    if s.len() == 0 {
        assert(s.push(c).skip(1) =~= Seq::<char>::empty());
        assert(escaped(Seq::<char>::empty()) == Seq::<char>::empty());
        assert(s.push(c)[0] == c);
        assert(escaped(s) == Seq::<char>::empty());
        assert(escaped(s.push(c)) =~= escape_char(c) + Seq::<char>::empty());
    } else {
        lemma_escaped_push(s.skip(1), c);
        assert(s.push(c).skip(1) =~= s.skip(1).push(c));
        assert(escaped(s.push(c)) =~= escape_char(s[0]) + (escaped(s.skip(1)) + escape_char(c)));
    }
}

/// Escaped text reads back as the text it was made from: no quote in it
/// stands unescaped, and nothing is lost.
pub proof fn law_escaped_text_reads_back(s: Seq<char>)
    ensures
        unescaped(escaped(s)) == Some(s),
    decreases s.len(),
{
    if s.len() == 0 {
    } else {
        law_escaped_text_reads_back(s.skip(1));
        let c = s[0];
        let rest = escaped(s.skip(1));
        let t = escape_char(c) + rest;
        assert(escaped(s) == t);
        if escape_char(c).len() == 2 {
            assert(t.skip(2) =~= rest);
            assert(t[0] == '\\');
        } else {
            assert(t.skip(1) =~= rest);
            assert(t[0] == c);
        }
        assert(seq![c] + s.skip(1) =~= s);
    }
}

/// The Cypher text of a text parameter reads back as the text: every quote
/// in it is escaped.
pub proof fn law_text_param_reads_back(s: Seq<char>)
    ensures
        unescaped(cypher_text(ParamView::Text(s))) == Some(s),
{
    law_escaped_text_reads_back(s);
}

/// Escapes a text for a single-quoted Cypher string.
pub fn escape_text(s: &str) -> (r: String)
    ensures
        r@ == escaped(s@),
{
    let cs = chars_of(s);
    let mut r = String::new();
    let mut i: usize = 0;
    assert(cs@.take(0) =~= Seq::<char>::empty());
    while i < cs.len()
        invariant
            0 <= i <= cs.len(),
            cs@ == s@,
            r@ == escaped(cs@.take(i as int)),
        decreases cs.len() - i,
    {
        let c = cs[i];
        proof {
            lemma_escaped_push(cs@.take(i as int), c);
            assert(cs@.take(i + 1) =~= cs@.take(i as int).push(c));
        }
        if c == '\\' {
            r.push('\\');
            r.push('\\');
        } else if c == '\'' {
            r.push('\\');
            r.push('\'');
        } else if c == '\n' {
            r.push('\\');
            r.push('n');
        } else if c == '\r' {
            r.push('\\');
            r.push('r');
        } else if c == '\t' {
            r.push('\\');
            r.push('t');
        } else if c == '\u{08}' {
            r.push('\\');
            r.push('b');
        } else if c == '\u{0C}' {
            r.push('\\');
            r.push('f');
        } else {
            r.push(c);
        }
        assert(r@ =~= escaped(cs@.take(i + 1)));
        i = i + 1;
    }
    assert(cs@.take(cs@.len() as int) =~= s@);
    r
}

impl FalkorParam {
    /// Convert to a Cypher-compatible string representation.
    pub fn to_cypher_string(&self) -> (s: String)
        ensures
            s@ == cypher_text(self@),
    {
        match self {
            FalkorParam::String(s) => escape_text(s.as_str()),
            FalkorParam::Int(i) => i64_to_string(*i),
            FalkorParam::Bool(b) => if *b {
                String::from_str("true")
            } else {
                String::from_str("false")
            },
        }
    }

    /// The value as a Cypher literal: text quoted, anything else as is.
    pub fn to_cypher_literal(&self) -> (s: String)
        ensures
            s@ == cypher_literal(self@),
    {
        match self {
            FalkorParam::String(t) => {
                let mut r = String::new();
                r.push('\'');
                let e = escape_text(t.as_str());
                let mut r = concat(r.as_str(), e.as_str());
                r.push('\'');
                r
            },
            _ => self.to_cypher_string(),
        }
    }
}

impl<'a> From<&'a str> for FalkorParam {
    /// A text parameter holding a copy of `s`.
    fn from(s: &'a str) -> (r: FalkorParam)
        ensures
            r@ == ParamView::Text(s@),
    {
        FalkorParam::String(s.to_owned())
    }
}

/// A `String` cannot be built from a `&str` in specifications, so no
/// `from_spec` names the copy; `from` itself states its result by view.
impl<'a> vstd::std_specs::convert::FromSpecImpl<&'a str> for FalkorParam {
    open spec fn obeys_from_spec() -> bool {
        false
    }

    open spec fn from_spec(s: &'a str) -> FalkorParam {
        vstd::pervasive::arbitrary()
    }
}

impl From<String> for FalkorParam {
    fn from(s: String) -> (r: FalkorParam) {
        FalkorParam::String(s)
    }
}

impl vstd::std_specs::convert::FromSpecImpl<String> for FalkorParam {
    open spec fn obeys_from_spec() -> bool {
        true
    }

    open spec fn from_spec(s: String) -> FalkorParam {
        FalkorParam::String(s)
    }
}

impl From<i64> for FalkorParam {
    fn from(i: i64) -> (r: FalkorParam) {
        FalkorParam::Int(i)
    }
}

impl vstd::std_specs::convert::FromSpecImpl<i64> for FalkorParam {
    open spec fn obeys_from_spec() -> bool {
        true
    }

    open spec fn from_spec(i: i64) -> FalkorParam {
        FalkorParam::Int(i)
    }
}

impl From<bool> for FalkorParam {
    fn from(b: bool) -> (r: FalkorParam) {
        FalkorParam::Bool(b)
    }
}

impl vstd::std_specs::convert::FromSpecImpl<bool> for FalkorParam {
    open spec fn obeys_from_spec() -> bool {
        true
    }

    open spec fn from_spec(b: bool) -> FalkorParam {
        FalkorParam::Bool(b)
    }
}

/// A text parameter holding a copy of `s`.
pub fn text_param(s: &str) -> (p: FalkorParam)
    ensures
        p@ == ParamView::Text(s@),
{
    FalkorParam::String(s.to_owned())
}

/// Named query parameters, by view.
pub open spec fn param_views(ps: Seq<(String, FalkorParam)>) -> Seq<(Seq<char>, ParamView)> {
    ps.map_values(|p: (String, FalkorParam)| (p.0@, p.1@))
}

/// The (name, text) pairs handed to the database for named parameters.
pub open spec fn rendered(ps: Seq<(Seq<char>, ParamView)>) -> Seq<(Seq<char>, Seq<char>)> {
    ps.map_values(|p: (Seq<char>, ParamView)| (p.0, cypher_text(p.1)))
}

pub open spec fn text_pairs(ps: Seq<(String, String)>) -> Seq<(Seq<char>, Seq<char>)> {
    ps.map_values(|p: (String, String)| (p.0@, p.1@))
}

/// A query and its named parameters, ready to be executed.
#[derive(Debug, Clone)]
pub struct GraphRequest {
    pub query: &'static str,
    pub params: Vec<(String, FalkorParam)>,
}

/// Every parameter value rendered to text, in order.
pub fn render_params(params: &Vec<(String, FalkorParam)>) -> (r: Vec<(String, String)>)
    ensures
        text_pairs(r@) == rendered(param_views(params@)),
{
    let mut out: Vec<(String, String)> = Vec::new();
    let mut i: usize = 0;
    while i < params.len()
        invariant
            0 <= i <= params.len(),
            text_pairs(out@) == rendered(param_views(params@)).take(i as int),
        decreases params.len() - i,
    {
        let k = params[i].0.clone();
        let v = params[i].1.to_cypher_string();
        let ghost before = text_pairs(out@);
        out.push((k, v));
        assert(text_pairs(out@) =~= before.push((k@, v@)));
        assert(text_pairs(out@) =~= rendered(param_views(params@)).take(i + 1));
        i = i + 1;
    }
    assert(rendered(param_views(params@)).take(params@.len() as int) =~= rendered(
        param_views(params@),
    ));
    out
}

/// The (name, literal) pairs handed to the database as Cypher literals.
pub open spec fn literals(ps: Seq<(Seq<char>, ParamView)>) -> Seq<(Seq<char>, Seq<char>)> {
    ps.map_values(|p: (Seq<char>, ParamView)| (p.0, cypher_literal(p.1)))
}

/// Every parameter value as a Cypher literal, in order.
pub fn render_literals(params: &Vec<(String, FalkorParam)>) -> (r: Vec<(String, String)>)
    ensures
        text_pairs(r@) == literals(param_views(params@)),
{
    let mut out: Vec<(String, String)> = Vec::new();
    let mut i: usize = 0;
    while i < params.len()
        invariant
            0 <= i <= params.len(),
            text_pairs(out@) == literals(param_views(params@)).take(i as int),
        decreases params.len() - i,
    {
        let k = params[i].0.clone();
        let v = params[i].1.to_cypher_literal();
        let ghost before = text_pairs(out@);
        out.push((k, v));
        assert(text_pairs(out@) =~= before.push((k@, v@)));
        assert(text_pairs(out@) =~= literals(param_views(params@)).take(i + 1));
        i = i + 1;
    }
    assert(literals(param_views(params@)).take(params@.len() as int) =~= literals(param_views(params@)));
    out
}

/// The connection URL for the configured FalkorDB server.
pub open spec fn connection_url_of(c: AppConfig) -> Seq<char> {
    match c.falkordb_password {
        Some(pw) => "falkor://default:"@ + pw@ + "@"@ + c.falkordb_host@ + ":"@ + decimal(
            c.falkordb_port as nat,
        ),
        None => "falkor://"@ + c.falkordb_host@ + ":"@ + decimal(c.falkordb_port as nat),
    }
}

/// The connection URL for the configured FalkorDB server (with the
/// password as the `default` user's when one is configured).
pub fn connection_url(config: &AppConfig) -> (s: String)
    ensures
        s@ == connection_url_of(*config),
{
    let port = u64_to_string(config.falkordb_port as u64);
    let head = match &config.falkordb_password {
        Some(pw) => {
            let a = concat("falkor://default:", pw.as_str());
            let b = concat(a.as_str(), "@");
            concat(b.as_str(), config.falkordb_host.as_str())
        },
        None => concat("falkor://", config.falkordb_host.as_str()),
    };
    let h = concat(head.as_str(), ":");
    concat(h.as_str(), port.as_str())
}

/// The text a query's result is reported as: one line per row, then a
/// `Stats:` line when there are statistics.
pub open spec fn output_text(rows: Seq<Seq<char>>, stats: Option<Seq<char>>) -> Seq<char> {
    match stats {
        Some(s) => join(rows.push("Stats: "@ + s), "\n"@),
        None => join(rows, "\n"@),
    }
}

/// Assembles the report of a query: the rendered rows, then the rendered
/// statistics (when there are any), one per line.
pub fn query_output(rows: Vec<String>, stats: Option<String>) -> (s: String)
    ensures
        s@ == output_text(views(rows@), match stats {
            Some(x) => Some(x@),
            None => None,
        }),
{
    let mut lines = rows;
    let ghost rv = views(lines@);
    match stats {
        Some(st) => {
            let line = concat("Stats: ", st.as_str());
            lines.push(line);
            assert(views(lines@) =~= rv.push(line@));
        },
        None => {},
    }
    join_str(&lines, "\n")
}


/// How text is escaped, by character code: backslash (92) and quote (39)
/// behind a backslash, newline (10), carriage return (13), tab (9),
/// backspace (8) and form feed (12) as `\n`, `\r`, `\t`, `\b`, `\f`; every
/// other character as it is.
pub proof fn law_escape_table(c: char)
    ensures
        (c as u32) == 92 ==> escape_char(c) == seq!['\\', '\\'],
        (c as u32) == 39 ==> escape_char(c) == seq!['\\', '\''],
        (c as u32) == 10 ==> escape_char(c) == seq!['\\', 'n'],
        (c as u32) == 13 ==> escape_char(c) == seq!['\\', 'r'],
        (c as u32) == 9 ==> escape_char(c) == seq!['\\', 't'],
        (c as u32) == 8 ==> escape_char(c) == seq!['\\', 'b'],
        (c as u32) == 12 ==> escape_char(c) == seq!['\\', 'f'],
        !((c as u32) == 92 || (c as u32) == 39 || (c as u32) == 10 || (c as u32) == 13 || (c as u32) == 9 || (c as u32)
            == 8 || (c as u32) == 12) ==> escape_char(c) == seq![c],
{
}

} // verus!
