//! Character-level text operations over `Seq<char>`, with executable
//! counterparts on `&str` / `String`.
use vstd::prelude::*;

verus! {

pub assume_specification[ std::string::String::push ](s: &mut std::string::String, ch: char)
    ensures
        final(s)@ == old(s)@.push(ch),
;

// ---------------------------------------------------------------------------
// Specifications
// ---------------------------------------------------------------------------

/// Unicode `White_Space` (the property `char::is_whitespace` tests).
pub open spec fn is_ws(c: char) -> bool {
    ||| ('\u{9}' <= c && c <= '\u{d}')
    ||| c == ' '
    ||| c == '\u{85}'
    ||| c == '\u{a0}'
    ||| c == '\u{1680}'
    ||| ('\u{2000}' <= c && c <= '\u{200a}')
    ||| c == '\u{2028}'
    ||| c == '\u{2029}'
    ||| c == '\u{202f}'
    ||| c == '\u{205f}'
    ||| c == '\u{3000}'
}

/// `s` with its leading whitespace removed.
pub open spec fn trim_start(s: Seq<char>) -> Seq<char>
    decreases s.len(),
{
    if s.len() > 0 && is_ws(s[0]) {
        trim_start(s.drop_first())
    } else {
        s
    }
}

/// `s` with its trailing whitespace removed.
pub open spec fn trim_end(s: Seq<char>) -> Seq<char>
    decreases s.len(),
{
    if s.len() > 0 && is_ws(s.last()) {
        trim_end(s.drop_last())
    } else {
        s
    }
}

/// `s` with leading and trailing whitespace removed.
pub open spec fn trim(s: Seq<char>) -> Seq<char> {
    trim_end(trim_start(s))
}

pub open spec fn starts_with(s: Seq<char>, prefix: Seq<char>) -> bool {
    prefix.len() <= s.len() && s.take(prefix.len() as int) == prefix
}

pub open spec fn ends_with(s: Seq<char>, suffix: Seq<char>) -> bool {
    suffix.len() <= s.len() && s.skip(s.len() - suffix.len()) == suffix
}

/// `pat` occurs in `s` starting at position `i`.
pub open spec fn occurs_at(s: Seq<char>, pat: Seq<char>, i: int) -> bool {
    0 <= i && i + pat.len() <= s.len() && s.subrange(i, i + pat.len()) == pat
}

pub open spec fn contains(s: Seq<char>, pat: Seq<char>) -> bool {
    exists|i: int| occurs_at(s, pat, i)
}

/// The pieces of `s` between occurrences of `sep`, as `str::split` yields them.
pub open spec fn split_char(s: Seq<char>, sep: char) -> Seq<Seq<char>>
    decreases s.len(),
{
    if s.len() == 0 {
        seq![Seq::<char>::empty()]
    } else {
        let r = split_char(s.drop_last(), sep);
        if s.last() == sep {
            r.push(Seq::<char>::empty())
        } else {
            r.update(r.len() - 1, r.last().push(s.last()))
        }
    }
}

/// Index of the first character of `s` that is in `set`.
pub open spec fn find_any(s: Seq<char>, set: Seq<char>) -> Option<int>
    decreases s.len(),
{
    if s.len() == 0 {
        None
    } else {
        match find_any(s.drop_last(), set) {
            Some(i) => Some(i),
            None => if set.contains(s.last()) {
                Some(s.len() - 1)
            } else {
                None
            },
        }
    }
}

/// `str::split_once` with a character pattern.
pub open spec fn split_once(s: Seq<char>, sep: char) -> Option<(Seq<char>, Seq<char>)> {
    match find_any(s, seq![sep]) {
        Some(i) => Some((s.take(i), s.skip(i + 1))),
        None => None,
    }
}

/// `line` without one trailing carriage return.
pub open spec fn strip_cr(line: Seq<char>) -> Seq<char> {
    if line.len() > 0 && line.last() == '\r' {
        line.drop_last()
    } else {
        line
    }
}

/// The lines of `s`, as `str::lines` yields them: split at `\n`, a `\r`
/// before that `\n` dropped, and no empty line after a final `\n`.
pub open spec fn lines(s: Seq<char>) -> Seq<Seq<char>> {
    let p = split_char(s, '\n');
    Seq::new((p.len() - 1) as nat, |i: int| strip_cr(p[i])) + if p.last().len() == 0 {
        Seq::<Seq<char>>::empty()
    } else {
        seq![p.last()]
    }
}

/// The whitespace-separated words of `s`, as `str::split_whitespace` yields them.
pub open spec fn words(s: Seq<char>) -> Seq<Seq<char>>
    decreases s.len(),
{
    if s.len() == 0 {
        Seq::<Seq<char>>::empty()
    } else {
        let r = words(s.drop_last());
        if is_ws(s.last()) {
            r
        } else if s.len() >= 2 && !is_ws(s[s.len() - 2]) {
            r.update(r.len() - 1, r.last().push(s.last()))
        } else {
            r.push(seq![s.last()])
        }
    }
}

/// Number of occurrences of `c` in `s`.
pub open spec fn count_char(s: Seq<char>, c: char) -> nat
    decreases s.len(),
{
    if s.len() == 0 {
        0
    } else {
        count_char(s.drop_last(), c) + if s.last() == c { 1nat } else { 0nat }
    }
}

/// `s` with every occurrence of `c` removed.
pub open spec fn remove_char(s: Seq<char>, c: char) -> Seq<char>
    decreases s.len(),
{
    if s.len() == 0 {
        s
    } else if s.last() == c {
        remove_char(s.drop_last(), c)
    } else {
        remove_char(s.drop_last(), c).push(s.last())
    }
}

/// The views of a sequence of strings.
pub open spec fn views(v: Seq<String>) -> Seq<Seq<char>> {
    v.map_values(|x: String| x@)
}

// ---------------------------------------------------------------------------
// Lemmas
// ---------------------------------------------------------------------------

pub proof fn lemma_split_nonempty(s: Seq<char>, sep: char)
    ensures
        split_char(s, sep).len() >= 1,
    decreases s.len(),
{
    if s.len() > 0 {
        lemma_split_nonempty(s.drop_last(), sep);
    }
}

pub proof fn lemma_words_last(s: Seq<char>)
    ensures
        s.len() > 0 && !is_ws(s.last()) ==> words(s).len() >= 1,
    decreases s.len(),
{
    if s.len() > 0 {
        lemma_words_last(s.drop_last());
    }
}

pub proof fn lemma_find_any_some(s: Seq<char>, set: Seq<char>)
    ensures
        find_any(s, set) matches Some(i) ==> 0 <= i < s.len() && set.contains(s[i]) && (forall|j: int|
            0 <= j < i ==> !set.contains(#[trigger] s[j])),
        find_any(s, set) is None ==> forall|j: int| 0 <= j < s.len() ==> !set.contains(#[trigger] s[j]),
    decreases s.len(),
{
    if s.len() > 0 {
        let t = s.drop_last();
        lemma_find_any_some(t, set);
        assert forall|j: int| 0 <= j < s.len() - 1 implies s[j] == #[trigger] t[j] by {}
        match find_any(t, set) {
            Some(i) => {
                assert forall|j: int| 0 <= j < i implies !set.contains(#[trigger] s[j]) by {
                    assert(s[j] == t[j]);
                }
            },
            None => {
                if set.contains(s.last()) {
                    assert forall|j: int| 0 <= j < s.len() - 1 implies !set.contains(#[trigger] s[j]) by {
                        assert(s[j] == t[j]);
                    }
                } else {
                    assert forall|j: int| 0 <= j < s.len() implies !set.contains(#[trigger] s[j]) by {
                        if j < s.len() - 1 {
                            assert(s[j] == t[j]);
                        }
                    }
                }
            },
        }
    }
}

pub proof fn lemma_singleton_contains(c: char, x: char)
    ensures
        seq![c].contains(x) <==> x == c,
{
    if x == c {
        assert(seq![c][0] == x);
    }
}

/// The first occurrence found by `find_any` is unique.
pub proof fn lemma_find_any_is(s: Seq<char>, set: Seq<char>, i: int)
    requires
        0 <= i < s.len(),
        set.contains(s[i]),
        forall|j: int| 0 <= j < i ==> !set.contains(#[trigger] s[j]),
    ensures
        find_any(s, set) == Some(i),
{
    lemma_find_any_some(s, set);
    match find_any(s, set) {
        Some(k) => {
            if k < i {
                assert(!set.contains(s[k]));
            } else if k > i {
                assert(!set.contains(s[i]));
            }
        },
        None => {
            assert(!set.contains(s[i]));
        },
    }
}

/// `find_any` of a prefix, read off the whole string.
pub proof fn lemma_find_any_prefix(s: Seq<char>, set: Seq<char>, n: int)
    requires
        0 <= n <= s.len(),
        forall|j: int| 0 <= j < n ==> !set.contains(#[trigger] s[j]),
    ensures
        find_any(s.take(n), set) is None,
    decreases n,
{
    if n > 0 {
        lemma_find_any_prefix(s, set, n - 1);
        assert(s.take(n).drop_last() =~= s.take(n - 1));
    }
}

proof fn lemma_trim_start_keeps_absent(s: Seq<char>, c: char)
    requires
        !s.contains(c),
    ensures
        !trim_start(s).contains(c),
    decreases s.len(),
{
    if s.len() > 0 && is_ws(s[0]) {
        let t = s.drop_first();
        assert(!t.contains(c)) by {
            if t.contains(c) {
                let k = choose|k: int| 0 <= k < t.len() && t[k] == c;
                assert(s[k + 1] == c);
            }
        }
        lemma_trim_start_keeps_absent(t, c);
    }
}

proof fn lemma_trim_end_keeps_absent(s: Seq<char>, c: char)
    requires
        !s.contains(c),
    ensures
        !trim_end(s).contains(c),
    decreases s.len(),
{
    if s.len() > 0 && is_ws(s.last()) {
        let t = s.drop_last();
        assert(!t.contains(c)) by {
            if t.contains(c) {
                let k = choose|k: int| 0 <= k < t.len() && t[k] == c;
                assert(s[k] == c);
            }
        }
        lemma_trim_end_keeps_absent(t, c);
    }
}

/// Trimming brings in no character the text lacked.
pub proof fn lemma_trim_keeps_absent(s: Seq<char>, c: char)
    requires
        !s.contains(c),
    ensures
        !trim(s).contains(c),
{
    lemma_trim_start_keeps_absent(s, c);
    lemma_trim_end_keeps_absent(trim_start(s), c);
}

/// Text without the separator splits into itself alone.
pub proof fn lemma_split_no_sep(a: Seq<char>, sep: char)
    requires
        !a.contains(sep),
    ensures
        split_char(a, sep) == seq![a],
    decreases a.len(),
{
    if a.len() == 0 {
        assert(a =~= Seq::<char>::empty());
        assert(split_char(a, sep) =~= seq![a]);
    } else {
        let t = a.drop_last();
        assert(!t.contains(sep)) by {
            if t.contains(sep) {
                let k = choose|k: int| 0 <= k < t.len() && t[k] == sep;
                assert(a[k] == sep);
            }
        }
        lemma_split_no_sep(t, sep);
        assert(a.last() != sep) by {
            assert(a[a.len() - 1] == a.last());
        }
        assert(t.push(a.last()) =~= a);
        let r = split_char(t, sep);
        assert(r.len() == 1 && r.last() == t);
        assert(split_char(a, sep) == r.update(0, t.push(a.last())));
        assert(split_char(a, sep) =~= seq![a]);
    }
}

/// The first piece of `a` followed by a separator and more is `a`, when `a`
/// holds no separator.
pub proof fn lemma_split_first(a: Seq<char>, b: Seq<char>, sep: char)
    requires
        !a.contains(sep),
        b.len() > 0,
        b[0] == sep,
    ensures
        split_char(a + b, sep).len() >= 2,
        split_char(a + b, sep)[0] == a,
    decreases b.len(),
{
    let s = a + b;
    if b.len() == 1 {
        assert(s.drop_last() =~= a);
        assert(s.last() == sep);
        lemma_split_no_sep(a, sep);
    } else {
        let b2 = b.drop_last();
        lemma_split_first(a, b2, sep);
        assert(s.drop_last() =~= a + b2);
    }
}

// ---------------------------------------------------------------------------
// Executable operations
// ---------------------------------------------------------------------------

/// Collects the characters of `s` into a vector.
pub fn chars_of(s: &str) -> (v: Vec<char>)
    ensures
        v@ == s@,
{
    broadcast use vstd::string::group_string_axioms;

    let mut v: Vec<char> = Vec::new();
    for c in it: s.chars()
        invariant
            v@ == it.seq().take(it.index()),
    {
        v.push(c);
    }
    v
}

/// The characters `v[lo..hi]` as a `String`.
pub fn string_of(v: &Vec<char>, lo: usize, hi: usize) -> (s: String)
    requires
        lo <= hi <= v.len(),
    ensures
        s@ == v@.subrange(lo as int, hi as int),
{
    let mut s = String::new();
    let mut i = lo;
    while i < hi
        invariant
            lo <= i <= hi <= v.len(),
            s@ == v@.subrange(lo as int, i as int),
        decreases hi - i,
    {
        s.push(v[i]);
        assert(v@.subrange(lo as int, i + 1) =~= v@.subrange(lo as int, i as int).push(v@[i as int]));
        i = i + 1;
    }
    s
}

/// `a` followed by `b`.
pub fn concat(a: &str, b: &str) -> (r: String)
    ensures
        r@ == a@ + b@,
{
    let mut r = a.to_owned();
    r.append(b);
    r
}

/// `char::is_whitespace`.
pub fn is_whitespace(c: char) -> (b: bool)
    ensures
        b == is_ws(c),
{
    ('\u{9}' <= c && c <= '\u{d}') || c == ' ' || c == '\u{85}' || c == '\u{a0}' || c == '\u{1680}'
        || ('\u{2000}' <= c && c <= '\u{200a}') || c == '\u{2028}' || c == '\u{2029}' || c
        == '\u{202f}' || c == '\u{205f}' || c == '\u{3000}'
}

/// Bounds of `v[lo..hi]` with surrounding whitespace removed.
pub fn trim_bounds(v: &Vec<char>, lo: usize, hi: usize) -> (r: (usize, usize))
    requires
        lo <= hi <= v.len(),
    ensures
        lo <= r.0 <= r.1 <= hi,
        v@.subrange(r.0 as int, r.1 as int) == trim(v@.subrange(lo as int, hi as int)),
{
    let mut a = lo;
    while a < hi && is_whitespace(v[a])
        invariant
            lo <= a <= hi <= v.len(),
            trim_start(v@.subrange(lo as int, hi as int)) == trim_start(
                v@.subrange(a as int, hi as int),
            ),
        decreases hi - a,
    {
        assert(v@.subrange(a as int, hi as int).drop_first() =~= v@.subrange(a + 1, hi as int));
        a = a + 1;
    }
    assert(trim_start(v@.subrange(a as int, hi as int)) == v@.subrange(a as int, hi as int));
    let mut b = hi;
    while b > a && is_whitespace(v[b - 1])
        invariant
            lo <= a <= b <= hi <= v.len(),
            trim_end(v@.subrange(a as int, hi as int)) == trim_end(v@.subrange(a as int, b as int)),
        decreases b - a,
    {
        assert(v@.subrange(a as int, b as int).drop_last() =~= v@.subrange(a as int, b - 1));
        b = b - 1;
    }
    (a, b)
}

/// `str::trim`.
pub fn trim_str(s: &str) -> (r: String)
    ensures
        r@ == trim(s@),
{
    let v = chars_of(s);
    let (a, b) = trim_bounds(&v, 0, v.len());
    assert(v@.subrange(0, v@.len() as int) =~= v@);
    string_of(&v, a, b)
}

/// String equality by content.
pub fn eq_str(a: &str, b: &str) -> (r: bool)
    ensures
        r == (a@ == b@),
{
    let x = chars_of(a);
    let y = chars_of(b);
    if x.len() != y.len() {
        return false;
    }
    let mut i: usize = 0;
    while i < x.len()
        invariant
            0 <= i <= x.len(),
            x.len() == y.len(),
            x@ == a@,
            y@ == b@,
            forall|j: int| 0 <= j < i ==> x@[j] == y@[j],
        decreases x.len() - i,
    {
        if x[i] != y[i] {
            return false;
        }
        i = i + 1;
    }
    assert(x@ =~= y@);
    true
}

/// `str::starts_with` with a string pattern.
pub fn starts_with_str(s: &str, prefix: &str) -> (b: bool)
    ensures
        b == starts_with(s@, prefix@),
{
    let v = chars_of(s);
    let p = chars_of(prefix);
    if p.len() > v.len() {
        return false;
    }
    let mut i: usize = 0;
    while i < p.len()
        invariant
            p.len() <= v.len(),
            0 <= i <= p.len(),
            v@ == s@,
            p@ == prefix@,
            forall|j: int| 0 <= j < i ==> v@[j] == p@[j],
        decreases p.len() - i,
    {
        if v[i] != p[i] {
            assert(v@.take(p@.len() as int)[i as int] == v@[i as int]);
            assert(v@.take(p@.len() as int) != p@);
            return false;
        }
        i = i + 1;
    }
    assert(v@.take(p@.len() as int) =~= p@);
    true
}

/// `str::ends_with` with a string pattern.
pub fn ends_with_str(s: &str, suffix: &str) -> (b: bool)
    ensures
        b == ends_with(s@, suffix@),
{
    let v = chars_of(s);
    let p = chars_of(suffix);
    if p.len() > v.len() {
        return false;
    }
    let off = v.len() - p.len();
    let mut i: usize = 0;
    while i < p.len()
        invariant
            p.len() <= v.len(),
            off == v.len() - p.len(),
            0 <= i <= p.len(),
            v@ == s@,
            p@ == suffix@,
            forall|j: int| 0 <= j < i ==> v@[off + j] == p@[j],
        decreases p.len() - i,
    {
        if v[off + i] != p[i] {
            assert(v@.skip(off as int)[i as int] == v@[off + i]);
            assert(v@.skip(off as int) != p@);
            return false;
        }
        i = i + 1;
    }
    assert(v@.skip(off as int) =~= p@);
    true
}

/// Whether `pat` occurs in `v` at position `i`.
fn matches_at(v: &Vec<char>, p: &Vec<char>, i: usize) -> (b: bool)
    requires
        i + p.len() <= v.len(),
    ensures
        b == occurs_at(v@, p@, i as int),
{
    let mut k: usize = 0;
    while k < p.len()
        invariant
            i + p.len() <= v.len(),
            0 <= k <= p.len(),
            forall|j: int| 0 <= j < k ==> v@[i + j] == p@[j],
        decreases p.len() - k,
    {
        if v[i + k] != p[k] {
            assert(v@.subrange(i as int, i + p@.len())[k as int] != p@[k as int]);
            return false;
        }
        k = k + 1;
    }
    assert(v@.subrange(i as int, i + p@.len()) =~= p@);
    true
}

/// `str::contains` with a string pattern.
pub fn contains_str(s: &str, pat: &str) -> (b: bool)
    ensures
        b == contains(s@, pat@),
{
    let v = chars_of(s);
    let p = chars_of(pat);
    if p.len() > v.len() {
        assert forall|i: int| !occurs_at(s@, pat@, i) by {}
        return false;
    }
    let last = v.len() - p.len();
    let mut i: usize = 0;
    loop
        invariant
            p.len() <= v.len(),
            last == v.len() - p.len(),
            0 <= i <= last,
            v@ == s@,
            p@ == pat@,
            forall|j: int| 0 <= j < i ==> !occurs_at(s@, pat@, j),
        decreases last - i,
    {
        if matches_at(&v, &p, i) {
            assert(occurs_at(s@, pat@, i as int));
            return true;
        }
        if i == last {
            assert forall|j: int| !occurs_at(s@, pat@, j) by {
                if 0 <= j && j + pat@.len() <= s@.len() && j != i {
                    assert(j < i);
                }
            }
            return false;
        }
        i = i + 1;
    }
}

/// `str::split` with a character pattern.
pub fn split_str(s: &str, sep: char) -> (r: Vec<String>)
    ensures
        views(r@) == split_char(s@, sep),
{
    let v = chars_of(s);
    let mut pieces: Vec<String> = Vec::new();
    let mut cur = String::new();
    let mut i: usize = 0;
    assert(v@.take(0) =~= Seq::<char>::empty());
    while i < v.len()
        invariant
            0 <= i <= v.len(),
            views(pieces@).push(cur@) == split_char(v@.take(i as int), sep),
        decreases v.len() - i,
    {
        let c = v[i];
        let ghost pre = v@.take(i as int);
        assert(v@.take(i + 1).drop_last() =~= pre);
        assert(v@.take(i + 1).last() == c);
        proof {
            lemma_split_nonempty(pre, sep);
        }
        if c == sep {
            let done = cur;
            pieces.push(done);
            cur = String::new();
            assert(views(pieces@) =~= views(pieces@.drop_last()).push(done@));
        } else {
            let ghost old_pieces = views(pieces@);
            cur.push(c);
            assert(views(pieces@).push(cur@) =~= old_pieces.push(cur@));
        }
        i = i + 1;
    }
    assert(v@.take(v@.len() as int) =~= v@);
    pieces.push(cur);
    assert(views(pieces@) =~= views(pieces@.drop_last()).push(pieces@.last()@));
    pieces
}

/// `str::split_once` with a character pattern.
pub fn split_once_str(s: &str, sep: char) -> (r: Option<(String, String)>)
    ensures
        match split_once(s@, sep) {
            Some((a, b)) => (r matches Some((x, y)) && x@ == a && y@ == b),
            None => r is None,
        },
{
    let v = chars_of(s);
    let mut i: usize = 0;
    while i < v.len()
        invariant
            0 <= i <= v.len(),
            v@ == s@,
            forall|j: int| 0 <= j < i ==> !seq![sep].contains(#[trigger] v@[j]),
        decreases v.len() - i,
    {
        proof {
            lemma_singleton_contains(sep, v@[i as int]);
        }
        if v[i] == sep {
            proof {
                lemma_find_any_is(v@, seq![sep], i as int);
            }
            let a = string_of(&v, 0, i);
            let b = string_of(&v, i + 1, v.len());
            assert(v@.subrange(0, i as int) =~= v@.take(i as int));
            assert(v@.subrange(i + 1, v@.len() as int) =~= v@.skip(i + 1));
            return Some((a, b));
        }
        i = i + 1;
    }
    proof {
        lemma_find_any_some(v@, seq![sep]);
        if let Some(k) = find_any(v@, seq![sep]) {
            assert(!seq![sep].contains(v@[k]));
        }
    }
    None
}

/// `str::strip_prefix` with a string pattern.
pub fn strip_prefix_str(s: &str, prefix: &str) -> (r: Option<String>)
    ensures
        starts_with(s@, prefix@) ==> (r matches Some(x) && x@ == s@.skip(prefix@.len() as int)),
        !starts_with(s@, prefix@) ==> r is None,
{
    if starts_with_str(s, prefix) {
        let v = chars_of(s);
        let p = prefix.unicode_len();
        let rest = string_of(&v, p, v.len());
        assert(v@.subrange(p as int, v@.len() as int) =~= v@.skip(p as int));
        Some(rest)
    } else {
        None
    }
}

/// Number of occurrences of `c` in `s` (`s.matches(c).count()`).
pub fn count_char_str(s: &str, c: char) -> (n: usize)
    ensures
        n == count_char(s@, c),
{
    let v = chars_of(s);
    let mut n: usize = 0;
    let mut i: usize = 0;
    while i < v.len()
        invariant
            0 <= i <= v.len(),
            n == count_char(v@.take(i as int), c),
            n <= i,
        decreases v.len() - i,
    {
        assert(v@.take(i + 1).drop_last() =~= v@.take(i as int));
        if v[i] == c {
            n = n + 1;
        }
        i = i + 1;
    }
    assert(v@.take(v@.len() as int) =~= v@);
    n
}

/// `s.replace(c, "")`.
pub fn remove_char_str(s: &str, c: char) -> (r: String)
    ensures
        r@ == remove_char(s@, c),
{
    let v = chars_of(s);
    let mut r = String::new();
    let mut i: usize = 0;
    assert(v@.take(0) =~= Seq::<char>::empty());
    while i < v.len()
        invariant
            0 <= i <= v.len(),
            r@ == remove_char(v@.take(i as int), c),
        decreases v.len() - i,
    {
        assert(v@.take(i + 1).drop_last() =~= v@.take(i as int));
        if v[i] != c {
            r.push(v[i]);
        }
        i = i + 1;
    }
    assert(v@.take(v@.len() as int) =~= v@);
    r
}

/// `line` without one trailing carriage return.
pub fn strip_cr_str(line: &str) -> (r: String)
    ensures
        r@ == strip_cr(line@),
{
    let v = chars_of(line);
    if v.len() > 0 && v[v.len() - 1] == '\r' {
        let r = string_of(&v, 0, v.len() - 1);
        assert(v@.subrange(0, v@.len() - 1) =~= v@.drop_last());
        r
    } else {
        let r = string_of(&v, 0, v.len());
        assert(v@.subrange(0, v@.len() as int) =~= v@);
        r
    }
}

/// `str::lines`.
pub fn lines_str(s: &str) -> (r: Vec<String>)
    ensures
        views(r@) == lines(s@),
{
    let pieces = split_str(s, '\n');
    let ghost p = split_char(s@, '\n');
    proof {
        lemma_split_nonempty(s@, '\n');
    }
    assert(pieces@.len() == p.len());
    let n = pieces.len() - 1;
    let mut out: Vec<String> = Vec::new();
    let mut i: usize = 0;
    while i < n
        invariant
            0 <= i <= n,
            n == pieces@.len() - 1,
            views(pieces@) == p,
            p == split_char(s@, '\n'),
            views(out@) == Seq::new(i as nat, |k: int| strip_cr(p[k])),
        decreases n - i,
    {
        assert(pieces@[i as int]@ == p[i as int]);
        let line = strip_cr_str(pieces[i].as_str());
        let ghost before = views(out@);
        out.push(line);
        assert(views(out@) =~= before.push(line@));
        assert(views(out@) =~= Seq::new((i + 1) as nat, |k: int| strip_cr(p[k])));
        i = i + 1;
    }
    assert(pieces@[n as int]@ == p.last());
    if pieces[n].as_str().unicode_len() > 0 {
        let last = pieces[n].clone();
        let ghost before = views(out@);
        out.push(last);
        assert(views(out@) =~= before.push(last@));
        assert(last@.len() > 0) by {
            if last@.len() == 0 {
                assert(last@ == Seq::<char>::empty());
            }
        }
    } else {
        assert(p.last().len() == 0) by {
            assert(pieces@[n as int]@.len() == 0) by {
                if pieces@[n as int]@.len() != 0 {
                    assert(pieces@[n as int]@.len() > 0);
                }
            }
        }
    }
    assert(views(out@) =~= lines(s@));
    out
}

/// `str::split_whitespace`.
pub fn words_str(s: &str) -> (r: Vec<String>)
    ensures
        views(r@) == words(s@),
{
    let v = chars_of(s);
    let mut out: Vec<String> = Vec::new();
    let mut cur = String::new();
    let mut in_word = false;
    let mut i: usize = 0;
    assert(v@.take(0) =~= Seq::<char>::empty());
    while i < v.len()
        invariant
            0 <= i <= v.len(),
            v@ == s@,
            in_word == (i > 0 && !is_ws(v@[i - 1])),
            in_word ==> views(out@).push(cur@) == words(v@.take(i as int)),
            !in_word ==> views(out@) == words(v@.take(i as int)),
        decreases v.len() - i,
    {
        let c = v[i];
        let ghost pre = v@.take(i as int);
        assert(v@.take(i + 1).drop_last() =~= pre);
        assert(v@.take(i + 1).last() == c);
        if i > 0 {
            assert(v@.take(i + 1)[i - 1] == v@[i - 1]);
        }
        if is_whitespace(c) {
            if in_word {
                let w = cur;
                let ghost before = views(out@);
                out.push(w);
                assert(views(out@) =~= before.push(w@));
                cur = String::new();
            }
            in_word = false;
        } else {
            if in_word {
                let ghost before = views(out@);
                cur.push(c);
                assert(before.push(cur@) =~= words(pre).update(words(pre).len() - 1, words(pre).last().push(c)));
            } else {
                cur = String::new();
                cur.push(c);
                assert(cur@ =~= seq![c]);
            }
            in_word = true;
        }
        i = i + 1;
    }
    assert(v@.take(v@.len() as int) =~= v@);
    if in_word {
        let ghost before = views(out@);
        out.push(cur);
        assert(views(out@) =~= before.push(out@.last()@));
    }
    out
}

/// Position of the first character of `s` that is in `set` (`str::find` with a set of chars).
pub fn find_any_str(s: &str, set: &Vec<char>) -> (r: Option<usize>)
    ensures
        match find_any(s@, set@) {
            Some(i) => r == Some(i as usize),
            None => r is None,
        },
{
    let v = chars_of(s);
    let mut i: usize = 0;
    while i < v.len()
        invariant
            0 <= i <= v.len(),
            v@ == s@,
            forall|j: int| 0 <= j < i ==> !set@.contains(#[trigger] v@[j]),
        decreases v.len() - i,
    {
        let c = v[i];
        let mut k: usize = 0;
        let mut found = false;
        while k < set.len()
            invariant
                0 <= k <= set.len(),
                found == (exists|m: int| 0 <= m < k && set@[m] == c),
            decreases set.len() - k,
        {
            if set[k] == c {
                found = true;
            }
            k = k + 1;
        }
        if found {
            proof {
                lemma_find_any_is(v@, set@, i as int);
            }
            return Some(i);
        }
        i = i + 1;
    }
    proof {
        lemma_find_any_some(v@, set@);
        if let Some(k) = find_any(v@, set@) {
            assert(!set@.contains(v@[k]));
        }
    }
    None
}

/// The pieces joined with `sep` between consecutive pieces (`[String]::join`).
pub open spec fn join(parts: Seq<Seq<char>>, sep: Seq<char>) -> Seq<char>
    decreases parts.len(),
{
    if parts.len() == 0 {
        Seq::empty()
    } else if parts.len() == 1 {
        parts[0]
    } else {
        join(parts.drop_last(), sep) + sep + parts.last()
    }
}

/// `[String]::join`.
pub fn join_str(parts: &Vec<String>, sep: &str) -> (r: String)
    ensures
        r@ == join(views(parts@), sep@),
{
    let mut r = String::new();
    let mut i: usize = 0;
    assert(views(parts@).take(0) =~= Seq::<Seq<char>>::empty());
    while i < parts.len()
        invariant
            0 <= i <= parts.len(),
            r@ == join(views(parts@).take(i as int), sep@),
        decreases parts.len() - i,
    {
        let ghost t = views(parts@).take(i + 1);
        assert(t.drop_last() =~= views(parts@).take(i as int));
        assert(t.last() == parts@[i as int]@);
        if i > 0 {
            r.append(sep);
        } else {
            assert(t =~= seq![parts@[0]@]);
        }
        r.append(parts[i].as_str());
        i = i + 1;
    }
    assert(views(parts@).take(parts@.len() as int) =~= views(parts@));
    r
}

// ---------------------------------------------------------------------------
// Decimal rendering of integers
// ---------------------------------------------------------------------------

pub open spec fn digit_char(d: nat) -> char {
    if d == 0 { '0' }
    else if d == 1 { '1' }
    else if d == 2 { '2' }
    else if d == 3 { '3' }
    else if d == 4 { '4' }
    else if d == 5 { '5' }
    else if d == 6 { '6' }
    else if d == 7 { '7' }
    else if d == 8 { '8' }
    else { '9' }
}

/// Decimal digits of `n`, most significant first, with no leading zeros.
pub open spec fn decimal(n: nat) -> Seq<char>
    decreases n,
{
    if n < 10 {
        seq![digit_char(n)]
    } else {
        decimal(n / 10).push(digit_char(n % 10))
    }
}

/// Decimal rendering of an integer, with a leading `-` when negative
/// (what `to_string` gives for Rust's integer types).
pub open spec fn int_decimal(i: int) -> Seq<char> {
    if i < 0 {
        seq!['-'] + decimal((-i) as nat)
    } else {
        decimal(i as nat)
    }
}

fn digit(d: u64) -> (c: char)
    requires
        d < 10,
    ensures
        c == digit_char(d as nat),
{
    if d == 0 { '0' }
    else if d == 1 { '1' }
    else if d == 2 { '2' }
    else if d == 3 { '3' }
    else if d == 4 { '4' }
    else if d == 5 { '5' }
    else if d == 6 { '6' }
    else if d == 7 { '7' }
    else if d == 8 { '8' }
    else { '9' }
}

/// `u64::to_string`.
pub fn u64_to_string(n: u64) -> (s: String)
    ensures
        s@ == decimal(n as nat),
    decreases n,
{
    if n < 10 {
        let mut s = String::new();
        s.push(digit(n));
        assert(s@ =~= seq![digit_char(n as nat)]);
        s
    } else {
        let mut s = u64_to_string(n / 10);
        s.push(digit(n % 10));
        s
    }
}

/// `i64::to_string`.
pub fn i64_to_string(i: i64) -> (s: String)
    ensures
        s@ == int_decimal(i as int),
{
    if i < 0 {
        let mag: u64 = if i == i64::MIN {
            9223372036854775808u64
        } else {
            (-i) as u64
        };
        let digits = u64_to_string(mag);
        proof {
            reveal_strlit("-");
        }
        assert("-"@ =~= seq!['-']);
        concat("-", digits.as_str())
    } else {
        u64_to_string(i as u64)
    }
}

// ---------------------------------------------------------------------------
// Unicode lowercase
// ---------------------------------------------------------------------------

/// What `str::to_lowercase` returns for a string with these characters.
pub uninterp spec fn lowercase(s: Seq<char>) -> Seq<char>;

/// `str::to_lowercase`: the Unicode lowercase mapping of `s`.
/// Nothing beyond "the result is the lowercase mapping of `s`" is claimed.
#[verifier::external_body]
pub fn to_lowercase(s: &str) -> (r: String)
    ensures
        r@ == lowercase(s@),
{
    s.to_lowercase()
}

} // verus!
