//! Lenient decoding of standard-alphabet base64: characters outside the
//! alphabet (line breaks, `=` padding, ...) are skipped, and every group of
//! up to four alphabet characters yields up to three bytes.
use vstd::prelude::*;

use crate::text::chars_of;

verus! {

/// The 6-bit value of a base64 alphabet character.
pub open spec fn sextet_of(c: char) -> Option<u8> {
    if 'A' <= c && c <= 'Z' {
        Some((c as int - 'A' as int) as u8)
    } else if 'a' <= c && c <= 'z' {
        Some((c as int - 'a' as int + 26) as u8)
    } else if '0' <= c && c <= '9' {
        Some((c as int - '0' as int + 52) as u8)
    } else if c == '+' {
        Some(62u8)
    } else if c == '/' {
        Some(63u8)
    } else {
        None
    }
}

/// The values of the alphabet characters of `s`, in order.
pub open spec fn sextets(s: Seq<char>) -> Seq<u8>
    decreases s.len(),
{
    if s.len() == 0 {
        Seq::empty()
    } else {
        sextets(s.drop_last()) + match sextet_of(s.last()) {
            Some(v) => seq![v],
            None => Seq::empty(),
        }
    }
}

/// The value at `i`, or 0 past the end of the group.
pub open spec fn at_or_zero(g: Seq<u8>, i: int) -> u8 {
    if i < g.len() {
        g[i]
    } else {
        0
    }
}

pub open spec fn first_byte(g: Seq<u8>) -> u8 {
    ((at_or_zero(g, 0) << 2u8) as u8) | (at_or_zero(g, 1) >> 4u8)
}

pub open spec fn second_byte(g: Seq<u8>) -> u8 {
    ((at_or_zero(g, 1) << 4u8) as u8) | (at_or_zero(g, 2) >> 2u8)
}

pub open spec fn third_byte(g: Seq<u8>) -> u8 {
    ((at_or_zero(g, 2) << 6u8) as u8) | at_or_zero(g, 3)
}

/// The bytes of one group of one to four sextets: one byte for one or two
/// sextets, two for three, three for four.
pub open spec fn decode_group(g: Seq<u8>) -> Seq<u8> {
    if g.len() <= 2 {
        seq![first_byte(g)]
    } else if g.len() == 3 {
        seq![first_byte(g), second_byte(g)]
    } else {
        seq![first_byte(g), second_byte(g), third_byte(g)]
    }
}

/// The bytes of a sequence of sextets, four at a time.
pub open spec fn decode_sextets(v: Seq<u8>) -> Seq<u8>
    decreases v.len(),
{
    if v.len() == 0 {
        Seq::empty()
    } else if v.len() <= 4 {
        decode_group(v)
    } else {
        decode_group(v.take(4)) + decode_sextets(v.skip(4))
    }
}

/// What decoding the text `s` yields.
pub open spec fn base64_decoded(s: Seq<char>) -> Seq<u8> {
    decode_sextets(sextets(s))
}

fn sextet(c: char) -> (r: Option<u8>)
    ensures
        r == sextet_of(c),
{
    if 'A' <= c && c <= 'Z' {
        Some((c as u32 - 'A' as u32) as u8)
    } else if 'a' <= c && c <= 'z' {
        Some((c as u32 - 'a' as u32 + 26) as u8)
    } else if '0' <= c && c <= '9' {
        Some((c as u32 - '0' as u32 + 52) as u8)
    } else if c == '+' {
        Some(62)
    } else if c == '/' {
        Some(63)
    } else {
        None
    }
}

fn group_bytes(g: &Vec<u8>, out: &mut Vec<u8>)
    requires
        1 <= g@.len() <= 4,
    ensures
        final(out)@ == old(out)@ + decode_group(g@),
{
    let b0 = g[0];
    let b1 = if g.len() > 1 { g[1] } else { 0 };
    let b2 = if g.len() > 2 { g[2] } else { 0 };
    let b3 = if g.len() > 3 { g[3] } else { 0 };
    assert(b0 == at_or_zero(g@, 0) && b1 == at_or_zero(g@, 1) && b2 == at_or_zero(g@, 2) && b3
        == at_or_zero(g@, 3));
    out.push((b0 << 2) | (b1 >> 4));
    if g.len() > 2 {
        out.push((b1 << 4) | (b2 >> 2));
    }
    if g.len() > 3 {
        out.push((b2 << 6) | b3);
    }
    assert(final(out)@ =~= old(out)@ + decode_group(g@));
}

/// Decodes the base64 alphabet characters of `input`, skipping everything else.
pub fn base64_decode(input: &str) -> (r: Vec<u8>)
    ensures
        r@ == base64_decoded(input@),
{
    let chars = chars_of(input);
    let mut vals: Vec<u8> = Vec::new();
    let mut i: usize = 0;
    assert(chars@.take(0) =~= Seq::<char>::empty());
    while i < chars.len()
        invariant
            0 <= i <= chars.len(),
            vals@ == sextets(chars@.take(i as int)),
        decreases chars.len() - i,
    {
        assert(chars@.take(i + 1).drop_last() =~= chars@.take(i as int));
        match sextet(chars[i]) {
            Some(v) => {
                vals.push(v);
            },
            None => {},
        }
        assert(vals@ =~= sextets(chars@.take(i + 1)));
        i = i + 1;
    }
    assert(chars@.take(chars@.len() as int) =~= chars@);
    let mut out: Vec<u8> = Vec::new();
    let mut k: usize = 0;
    assert(vals@.skip(0) =~= vals@);
    while k < vals.len()
        invariant
            0 <= k <= vals.len(),
            out@ + decode_sextets(vals@.skip(k as int)) == decode_sextets(vals@),
        decreases vals.len() - k,
    {
        let ghost rest = vals@.skip(k as int);
        let end = if vals.len() - k > 4 { k + 4 } else { vals.len() };
        let mut g: Vec<u8> = Vec::new();
        let mut j = k;
        while j < end
            invariant
                k <= j <= end <= vals.len(),
                g@ == vals@.subrange(k as int, j as int),
            decreases end - j,
        {
            g.push(vals[j]);
            assert(g@ =~= vals@.subrange(k as int, j + 1));
            j = j + 1;
        }
        if vals.len() - k > 4 {
            assert(g@ =~= rest.take(4));
            assert(rest.skip(4) =~= vals@.skip(k + 4));
        } else {
            assert(g@ =~= rest);
            assert(vals@.skip(end as int) =~= Seq::<u8>::empty());
        }
        let ghost before = out@;
        group_bytes(&g, &mut out);
        assert(out@ + decode_sextets(vals@.skip(end as int)) =~= before + decode_sextets(rest));
        k = end;
    }
    assert(vals@.skip(vals@.len() as int) =~= Seq::<u8>::empty());
    assert(out@ =~= out@ + decode_sextets(Seq::<u8>::empty()));
    out
}


// ---------------------------------------------------------------------------
// Standard encodings decode back
// ---------------------------------------------------------------------------

/// The sextets the standard encoding writes for a group of one to three
/// bytes (two, three or four sextets; the `=` padding is no sextet).
pub open spec fn encode_group(b: Seq<u8>) -> Seq<u8> {
    let a = b[0];
    let x = at_or_zero(b, 1);
    let y = at_or_zero(b, 2);
    let s0 = a >> 2u8;
    let s1 = (((a & 3u8) << 4u8) as u8) | (x >> 4u8);
    let s2 = (((x & 15u8) << 2u8) as u8) | (y >> 6u8);
    let s3 = y & 63u8;
    if b.len() == 1 {
        seq![s0, s1]
    } else if b.len() == 2 {
        seq![s0, s1, s2]
    } else {
        seq![s0, s1, s2, s3]
    }
}

/// The sextets of the standard base64 encoding of `b`, three bytes at a time.
pub open spec fn encode_bytes(b: Seq<u8>) -> Seq<u8>
    decreases b.len(),
{
    if b.len() == 0 {
        Seq::empty()
    } else if b.len() <= 3 {
        encode_group(b)
    } else {
        encode_group(b.take(3)) + encode_bytes(b.skip(3))
    }
}

proof fn lemma_group_round_trip(b: Seq<u8>)
    requires
        1 <= b.len() <= 3,
    ensures
        decode_group(encode_group(b)) == b,
{
    let a = b[0];
    let x = at_or_zero(b, 1);
    let y = at_or_zero(b, 2);
    let s0 = a >> 2u8;
    let s1 = (((a & 3u8) << 4u8) as u8) | (x >> 4u8);
    let s2 = (((x & 15u8) << 2u8) as u8) | (y >> 6u8);
    let s3 = y & 63u8;
    assert((((s0 << 2u8) as u8) | (s1 >> 4u8)) == a) by (bit_vector)
        requires
            s0 == a >> 2u8,
            s1 == (((a & 3u8) << 4u8) as u8) | (x >> 4u8),
    ;
    assert((((s1 << 4u8) as u8) | (s2 >> 2u8)) == x) by (bit_vector)
        requires
            s1 == (((a & 3u8) << 4u8) as u8) | (x >> 4u8),
            s2 == (((x & 15u8) << 2u8) as u8) | (y >> 6u8),
    ;
    assert((((s2 << 6u8) as u8) | s3) == y) by (bit_vector)
        requires
            s2 == (((x & 15u8) << 2u8) as u8) | (y >> 6u8),
            s3 == y & 63u8,
    ;
    assert(decode_group(encode_group(b)) =~= b);
}

proof fn lemma_encode_len(b: Seq<u8>)
    ensures
        b.len() > 0 ==> encode_bytes(b).len() >= 2,
    decreases b.len(),
{
    if b.len() > 3 {
        lemma_encode_len(b.skip(3));
    }
}

/// Decoding the sextets of a standard encoding gives back the bytes.
pub proof fn law_encoding_decodes_back(b: Seq<u8>)
    ensures
        decode_sextets(encode_bytes(b)) == b,
    decreases b.len(),
{
    if b.len() == 0 {
    } else if b.len() <= 3 {
        lemma_group_round_trip(b);
    } else {
        law_encoding_decodes_back(b.skip(3));
        lemma_group_round_trip(b.take(3));
        lemma_encode_len(b.skip(3));
        let e = encode_group(b.take(3));
        let r = encode_bytes(b.skip(3));
        assert(e.len() == 4);
        assert((e + r).take(4) =~= e);
        assert((e + r).skip(4) =~= r);
        assert(b.take(3) + b.skip(3) =~= b);
    }
}

/// A character outside the alphabet (a line break, `=` padding, ...) added
/// anywhere in a text changes none of its sextets.
pub proof fn law_non_alphabet_is_skipped(s: Seq<char>, i: int, c: char)
    requires
        0 <= i <= s.len(),
        sextet_of(c) is None,
    ensures
        sextets(s.insert(i, c)) == sextets(s),
    decreases s.len(),
{
    if i == s.len() {
        assert(s.insert(i, c).drop_last() =~= s);
    } else {
        law_non_alphabet_is_skipped(s.drop_last(), i, c);
        assert(s.insert(i, c).drop_last() =~= s.drop_last().insert(i, c));
        assert(s.insert(i, c).last() == s.last());
    }
}

/// A text whose alphabet characters carry the sextets of the standard
/// encoding of `b` (whatever else stands between them: line breaks,
/// padding) decodes to `b`.
pub proof fn law_standard_text_decodes_back(s: Seq<char>, b: Seq<u8>)
    requires
        sextets(s) == encode_bytes(b),
    ensures
        base64_decoded(s) == b,
{
    law_encoding_decodes_back(b);
}


/// The standard alphabet, by character code: `A`-`Z` are 0-25, `a`-`z`
/// 26-51, `0`-`9` 52-61, `+` 62 and `/` 63; every other character (line
/// breaks, `=` padding, `-`, `_`) carries no sextet.
pub proof fn law_standard_alphabet(c: char)
    ensures
        65 <= (c as u32) <= 90 ==> sextet_of(c) == Some(((c as u32) - 65) as u8),
        97 <= (c as u32) <= 122 ==> sextet_of(c) == Some(((c as u32) - 71) as u8),
        48 <= (c as u32) <= 57 ==> sextet_of(c) == Some(((c as u32) + 4) as u8),
        (c as u32) == 43 ==> sextet_of(c) == Some(62u8),
        (c as u32) == 47 ==> sextet_of(c) == Some(63u8),
        !(65 <= (c as u32) <= 90 || 97 <= (c as u32) <= 122 || 48 <= (c as u32) <= 57 || (c as u32) == 43 || (c as u32)
            == 47) ==> sextet_of(c) is None,
{
}

} // verus!
