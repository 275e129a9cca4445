//! Text as the rules see it: ASCII case folding, substrings, and how a sequence
//! of characters lies in the bytes of a string.
use vstd::prelude::*;
use vstd::utf8::*;

verus! {

/// `c` with an ASCII capital letter made small; every other character stays.
pub open spec fn ascii_lower_char(c: char) -> char {
    if 'A' <= c <= 'Z' {
        (c as u32 + 32) as char
    } else {
        c
    }
}

/// `s` with its ASCII capital letters made small.
pub open spec fn ascii_lower(s: Seq<char>) -> Seq<char> {
    Seq::new(s.len(), |i: int| ascii_lower_char(s[i]))
}

/// The two texts differ at most in the case of ASCII letters.
pub open spec fn same_ignoring_case(a: Seq<char>, b: Seq<char>) -> bool {
    ascii_lower(a) == ascii_lower(b)
}

/// `needle` stands somewhere in `haystack`, in one piece.
pub open spec fn occurs_in(needle: Seq<char>, haystack: Seq<char>) -> bool {
    exists|i: int|
        0 <= i <= haystack.len() - needle.len() && #[trigger] haystack.subrange(
            i,
            i + needle.len(),
        ) == needle
}

/// `s` without the run of `c` that it starts with.
pub open spec fn without_leading(s: Seq<char>, c: char) -> Seq<char>
    decreases s.len(),
{
    if s.len() > 0 && s[0] == c {
        without_leading(s.drop_first(), c)
    } else {
        s
    }
}

/// `s` without the run of `c` that it ends with.
pub open spec fn without_trailing(s: Seq<char>, c: char) -> Seq<char>
    decreases s.len(),
{
    if s.len() > 0 && s.last() == c {
        without_trailing(s.drop_last(), c)
    } else {
        s
    }
}

/// `str::eq_ignore_ascii_case` compares two strings after making their ASCII
/// capital letters small.
pub assume_specification[ str::eq_ignore_ascii_case ](s: &str, other: &str) -> (r: bool)
    ensures
        r == same_ignoring_case(s@, other@),
;

/// `str::to_ascii_lowercase` returns the text with its ASCII capital letters made
/// small and everything else unchanged.
pub assume_specification[ str::to_ascii_lowercase ](s: &str) -> (r: String)
    ensures
        r@ == ascii_lower(s@),
;

/// `str::contains` with a string as its pattern: whether the pattern is a
/// substring.
#[verifier::external_body]
pub(crate) fn contains(haystack: &str, needle: &str) -> (r: bool)
    ensures
        r == occurs_in(needle@, haystack@),
{
    haystack.contains(needle)
}

/// `str::trim_start_matches` with one character as its pattern: all of them are
/// removed from the start.
#[verifier::external_body]
pub(crate) fn trim_leading(s: &str, c: char) -> (r: &str)
    ensures
        r@ == without_leading(s@, c),
{
    s.trim_start_matches(c)
}

/// `str::trim_end_matches` with one character as its pattern: all of them are
/// removed from the end.
#[verifier::external_body]
pub(crate) fn trim_trailing(s: &str, c: char) -> (r: &str)
    ensures
        r@ == without_trailing(s@, c),
{
    s.trim_end_matches(c)
}

/// Two joined texts are encoded as their two encodings joined.
pub(crate) proof fn lemma_encode_concat(a: Seq<char>, b: Seq<char>)
    ensures
        encode_utf8(a + b) == encode_utf8(a) + encode_utf8(b),
    decreases a.len(),
{
    if a.len() == 0 {
        assert(a + b =~= b);
    } else {
        lemma_encode_concat(a.drop_first(), b);
        assert((a + b).drop_first() =~= a.drop_first() + b);
        assert((a + b)[0] == a[0]);
    }
    assert(encode_utf8(a + b) =~= encode_utf8(a) + encode_utf8(b));
}

/// Texts that differ at most in the case of ASCII letters take the same number of
/// bytes.
pub(crate) proof fn lemma_same_ignoring_case_len(a: Seq<char>, b: Seq<char>)
    requires
        same_ignoring_case(a, b),
    ensures
        a.len() == b.len(),
        encode_utf8(a).len() == encode_utf8(b).len(),
    decreases a.len(),
{
    assert(ascii_lower(a).len() == ascii_lower(b).len());
    if a.len() != 0 {
        assert(ascii_lower(a)[0] == ascii_lower(b)[0]);
        assert(ascii_lower(a.drop_first()) =~= ascii_lower(a).drop_first());
        assert(ascii_lower(b.drop_first()) =~= ascii_lower(b).drop_first());
        lemma_same_ignoring_case_len(a.drop_first(), b.drop_first());
        char_is_scalar(a[0]);
        char_is_scalar(b[0]);
    }
}

/// A text with a full stop at `dot` in its bytes is what stands before the
/// full stop, the full stop, and what stands after it.
pub(crate) proof fn lemma_split_at_dot(s: Seq<char>, dot: int) -> (parts: (Seq<char>, Seq<char>))
    requires
        0 <= dot < encode_utf8(s).len(),
        encode_utf8(s)[dot] == 0x2e,
    ensures
        s == parts.0 + seq!['.'] + parts.1,
        encode_utf8(parts.0) == encode_utf8(s).subrange(0, dot),
        encode_utf8(parts.1) == encode_utf8(s).subrange(dot + 1, encode_utf8(s).len() as int),
        is_char_boundary(encode_utf8(s), dot + 1),
{
    let bytes = encode_utf8(s);
    let n = bytes.len() as int;
    encode_utf8_valid_utf8(s);
    is_char_boundary_iff_not_is_continuation_byte(bytes, dot);
    valid_utf8_split(bytes, dot);
    let rest = bytes.subrange(dot, n);
    assert(rest[0] == 0x2e);
    assert(valid_utf8(rest));
    assert(pop_first_scalar(rest) =~= bytes.subrange(dot + 1, n));
    let before = decode_utf8(bytes.subrange(0, dot));
    let after = decode_utf8(bytes.subrange(dot + 1, n));
    decode_utf8_encode_utf8(bytes.subrange(0, dot));
    decode_utf8_encode_utf8(bytes.subrange(dot + 1, n));
    lemma_dot_encoding();
    lemma_encode_concat(before, seq!['.']);
    lemma_encode_concat(before + seq!['.'], after);
    assert(bytes =~= encode_utf8(before + seq!['.'] + after));
    encode_utf8_decode_utf8(s);
    encode_utf8_decode_utf8(before + seq!['.'] + after);
    if dot + 1 == n {
        is_char_boundary_start_end_of_seq(bytes);
    } else {
        reveal_with_fuel(valid_utf8, 2);
        assert(valid_first_scalar(bytes.subrange(dot + 1, n)));
        assert(bytes.subrange(dot + 1, n)[0] == bytes[dot + 1]);
        is_char_boundary_iff_not_is_continuation_byte(bytes, dot + 1);
    }
    (before, after)
}

/// A full stop is one byte.
proof fn lemma_dot_encoding()
    ensures
        encode_utf8(seq!['.']) == seq![0x2eu8],
{
    let dot: Seq<char> = seq!['.'];
    reveal_with_fuel(encode_utf8, 2);
    assert(leading_byte_width_1(0x2eu32) == 0x2eu8) by (bit_vector);
    assert(dot.drop_first() =~= seq![]);
    assert(encode_utf8(dot) =~= seq![0x2eu8]);
}

/// The bytes of a text with a full stop in it, and where the full stop lies.
pub(crate) proof fn lemma_join_at_dot(before: Seq<char>, after: Seq<char>)
    ensures
        ({
            let bytes = encode_utf8(before + seq!['.'] + after);
            let dot = encode_utf8(before).len() as int;
            &&& bytes.len() == dot + 1 + encode_utf8(after).len()
            &&& bytes[dot] == 0x2e
            &&& bytes.subrange(dot + 1, bytes.len() as int) == encode_utf8(after)
        }),
{
    lemma_dot_encoding();
    lemma_encode_concat(before, seq!['.']);
    lemma_encode_concat(before + seq!['.'], after);
    let bytes = encode_utf8(before + seq!['.'] + after);
    let dot = encode_utf8(before).len() as int;
    assert(bytes.subrange(dot + 1, bytes.len() as int) =~= encode_utf8(after));
}

/// Texts with the same bytes are the same text.
pub(crate) proof fn lemma_encode_injective(a: Seq<char>, b: Seq<char>)
    requires
        encode_utf8(a) == encode_utf8(b),
    ensures
        a == b,
{
    encode_utf8_decode_utf8(a);
    encode_utf8_decode_utf8(b);
}

} // verus!
