//! Facts about text that the rest of the library states its contracts in:
//! the byte order in which `String`s are sorted, and pattern replacement.
use vstd::prelude::*;
use vstd::utf8::*;

verus! {

/// Lexicographic comparison of two byte sequences: negative, zero or positive
/// as `a` sorts before, equal to, or after `b`. This is the order of `[u8]`
/// and therefore of `str` and `String`.
pub open spec fn lex_compare(a: Seq<u8>, b: Seq<u8>) -> int
    decreases a.len(),
{
    if a.len() == 0 {
        if b.len() == 0 {
            0
        } else {
            -1
        }
    } else if b.len() == 0 {
        1
    } else if a[0] < b[0] {
        -1
    } else if a[0] > b[0] {
        1
    } else {
        lex_compare(a.drop_first(), b.drop_first())
    }
}

/// `a` sorts strictly before `b` as a Rust `String`.
pub open spec fn str_lt(a: Seq<char>, b: Seq<char>) -> bool {
    lex_compare(encode_utf8(a), encode_utf8(b)) < 0
}

pub proof fn lemma_lex_compare_range(a: Seq<u8>, b: Seq<u8>)
    ensures
        -1 <= lex_compare(a, b) <= 1,
    decreases a.len(),
{
    if a.len() > 0 && b.len() > 0 && a[0] == b[0] {
        lemma_lex_compare_range(a.drop_first(), b.drop_first());
    }
}

pub proof fn lemma_lex_compare_equal(a: Seq<u8>, b: Seq<u8>)
    ensures
        (lex_compare(a, b) == 0) <==> (a == b),
    decreases a.len(),
{
    if a.len() > 0 && b.len() > 0 {
        lemma_lex_compare_equal(a.drop_first(), b.drop_first());
        if a[0] == b[0] && a.drop_first() == b.drop_first() {
            assert(a =~= seq![a[0]] + a.drop_first());
            assert(b =~= seq![b[0]] + b.drop_first());
        }
        if a == b {
            assert(a.drop_first() =~= b.drop_first());
        }
    } else if a.len() == 0 && b.len() == 0 {
        assert(a =~= b);
    }
}

pub proof fn lemma_lex_compare_antisymmetric(a: Seq<u8>, b: Seq<u8>)
    ensures
        lex_compare(a, b) == -lex_compare(b, a),
    decreases a.len(),
{
    if a.len() > 0 && b.len() > 0 && a[0] == b[0] {
        lemma_lex_compare_antisymmetric(a.drop_first(), b.drop_first());
    }
}

pub proof fn lemma_lex_compare_transitive(a: Seq<u8>, b: Seq<u8>, c: Seq<u8>)
    requires
        lex_compare(a, b) < 0,
        lex_compare(b, c) < 0,
    ensures
        lex_compare(a, c) < 0,
    decreases a.len(),
{
    if a.len() > 0 && b.len() > 0 && c.len() > 0 && a[0] == b[0] && b[0] == c[0] {
        lemma_lex_compare_transitive(a.drop_first(), b.drop_first(), c.drop_first());
    }
}

/// Distinct character sequences have distinct UTF-8 encodings.
pub proof fn lemma_encode_utf8_injective(a: Seq<char>, b: Seq<char>)
    ensures
        (encode_utf8(a) == encode_utf8(b)) <==> (a == b),
{
    encode_utf8_decode_utf8(a);
    encode_utf8_decode_utf8(b);
}

/// `str_lt` is a strict total order on character sequences.
pub proof fn lemma_str_lt_total(a: Seq<char>, b: Seq<char>)
    ensures
        a == b || str_lt(a, b) || str_lt(b, a),
        !(str_lt(a, b) && str_lt(b, a)),
        !str_lt(a, a),
{
    lemma_lex_compare_equal(encode_utf8(a), encode_utf8(b));
    lemma_lex_compare_equal(encode_utf8(a), encode_utf8(a));
    lemma_lex_compare_antisymmetric(encode_utf8(a), encode_utf8(b));
    lemma_encode_utf8_injective(a, b);
}

pub proof fn lemma_str_lt_transitive(a: Seq<char>, b: Seq<char>, c: Seq<char>)
    requires
        str_lt(a, b),
        str_lt(b, c),
    ensures
        str_lt(a, c),
{
    lemma_lex_compare_transitive(encode_utf8(a), encode_utf8(b), encode_utf8(c));
}

/// Compares two byte slices in lexicographic order.
pub fn compare_bytes(a: &[u8], b: &[u8]) -> (r: i8)
    ensures
        r as int == lex_compare(a@, b@),
{
    let n = if a.len() < b.len() {
        a.len()
    } else {
        b.len()
    };
    let mut i: usize = 0;
    assert(a@.skip(0) =~= a@);
    assert(b@.skip(0) =~= b@);
    while i < n
        invariant
            n <= a@.len(),
            n <= b@.len(),
            n == a@.len() || n == b@.len(),
            i <= n,
            lex_compare(a@, b@) == lex_compare(a@.skip(i as int), b@.skip(i as int)),
        decreases n - i,
    {
        if a[i] < b[i] {
            return -1;
        }
        if a[i] > b[i] {
            return 1;
        }
        assert(a@.skip(i as int).drop_first() =~= a@.skip(i + 1));
        assert(b@.skip(i as int).drop_first() =~= b@.skip(i + 1));
        i = i + 1;
    }
    if a.len() < b.len() {
        -1
    } else if a.len() > b.len() {
        1
    } else {
        0
    }
}

/// Compares two strings in the order of `String`.
pub fn compare_str(a: &str, b: &str) -> (r: i8)
    ensures
        r as int == lex_compare(encode_utf8(a@), encode_utf8(b@)),
{
    compare_bytes(a.as_bytes(), b.as_bytes())
}

} // verus!
