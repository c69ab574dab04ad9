//! The parameter list of a request and the URL built from it: the
//! substitution of path parameters into the URL template and the URL with
//! its query string.
use vstd::prelude::*;
use vstd::utf8::{encode_scalar, encode_utf8};
use crate::param_map::{pairs_view, Pair};

verus! {

/// `s` with every non-overlapping occurrence of `from`, scanned from the
/// left, replaced by `to` (the behaviour of `str::replace` for a non-empty
/// pattern).
pub open spec fn replace_all(s: Seq<char>, from: Seq<char>, to: Seq<char>) -> Seq<char>
    decreases s.len(),
{
    if from.len() == 0 || s.len() < from.len() {
        s
    } else if s.subrange(0, from.len() as int) == from {
        to + replace_all(s.skip(from.len() as int), from, to)
    } else {
        seq![s[0]] + replace_all(s.skip(1), from, to)
    }
}

/// The value of the first entry named `k`.
pub open spec fn first_value(s: Seq<Pair>, k: Seq<char>) -> Option<Seq<char>>
    decreases s.len(),
{
    if s.len() == 0 {
        None
    } else if s[0].0 == k {
        Some(s[0].1)
    } else {
        first_value(s.drop_first(), k)
    }
}

/// The entries of `s` whose names are not among `names`, in their order.
pub open spec fn without_names(s: Seq<Pair>, names: Seq<Seq<char>>) -> Seq<Pair>
    decreases s.len(),
{
    if s.len() == 0 {
        s
    } else if names.contains(s.last().0) {
        without_names(s.drop_last(), names)
    } else {
        without_names(s.drop_last(), names).push(s.last())
    }
}

/// A byte that percent-encoding for a URL path leaves as it is: printable
/// ASCII other than space, `"`, `#`, `<`, `>`, `` ` ``, `?`, `{` and `}`.
pub open spec fn path_byte_kept(b: u8) -> bool {
    &&& 0x20 < b < 0x7F
    &&& b != 0x22
    &&& b != 0x23
    &&& b != 0x3C
    &&& b != 0x3E
    &&& b != 0x60
    &&& b != 0x3F
    &&& b != 0x7B
    &&& b != 0x7D
}

/// The upper-case hexadecimal digit of `n`, for `n < 16`.
pub open spec fn hex_upper(n: int) -> char {
    seq!['0', '1', '2', '3', '4', '5', '6', '7', '8', '9', 'A', 'B', 'C', 'D', 'E', 'F'][n]
}

/// Percent-encoding of bytes for a URL path: kept bytes stand for
/// themselves, every other byte becomes `%` and two upper-case hex digits.
pub open spec fn percent_encode_path(b: Seq<u8>) -> Seq<char>
    decreases b.len(),
{
    if b.len() == 0 {
        Seq::empty()
    } else {
        (if path_byte_kept(b[0]) {
            seq![b[0] as char]
        } else {
            seq!['%', hex_upper(b[0] as int / 16), hex_upper(b[0] as int % 16)]
        }) + percent_encode_path(b.drop_first())
    }
}

/// What replaces the placeholder `from` in the URL template: the value of
/// the first parameter named `param`, percent-encoded when the template asks
/// for it (`url_encode` and a placeholder of the form `{+name}`).
pub open spec fn substitution(params: Seq<Pair>, param: Seq<char>, from: Seq<char>, url_encode: bool) -> Seq<char> {
    let v = match first_value(params, param) {
        Some(x) => x,
        None => Seq::empty(),
    };
    if url_encode && from[1] == '+' {
        percent_encode_path(encode_utf8(v))
    } else {
        v
    }
}

/// The text of the URL that `url::Url::parse_with_params` makes of `url`
/// with `params` appended, in order, as its query.
pub uninterp spec fn url_with_query(url: Seq<char>, params: Seq<Pair>) -> Seq<char>;

/// Whether `url::Url::parse` accepts `url`.
pub uninterp spec fn url_parses(url: Seq<char>) -> bool;

/// Substitutes a path parameter into the URL template
/// (`google_apis_common::url::Params::uri_replacement`).
/// Claims what that function's source does: the value of the first
/// parameter named `param` (or the empty text where `url_encode` is set and
/// there is none) is percent-encoded where `url_encode` is set and `from` has
/// `+` as its second character, and then replaces each occurrence of `from`.
/// Without `url_encode` it panics where no parameter is named `param`.
#[verifier::external_body]
pub(crate) fn uri_replacement(
    params: &Vec<(String, String)>,
    url: String,
    param: &str,
    from: &str,
    url_encode: bool,
) -> (res: String)
    requires
        from@.len() >= 2,
        from@[0] == '{',
        !url_encode ==> first_value(pairs_view(params@), param@) is Some,
    ensures
        res@ == replace_all(url@, from@, substitution(pairs_view(params@), param@, from@, url_encode)),
{
    let mut p = google_apis_common::url::Params::with_capacity(params.len());
    p.extend(params.iter().map(|(k, v)| (k, v)));
    p.uri_replacement(url, param, from, url_encode)
}

/// Appends the parameters as the query of `url`
/// (`google_apis_common::url::Params::parse_with_url`, which calls
/// `url::Url::parse_with_params` and unwraps its result). The text of the
/// resulting URL is named, not stated; it panics where `url` does not parse.
#[verifier::external_body]
pub(crate) fn parse_with_url(params: &Vec<(String, String)>, url: &str) -> (res: String)
    requires
        url_parses(url@),
    ensures
        res@ == url_with_query(url@, pairs_view(params@)),
{
    let mut p = google_apis_common::url::Params::with_capacity(params.len());
    p.extend(params.iter().map(|(k, v)| (k, v)));
    String::from(p.parse_with_url(url))
}

/// Whether `url` parses as a URL (`url::Url::parse`). `parse_with_url`
/// fails on exactly these inputs, as its parameters only extend the query
/// of a URL that parsed.
#[verifier::external_body]
pub(crate) fn check_url(url: &str) -> (ok: bool)
    ensures
        ok == url_parses(url@),
{
    url::Url::parse(url).is_ok()
}

/// Appends a parameter.
pub fn push_param(params: &mut Vec<(String, String)>, name: &str, value: &str)
    ensures
        pairs_view(final(params)@) == pairs_view(old(params)@).push((name@, value@)),
{
    params.push((name.to_owned(), value.to_owned()));
    assert(pairs_view(params@) =~= pairs_view(old(params)@).push((name@, value@)));
}

/// The parameters whose names are not among `to_remove`, in their order
/// (the effect of `Params::remove_params`).
pub fn remove_params(params: Vec<(String, String)>, to_remove: &Vec<&str>) -> (res: Vec<(String, String)>)
    ensures
        pairs_view(res@) == without_names(
            pairs_view(params@),
            to_remove@.map_values(|s: &str| s@),
        ),
{
    let ghost names = to_remove@.map_values(|s: &str| s@);
    let ghost all = pairs_view(params@);
    let mut res: Vec<(String, String)> = Vec::new();
    let n = params.len();
    let mut params = params;
    let mut i: usize = 0;
    while i < n
        invariant
            n == all.len(),
            params@.len() == n,
            all == pairs_view(params@),
            names == to_remove@.map_values(|s: &str| s@),
            i <= n,
            pairs_view(res@) == without_names(all.take(i as int), names),
        decreases n - i,
    {
        let name = params[i].0.as_str();
        let mut found = false;
        let m = to_remove.len();
        let mut j: usize = 0;
        while j < m
            invariant
                m == to_remove@.len(),
                names == to_remove@.map_values(|s: &str| s@),
                j <= m,
                found == (exists|k: int| 0 <= k < j && names[k] == name@),
            decreases m - j,
        {
            let c = crate::text::compare_str(to_remove[j], name);
            proof {
                crate::text::lemma_lex_compare_equal(encode_utf8(to_remove@[j as int]@), encode_utf8(name@));
                crate::text::lemma_encode_utf8_injective(to_remove@[j as int]@, name@);
            }
            assert(names[j as int] == to_remove@[j as int]@);
            let ghost before = found;
            if c == 0 {
                found = true;
            }
            proof {
                if found {
                    if before {
                        let k = choose|k: int| 0 <= k < j && names[k] == name@;
                        assert(0 <= k < j + 1 && names[k] == name@);
                    } else {
                        assert(names[j as int] == name@);
                    }
                } else {
                    assert forall|k: int| 0 <= k < j + 1 implies names[k] != name@ by {
                        if k < j {
                        }
                    }
                }
            }
            j = j + 1;
        }
        proof {
            assert(all.take(i + 1).drop_last() =~= all.take(i as int));
            assert(all.take(i + 1).last() == all[i as int]);
            if found {
                let k = choose|k: int| 0 <= k < m && names[k] == name@;
                assert(names.contains(all[i as int].0));
            } else {
                assert(!names.contains(all[i as int].0));
            }
        }
        if !found {
            let k = params[i].0.clone();
            let v = params[i].1.clone();
            let ghost prev = res@;
            res.push((k, v));
            assert(pairs_view(res@) =~= pairs_view(prev).push(all[i as int]));
        }
        i = i + 1;
    }
    assert(all.take(n as int) =~= all);
    res
}

} // verus!

verus! {

/// `s` has no opening brace, so no `{...}` placeholder starts in it.
pub open spec fn brace_free(s: Seq<char>) -> bool {
    !s.contains('{')
}

/// Joining brace-free texts gives brace-free text.
pub proof fn lemma_brace_free_concat(a: Seq<char>, b: Seq<char>)
    requires
        brace_free(a),
        brace_free(b),
    ensures
        brace_free(a + b),
{
    if (a + b).contains('{') {
        let k = choose|k: int| 0 <= k < (a + b).len() && (a + b)[k] == '{';
        if k < a.len() {
            assert(a[k] == '{');
            assert(a.contains('{'));
        } else {
            assert(b[k - a.len()] == '{');
            assert(b.contains('{'));
        }
    }
}

/// A placeholder cannot match inside brace-free text.
pub proof fn lemma_replace_brace_free(s: Seq<char>, from: Seq<char>, to: Seq<char>)
    requires
        from.len() > 0,
        from[0] == '{',
        brace_free(s),
    ensures
        replace_all(s, from, to) == s,
    decreases s.len(),
{
    if s.len() >= from.len() {
        assert(s.subrange(0, from.len() as int)[0] == s[0]);
        assert(s[0] != '{') by {
            assert(!s.contains('{'));
            if s[0] == '{' {
                assert(s.contains(s[0]));
            }
        }
        let t = s.skip(1);
        assert(brace_free(t)) by {
            if t.contains('{') {
                let k = choose|k: int| 0 <= k < t.len() && t[k] == '{';
                assert(s[k + 1] == '{');
                assert(s.contains('{'));
            }
        }
        lemma_replace_brace_free(t, from, to);
        assert(s =~= seq![s[0]] + t);
    }
}

/// Replacement passes over a brace-free prefix unchanged.
pub proof fn lemma_replace_after_brace_free(a: Seq<char>, b: Seq<char>, from: Seq<char>, to: Seq<char>)
    requires
        from.len() > 0,
        from[0] == '{',
        brace_free(a),
    ensures
        replace_all(a + b, from, to) == a + replace_all(b, from, to),
    decreases a.len(),
{
    if a.len() == 0 {
        assert(a + b =~= b);
        assert(a + replace_all(b, from, to) =~= replace_all(b, from, to));
    } else {
        let s = a + b;
        let t = a.skip(1);
        assert(a[0] != '{') by {
            if a[0] == '{' {
                assert(a.contains(a[0]));
            }
        }
        assert(brace_free(t)) by {
            if t.contains('{') {
                let k = choose|k: int| 0 <= k < t.len() && t[k] == '{';
                assert(a[k + 1] == '{');
                assert(a.contains('{'));
            }
        }
        lemma_replace_after_brace_free(t, b, from, to);
        assert(s.skip(1) =~= t + b);
        if s.len() >= from.len() {
            assert(s.subrange(0, from.len() as int)[0] == a[0]);
            assert(s.subrange(0, from.len() as int) != from);
            assert(a + replace_all(b, from, to) =~= seq![a[0]] + (t + replace_all(b, from, to)));
        } else {
            lemma_replace_short(b, from, to);
            lemma_replace_short(s, from, to);
        }
    }
}

/// Text shorter than the pattern is left as it is.
pub proof fn lemma_replace_short(s: Seq<char>, from: Seq<char>, to: Seq<char>)
    requires
        s.len() < from.len(),
    ensures
        replace_all(s, from, to) == s,
{
}

/// A placeholder at the start is replaced.
pub proof fn lemma_replace_at_start(b: Seq<char>, from: Seq<char>, to: Seq<char>)
    requires
        from.len() > 0,
    ensures
        replace_all(from + b, from, to) == to + replace_all(b, from, to),
{
    let s = from + b;
    assert(s.subrange(0, from.len() as int) =~= from);
    assert(s.skip(from.len() as int) =~= b);
}

/// The result of percent-encoding for a path holds no opening brace.
pub proof fn lemma_percent_encode_path_brace_free(b: Seq<u8>)
    ensures
        brace_free(percent_encode_path(b)),
    decreases b.len(),
{
    if b.len() > 0 {
        lemma_percent_encode_path_brace_free(b.drop_first());
        let head = if path_byte_kept(b[0]) {
            seq![b[0] as char]
        } else {
            seq!['%', hex_upper(b[0] as int / 16), hex_upper(b[0] as int % 16)]
        };
        let hexes = seq!['0', '1', '2', '3', '4', '5', '6', '7', '8', '9', 'A', 'B', 'C', 'D', 'E', 'F'];
        assert(forall|k: int| 0 <= k < 16 ==> hexes[k] != '{');
        assert(brace_free(head)) by {
            if head.contains('{') {
                let k = choose|k: int| 0 <= k < head.len() && head[k] == '{';
                if path_byte_kept(b[0]) {
                    assert(b[0] != 0x7B);
                }
            }
        }
        let rest = percent_encode_path(b.drop_first());
        assert(brace_free(head + rest)) by {
            if (head + rest).contains('{') {
                let k = choose|k: int| 0 <= k < (head + rest).len() && (head + rest)[k] == '{';
                if k < head.len() {
                    assert(head.contains('{'));
                } else {
                    assert(rest[k - head.len()] == '{');
                    assert(rest.contains('{'));
                }
            }
        }
    }
}

/// Removing names distributes over concatenation.
pub proof fn lemma_without_names_concat(a: Seq<Pair>, b: Seq<Pair>, names: Seq<Seq<char>>)
    ensures
        without_names(a + b, names) == without_names(a, names) + without_names(b, names),
    decreases b.len(),
{
    if b.len() == 0 {
        assert(a + b =~= a);
        assert(without_names(a, names) + without_names(b, names) =~= without_names(a, names));
    } else {
        let s = a + b;
        assert(s.drop_last() =~= a + b.drop_last());
        assert(s.last() == b.last());
        lemma_without_names_concat(a, b.drop_last(), names);
        if !names.contains(b.last().0) {
            assert(without_names(a, names) + without_names(b, names) =~= (without_names(a, names)
                + without_names(b.drop_last(), names)).push(b.last()));
        }
    }
}

/// Entries with none of the names stay.
pub proof fn lemma_without_names_keeps(b: Seq<Pair>, names: Seq<Seq<char>>)
    requires
        forall|i: int| 0 <= i < b.len() ==> !names.contains(#[trigger] b[i].0),
    ensures
        without_names(b, names) == b,
    decreases b.len(),
{
    if b.len() > 0 {
        lemma_without_names_keeps(b.drop_last(), names);
        assert(b.drop_last().push(b.last()) =~= b);
    }
}

/// Entries that all carry one of the names go.
pub proof fn lemma_without_names_drops(b: Seq<Pair>, names: Seq<Seq<char>>)
    requires
        forall|i: int| 0 <= i < b.len() ==> names.contains(#[trigger] b[i].0),
    ensures
        without_names(b, names) == Seq::<Pair>::empty(),
    decreases b.len(),
{
    if b.len() > 0 {
        assert(names.contains(b[b.len() - 1].0));
        lemma_without_names_drops(b.drop_last(), names);
    }
}

/// The first entry with a name gives its value.
pub proof fn lemma_first_value_head(k: Seq<char>, v: Seq<char>, rest: Seq<Pair>)
    ensures
        first_value(seq![(k, v)] + rest, k) == Some(v),
{
}

/// An entry with another name is passed over.
pub proof fn lemma_first_value_skip(p: Pair, rest: Seq<Pair>, k: Seq<char>)
    requires
        p.0 != k,
    ensures
        first_value(seq![p] + rest, k) == first_value(rest, k),
{
    assert((seq![p] + rest).drop_first() =~= rest);
}

/// A character that percent-encoding for a URL path keeps as it is.
pub open spec fn path_char_kept(c: char) -> bool {
    &&& 0x20 < (c as u32) < 0x7F
    &&& c != '"'
    &&& c != '#'
    &&& c != '<'
    &&& c != '>'
    &&& c != '`'
    &&& c != '?'
    &&& c != '{'
    &&& c != '}'
}

/// Every character of `s` is kept by percent-encoding for a URL path.
pub open spec fn path_plain(s: Seq<char>) -> bool {
    forall|i: int| 0 <= i < s.len() ==> path_char_kept(#[trigger] s[i])
}

/// Percent-encoding for a path leaves plain text as it is.
pub proof fn lemma_percent_encode_plain(s: Seq<char>)
    requires
        path_plain(s),
    ensures
        percent_encode_path(encode_utf8(s)) == s,
    decreases s.len(),
{
    if s.len() > 0 {
        let c = s[0];
        assert(path_char_kept(s[0]));
        let x = c as u32;
        assert(x < 0x80);
        assert((x & 0x7F) as u8 == x as u8 && (x as u8) as u32 == x) by (bit_vector)
            requires
                x < 0x80,
        ;
        let b = x as u8;
        assert(encode_scalar(x) == seq![b]);
        let t = s.drop_first();
        assert(path_plain(t)) by {
            assert forall|i: int| 0 <= i < t.len() implies path_char_kept(#[trigger] t[i]) by {
                assert(t[i] == s[i + 1]);
            }
        }
        lemma_percent_encode_plain(t);
        let e = encode_utf8(s);
        assert(e == seq![b] + encode_utf8(t));
        assert(e.drop_first() =~= encode_utf8(t));
        assert(e[0] == b);
        vstd::utf8::char_u32_cast(c, x);
        assert((b as char) == c) by {
            assert(b as u32 == x);
        }
        assert(path_byte_kept(b)) by {
            assert('"' as u32 == 0x22);
            assert('#' as u32 == 0x23);
            assert('<' as u32 == 0x3C);
            assert('>' as u32 == 0x3E);
            assert('`' as u32 == 0x60);
            assert('?' as u32 == 0x3F);
            assert('{' as u32 == 0x7B);
            assert('}' as u32 == 0x7D);
        }
        assert(s =~= seq![c] + t);
    }
}

} // verus!
