//! The set of OAuth scopes a call asks a token for. It keeps its members
//! sorted in the order of `String` and free of duplicates, as an ordered set
//! of strings does, so the scopes reach the token provider in that order.
use vstd::prelude::*;
use vstd::utf8::*;
use crate::text::{compare_str, lemma_lex_compare_equal, lemma_lex_compare_range, lemma_encode_utf8_injective, lemma_str_lt_total, lemma_str_lt_transitive, str_lt};

verus! {

/// Every member sorts strictly before every later member.
pub open spec fn strictly_sorted(s: Seq<Seq<char>>) -> bool {
    forall|i: int, j: int| 0 <= i < j < s.len() ==> str_lt(#[trigger] s[i], #[trigger] s[j])
}

/// `a` and `b` hold the same members.
pub open spec fn same_members(a: Seq<Seq<char>>, b: Seq<Seq<char>>) -> bool {
    forall|e: Seq<char>| a.contains(e) <==> b.contains(e)
}

/// An ordered set of scope strings.
pub struct ScopeSet {
    items: Vec<String>,
}

impl View for ScopeSet {
    type V = Seq<Seq<char>>;

    closed spec fn view(&self) -> Seq<Seq<char>> {
        self.items@.map_values(|s: String| s@)
    }
}

/// Two strictly sorted sequences with the same members are equal: an ordered
/// set is determined by its members.
pub proof fn lemma_sorted_unique(a: Seq<Seq<char>>, b: Seq<Seq<char>>)
    requires
        strictly_sorted(a),
        strictly_sorted(b),
        same_members(a, b),
    ensures
        a == b,
    decreases a.len(),
{
    if a.len() == 0 {
        if b.len() > 0 {
            assert(b.contains(b[0]));
        }
        assert(a =~= b);
    } else {
        assert(a.contains(a[0]));
        assert(b.len() > 0);
        assert(b.contains(b[0]));
        let ia = choose|i: int| 0 <= i < a.len() && a[i] == b[0];
        let ib = choose|i: int| 0 <= i < b.len() && b[i] == a[0];
        lemma_str_lt_total(a[0], b[0]);
        if a[0] != b[0] {
            if str_lt(a[0], b[0]) {
                // a[0] occurs in b at ib > 0, so b[0] < a[0]
                assert(ib > 0);
                assert(str_lt(b[0], b[ib]));
            } else {
                assert(ia > 0);
                assert(str_lt(a[0], a[ia]));
            }
        }
        assert(a[0] == b[0]);
        let ta = a.drop_first();
        let tb = b.drop_first();
        assert forall|i: int, j: int| 0 <= i < j < ta.len() implies str_lt(ta[i], ta[j]) by {
            assert(str_lt(a[i + 1], a[j + 1]));
        }
        assert forall|i: int, j: int| 0 <= i < j < tb.len() implies str_lt(tb[i], tb[j]) by {
            assert(str_lt(b[i + 1], b[j + 1]));
        }
        assert forall|e: Seq<char>| ta.contains(e) <==> tb.contains(e) by {
            if ta.contains(e) {
                let k = choose|k: int| 0 <= k < ta.len() && ta[k] == e;
                assert(str_lt(a[0], a[k + 1]));
                lemma_str_lt_total(e, e);
                assert(a.contains(e));
                assert(b.contains(e));
                let m = choose|m: int| 0 <= m < b.len() && b[m] == e;
                assert(m != 0);
                assert(tb[m - 1] == e);
            }
            if tb.contains(e) {
                let k = choose|k: int| 0 <= k < tb.len() && tb[k] == e;
                assert(str_lt(b[0], b[k + 1]));
                lemma_str_lt_total(e, e);
                assert(b.contains(e));
                assert(a.contains(e));
                let m = choose|m: int| 0 <= m < a.len() && a[m] == e;
                assert(m != 0);
                assert(ta[m - 1] == e);
            }
        }
        lemma_sorted_unique(ta, tb);
        assert(a =~= seq![a[0]] + ta);
        assert(b =~= seq![b[0]] + tb);
    }
}

impl ScopeSet {
    /// The members are strictly ascending; every set keeps this.
    #[verifier::type_invariant]
    pub open spec fn sorted(self) -> bool {
        strictly_sorted(self@)
    }

    /// An empty set.
    pub fn new() -> (r: Self)
        ensures
            r@ == Seq::<Seq<char>>::empty(),
    {
        let r = ScopeSet { items: Vec::new() };
        assert(r@ =~= Seq::<Seq<char>>::empty());
        r
    }

    /// The number of members; the members are always strictly ascending.
    pub fn len(&self) -> (n: usize)
        ensures
            n == self@.len(),
            strictly_sorted(self@),
    {
        proof {
            use_type_invariant(self);
        }
        self.items.len()
    }

    /// Whether the set has no members.
    pub fn is_empty(&self) -> (b: bool)
        ensures
            b == (self@.len() == 0),
    {
        self.items.len() == 0
    }

    /// The members, in their order, which is strictly ascending.
    pub fn to_vec(&self) -> (v: Vec<String>)
        ensures
            v@.map_values(|s: String| s@) == self@,
            strictly_sorted(self@),
    {
        proof {
            use_type_invariant(self);
        }
        self.items.clone()
    }

    /// Adds `s` to the set; nothing changes if it is a member already.
    pub fn insert(&mut self, s: &str)
        ensures
            strictly_sorted(final(self)@),
            strictly_sorted(old(self)@),
            forall|e: Seq<char>| final(self)@.contains(e) <==> (old(self)@.contains(e) || e == s@),
    {
        proof {
            use_type_invariant(&*self);
        }
        let ghost old_view = self@;
        let n = self.items.len();
        let mut i: usize = 0;
        while i < n
            invariant
                n == self.items@.len(),
                old_view == self@,
                strictly_sorted(old_view),
                i <= n,
                forall|k: int| 0 <= k < i ==> str_lt(#[trigger] old_view[k], s@),
            ensures
                i <= n,
                forall|k: int| 0 <= k < i ==> str_lt(#[trigger] old_view[k], s@),
                i < n ==> !str_lt(old_view[i as int], s@),
            decreases n - i,
        {
            let c = compare_str(self.items[i].as_str(), s);
            proof {
                lemma_lex_compare_range(
                    encode_utf8(self.items@[i as int]@),
                    encode_utf8(s@),
                );
            }
            if c >= 0 {
                break;
            }
            i = i + 1;
        }
        let mut c: i8 = 1;
        if i < n {
            c = compare_str(self.items[i].as_str(), s);
        }
        proof {
            if i < n {
                lemma_lex_compare_range(encode_utf8(old_view[i as int]), encode_utf8(s@));
                lemma_lex_compare_equal(encode_utf8(old_view[i as int]), encode_utf8(s@));
                lemma_encode_utf8_injective(old_view[i as int], s@);
                lemma_str_lt_total(old_view[i as int], s@);
            }
        }
        if c == 0 {
            assert(old_view[i as int] == s@);
            assert(old_view.contains(s@));
            return;
        }
        assert(i < n ==> str_lt(s@, old_view[i as int]));
        let owned = s.to_owned();
        let mut items: Vec<String> = Vec::new();
        std::mem::swap(&mut items, &mut self.items);
        items.insert(i, owned);
        let ghost nv = old_view.insert(i as int, s@);
        assert(items@.map_values(|t: String| t@) =~= nv);
        proof {
            assert forall|a: int, b: int| 0 <= a < b < nv.len() implies str_lt(
                #[trigger] nv[a],
                #[trigger] nv[b],
            ) by {
                if b < i {
                } else if a < i && b == i {
                } else if a < i && b > i {
                    assert(str_lt(old_view[a], s@));
                    assert(str_lt(s@, old_view[i as int]));
                    if b - 1 > i {
                        lemma_str_lt_transitive(s@, old_view[i as int], old_view[b - 1]);
                    }
                    lemma_str_lt_transitive(old_view[a], s@, old_view[b - 1]);
                } else if a == i {
                    assert(str_lt(s@, old_view[i as int]));
                    if b - 1 > i {
                        lemma_str_lt_transitive(s@, old_view[i as int], old_view[b - 1]);
                    }
                } else {
                    assert(str_lt(old_view[a - 1], old_view[b - 1]));
                }
            }
            assert forall|e: Seq<char>| nv.contains(e) <==> (old_view.contains(e) || e == s@) by {
                if nv.contains(e) {
                    let k = choose|k: int| 0 <= k < nv.len() && nv[k] == e;
                    if k < i {
                        assert(old_view[k] == e);
                    } else if k > i {
                        assert(old_view[k - 1] == e);
                    }
                }
                if old_view.contains(e) {
                    let k = choose|k: int| 0 <= k < old_view.len() && old_view[k] == e;
                    if k < i {
                        assert(nv[k] == e);
                    } else {
                        assert(nv[k + 1] == e);
                    }
                }
                if e == s@ {
                    assert(nv[i as int] == e);
                }
            }
        }
        self.items = items;
    }

    /// Removes every member.
    pub fn clear(&mut self)
        ensures
            final(self)@ == Seq::<Seq<char>>::empty(),
    {
        self.items = Vec::new();
        assert(self@ =~= Seq::<Seq<char>>::empty());
    }
}

} // verus!
