//! The additional query parameters of a call: a map from names to values
//! where a name occurs at most once and setting a name again replaces its value.
use vstd::prelude::*;

verus! {

/// A name and a value, as character sequences.
pub type Pair = (Seq<char>, Seq<char>);

/// The view of a list of owned name/value pairs.
pub open spec fn pairs_view(v: Seq<(String, String)>) -> Seq<Pair> {
    v.map_values(|p: (String, String)| (p.0@, p.1@))
}

/// Some entry of `s` has the name `k`.
pub open spec fn has_key(s: Seq<Pair>, k: Seq<char>) -> bool {
    exists|i: int| 0 <= i < s.len() && (#[trigger] s[i]).0 == k
}

/// No name occurs twice in `s`.
pub open spec fn unique_keys(s: Seq<Pair>) -> bool {
    forall|i: int, j: int| 0 <= i < j < s.len() ==> (#[trigger] s[i]).0 != (#[trigger] s[j]).0
}

/// The position of the entry named `k`.
pub open spec fn key_index(s: Seq<Pair>, k: Seq<char>) -> int {
    choose|i: int| 0 <= i < s.len() && (#[trigger] s[i]).0 == k
}

/// `s` with the value of `k` set to `v`: the entry named `k` keeps its place
/// and takes the new value, or, where there is none, a new entry goes last.
pub open spec fn upsert(s: Seq<Pair>, k: Seq<char>, v: Seq<char>) -> Seq<Pair> {
    if has_key(s, k) {
        s.update(key_index(s, k), (k, v))
    } else {
        s.push((k, v))
    }
}

/// The entries as a map from names to values.
pub open spec fn as_map(s: Seq<Pair>) -> Map<Seq<char>, Seq<char>> {
    Map::new(|k: Seq<char>| has_key(s, k), |k: Seq<char>| s[key_index(s, k)].1)
}

/// Setting a name keeps the names unique and acts on the map view as an insertion.
pub proof fn lemma_upsert(s: Seq<Pair>, k: Seq<char>, v: Seq<char>)
    requires
        unique_keys(s),
    ensures
        unique_keys(upsert(s, k, v)),
        as_map(upsert(s, k, v)) == as_map(s).insert(k, v),
{
    let u = upsert(s, k, v);
    if has_key(s, k) {
        let i = key_index(s, k);
        assert forall|a: int, b: int| 0 <= a < b < u.len() implies (#[trigger] u[a]).0 != (
        #[trigger] u[b]).0 by {
            assert(s[a].0 != s[b].0);
        }
        assert forall|q: Seq<char>| has_key(u, q) <==> has_key(s, q) || q == k by {
            if has_key(s, q) {
                let j = choose|j: int| 0 <= j < s.len() && (#[trigger] s[j]).0 == q;
                assert(u[j].0 == q);
            }
            if has_key(u, q) {
                let j = choose|j: int| 0 <= j < u.len() && (#[trigger] u[j]).0 == q;
                assert(s[j].0 == q);
            }
        }
        assert forall|q: Seq<char>| has_key(u, q) implies u[key_index(u, q)].1 == (
        if q == k {
            v
        } else {
            s[key_index(s, q)].1
        }) by {
            let ju = key_index(u, q);
            if q == k {
                assert(ju == i);
            } else {
                let js = key_index(s, q);
                assert(u[js].0 == q);
                assert(ju == js);
            }
        }
    } else {
        assert forall|a: int, b: int| 0 <= a < b < u.len() implies (#[trigger] u[a]).0 != (
        #[trigger] u[b]).0 by {
            if b < s.len() {
                assert(s[a].0 != s[b].0);
            } else {
                assert(s[a].0 != k);
            }
        }
        assert forall|q: Seq<char>| has_key(u, q) <==> has_key(s, q) || q == k by {
            if has_key(s, q) {
                let j = choose|j: int| 0 <= j < s.len() && (#[trigger] s[j]).0 == q;
                assert(u[j].0 == q);
            }
            if q == k {
                assert(u[s.len() as int].0 == q);
            }
        }
        assert forall|q: Seq<char>| has_key(u, q) implies u[key_index(u, q)].1 == (
        if q == k {
            v
        } else {
            s[key_index(s, q)].1
        }) by {
            let ju = key_index(u, q);
            if q == k {
                assert(ju == s.len());
            } else {
                let js = key_index(s, q);
                assert(u[js].0 == q);
                assert(ju == js);
            }
        }
    }
    assert(as_map(u) =~= as_map(s).insert(k, v));
}

/// Additional query parameters of a call.
pub struct ParamMap {
    entries: Vec<(String, String)>,
}

impl View for ParamMap {
    type V = Seq<Pair>;

    closed spec fn view(&self) -> Seq<Pair> {
        pairs_view(self.entries@)
    }
}

impl ParamMap {
    /// No name occurs twice; every map keeps this.
    #[verifier::type_invariant]
    pub open spec fn keys_unique(self) -> bool {
        unique_keys(self@)
    }

    /// An empty map.
    pub fn new() -> (r: Self)
        ensures
            r@ == Seq::<Pair>::empty(),
    {
        let r = ParamMap { entries: Vec::new() };
        assert(r@ =~= Seq::<Pair>::empty());
        r
    }

    /// The number of entries.
    pub fn len(&self) -> (n: usize)
        ensures
            n == self@.len(),
    {
        self.entries.len()
    }

    /// Whether an entry is named `name`.
    pub fn contains_key(&self, name: &str) -> (b: bool)
        ensures
            b == has_key(self@, name@),
    {
        let n = self.entries.len();
        let mut i: usize = 0;
        while i < n
            invariant
                n == self.entries@.len(),
                i <= n,
                forall|j: int| 0 <= j < i ==> (#[trigger] self@[j]).0 != name@,
            decreases n - i,
        {
            let k = self.entries[i].0.as_str();
            if crate::text::compare_str(k, name) == 0 {
                proof {
                    crate::text::lemma_lex_compare_equal(
                        vstd::utf8::encode_utf8(k@),
                        vstd::utf8::encode_utf8(name@),
                    );
                    crate::text::lemma_encode_utf8_injective(k@, name@);
                    assert(self@[i as int].0 == name@);
                }
                return true;
            }
            proof {
                crate::text::lemma_lex_compare_equal(
                    vstd::utf8::encode_utf8(k@),
                    vstd::utf8::encode_utf8(name@),
                );
            }
            i = i + 1;
        }
        false
    }

    /// The entries, in their order.
    pub fn to_vec(&self) -> (v: Vec<(String, String)>)
        ensures
            pairs_view(v@) == self@,
            unique_keys(self@),
    {
        proof {
            use_type_invariant(self);
        }
        let mut v: Vec<(String, String)> = Vec::new();
        let n = self.entries.len();
        for i in 0..n
            invariant
                n == self.entries@.len(),
                pairs_view(v@) =~= self@.take(i as int),
        {
            let k = self.entries[i].0.clone();
            let x = self.entries[i].1.clone();
            let ghost prev = v@;
            v.push((k, x));
            assert(v@ =~= prev.push((k, x)));
            assert(k@ == self.entries@[i as int].0@);
            assert(x@ == self.entries@[i as int].1@);
            assert(self@[i as int] == (self.entries@[i as int].0@, self.entries@[i as int].1@));
            assert(pairs_view(v@) =~= pairs_view(prev).push((k@, x@)));
            assert(pairs_view(v@) =~= self@.take(i + 1));
        }
        assert(self@.take(n as int) =~= self@);
        v
    }

    /// Sets the value of `name` to `value`.
    pub fn insert(&mut self, name: &str, value: &str)
        ensures
            final(self)@ == upsert(old(self)@, name@, value@),
            unique_keys(old(self)@),
            unique_keys(final(self)@),
    {
        proof {
            use_type_invariant(&*self);
        }
        let ghost old_view = self@;
        let n = self.entries.len();
        let mut i: usize = 0;
        while i < n
            invariant
                n == self.entries@.len(),
                old_view == self@,
                i <= n,
                forall|j: int| 0 <= j < i ==> (#[trigger] old_view[j]).0 != name@,
            ensures
                i <= n,
                forall|j: int| 0 <= j < i ==> (#[trigger] old_view[j]).0 != name@,
                i < n ==> old_view[i as int].0 == name@,
            decreases n - i,
        {
            let k = self.entries[i].0.as_str();
            let c = crate::text::compare_str(k, name);
            proof {
                crate::text::lemma_lex_compare_equal(
                    vstd::utf8::encode_utf8(k@),
                    vstd::utf8::encode_utf8(name@),
                );
                crate::text::lemma_encode_utf8_injective(k@, name@);
            }
            if c == 0 {
                break;
            }
            i = i + 1;
        }
        proof {
            lemma_upsert(old_view, name@, value@);
        }
        let mut entries: Vec<(String, String)> = Vec::new();
        std::mem::swap(&mut entries, &mut self.entries);
        if i < n {
            assert(has_key(old_view, name@));
            assert(key_index(old_view, name@) == i) by {
                let ki = key_index(old_view, name@);
                if ki != i {
                    if ki < i {
                    } else {
                        assert(old_view[i as int].0 != old_view[ki].0);
                    }
                }
            }
            entries.set(i, (name.to_owned(), value.to_owned()));
        } else {
            assert(!has_key(old_view, name@));
            entries.push((name.to_owned(), value.to_owned()));
        }
        assert(pairs_view(entries@) =~= upsert(old_view, name@, value@));
        self.entries = entries;
    }
}

} // verus!
