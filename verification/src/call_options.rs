//! What every call builder holds besides its own fields: the additional
//! query parameters and the OAuth scopes.
use vstd::prelude::*;
use crate::param_map::{has_key, unique_keys, upsert, Pair, ParamMap};
use crate::scope::{scope_url, Scope};
use crate::scope_set::{strictly_sorted, ScopeSet};

verus! {

/// The state of a call's options.
pub struct OptionsView {
    /// The additional query parameters, names unique.
    pub params: Seq<Pair>,
    /// The scopes added, strictly ascending.
    pub scopes: Seq<Seq<char>>,
    /// The scopes were cleared on purpose, so no default scope applies.
    pub cleared: bool,
}

/// The name of the first reserved parameter (in the order of `reserved`)
/// that occurs among `params`.
pub open spec fn first_clash(params: Seq<Pair>, reserved: Seq<Seq<char>>) -> Option<Seq<char>>
    decreases reserved.len(),
{
    if reserved.len() == 0 {
        None
    } else if has_key(params, reserved[0]) {
        Some(reserved[0])
    } else {
        first_clash(params, reserved.drop_first())
    }
}

/// No reserved name occurs among `params` exactly when there is no clash.
pub proof fn lemma_first_clash_none(params: Seq<Pair>, reserved: Seq<Seq<char>>)
    ensures
        (first_clash(params, reserved) is None) <==> (forall|i: int|
            0 <= i < reserved.len() ==> !has_key(params, #[trigger] reserved[i])),
    decreases reserved.len(),
{
    if reserved.len() > 0 {
        lemma_first_clash_none(params, reserved.drop_first());
        if first_clash(params, reserved) is None {
            assert forall|i: int| 0 <= i < reserved.len() implies !has_key(
                params,
                #[trigger] reserved[i],
            ) by {
                if i > 0 {
                    assert(reserved.drop_first()[i - 1] == reserved[i]);
                }
            }
        } else if !has_key(params, reserved[0]) {
            let k = choose|k: int|
                0 <= k < reserved.len() - 1 && has_key(params, #[trigger] reserved.drop_first()[k]);
            assert(has_key(params, reserved[k + 1]));
        }
    }
}

/// The scopes a token is asked for: those added, or, where none were added
/// and they were not cleared, the call's default scope.
pub open spec fn effective_scopes(o: OptionsView, default: Scope) -> Seq<Seq<char>> {
    if o.scopes.len() == 0 && !o.cleared {
        seq![scope_url(default)]
    } else {
        o.scopes
    }
}

/// The additional parameters have unique names and the scopes are
/// strictly ascending, as every call's options are.
pub open spec fn options_wf(o: OptionsView) -> bool {
    &&& unique_keys(o.params)
    &&& strictly_sorted(o.scopes)
}

/// `new` is `old` with the scope `s` added.
pub open spec fn scope_added(old: OptionsView, new: OptionsView, s: Seq<char>) -> bool {
    &&& new.params == old.params
    &&& new.cleared == old.cleared
    &&& strictly_sorted(new.scopes)
    &&& forall|e: Seq<char>| new.scopes.contains(e) <==> (old.scopes.contains(e) || e == s)
}

/// `new` is `old` with each of the scopes `names` added.
pub open spec fn scopes_added(old: OptionsView, new: OptionsView, names: Seq<Seq<char>>) -> bool {
    &&& new.params == old.params
    &&& new.cleared == old.cleared
    &&& strictly_sorted(new.scopes)
    &&& forall|e: Seq<char>| new.scopes.contains(e) <==> (old.scopes.contains(e) || names.contains(e))
}

/// `new` is `old` with the parameter `name` set to `value`.
pub open spec fn param_set(old: OptionsView, new: OptionsView, name: Seq<char>, value: Seq<char>) -> bool {
    new == (OptionsView { params: upsert(old.params, name, value), ..old })
}

/// `new` is `old` with its scopes cleared.
pub open spec fn scopes_cleared(old: OptionsView, new: OptionsView) -> bool {
    new == (OptionsView { params: old.params, scopes: Seq::empty(), cleared: true })
}

/// The additional parameters and scopes of a call.
pub struct CallOptions {
    params: ParamMap,
    scopes: ScopeSet,
    cleared: bool,
}

impl View for CallOptions {
    type V = OptionsView;

    closed spec fn view(&self) -> OptionsView {
        OptionsView { params: self.params@, scopes: self.scopes@, cleared: self.cleared }
    }
}

impl CallOptions {
    /// No parameters, no scopes.
    pub fn new() -> (r: Self)
        ensures
            r@ == (OptionsView {
                params: Seq::empty(),
                scopes: Seq::empty(),
                cleared: false,
            }),
            options_wf(r@),
    {
        CallOptions { params: ParamMap::new(), scopes: ScopeSet::new(), cleared: false }
    }

    /// Sets an additional query parameter, replacing an earlier value of the same name.
    pub fn param(&mut self, name: &str, value: &str)
        ensures
            final(self)@ == (OptionsView { params: upsert(old(self)@.params, name@, value@), ..old(self)@ }),
            unique_keys(final(self)@.params),
            options_wf(old(self)@),
            options_wf(final(self)@),
    {
        proof {
            use_type_invariant(&self.params);
            use_type_invariant(&self.scopes);
        }
        self.params.insert(name, value);
    }

    /// Adds a scope.
    pub fn add_scope(&mut self, scope: &str)
        ensures
            final(self)@.params == old(self)@.params,
            final(self)@.cleared == old(self)@.cleared,
            strictly_sorted(final(self)@.scopes),
            forall|e: Seq<char>|
                final(self)@.scopes.contains(e) <==> (old(self)@.scopes.contains(e) || e == scope@),
            options_wf(old(self)@),
            options_wf(final(self)@),
    {
        proof {
            use_type_invariant(&self.params);
            use_type_invariant(&self.scopes);
        }
        self.scopes.insert(scope);
    }

    /// Adds each of the given scopes.
    pub fn add_scopes(&mut self, scopes: &[&str])
        ensures
            final(self)@.params == old(self)@.params,
            final(self)@.cleared == old(self)@.cleared,
            strictly_sorted(final(self)@.scopes),
            forall|e: Seq<char>|
                final(self)@.scopes.contains(e) <==> (old(self)@.scopes.contains(e)
                    || scopes@.map_values(|s: &str| s@).contains(e)),
            options_wf(old(self)@),
            options_wf(final(self)@),
    {
        proof {
            use_type_invariant(&self.params);
            use_type_invariant(&self.scopes);
        }
        let ghost names = scopes@.map_values(|s: &str| s@);
        let ghost old_scopes = self@.scopes;
        let n = scopes.len();
        let present = self.scopes.len();
        assert(present == old_scopes.len());
        let mut i: usize = 0;
        assert(names.take(0) =~= Seq::<Seq<char>>::empty());
        while i < n
            invariant
                i <= n,
                n == scopes@.len(),
                names == scopes@.map_values(|s: &str| s@),
                self@.params == old(self)@.params,
                self@.cleared == old(self)@.cleared,
                old_scopes == old(self)@.scopes,
                strictly_sorted(self@.scopes),
                forall|e: Seq<char>|
                    self@.scopes.contains(e) <==> (old_scopes.contains(e) || names.take(
                        i as int,
                    ).contains(e)),
            decreases n - i,
        {
            let ghost before = self@.scopes;
            assert(forall|e: Seq<char>| #[trigger] before.contains(e) <==> (old_scopes.contains(e) || names.take(i as int).contains(e)));
            self.scopes.insert(scopes[i]);
            assert(names[i as int] == scopes@[i as int]@);
            assert(names.take(i + 1) =~= names.take(i as int).push(scopes@[i as int]@));
            assert(forall|e: Seq<char>| self@.scopes.contains(e) <==> (before.contains(e) || e == scopes@[i as int]@));
            assert forall|e: Seq<char>|
                self@.scopes.contains(e) <==> (old_scopes.contains(e) || names.take(
                    i + 1,
                ).contains(e)) by {
                let t1 = names.take(i + 1);
                let t0 = names.take(i as int);
                if t1.contains(e) {
                    let k = choose|k: int| 0 <= k < t1.len() && #[trigger] t1[k] == e;
                    if k < i {
                        assert(t0[k] == e);
                    }
                }
                if t0.contains(e) {
                    let k = choose|k: int| 0 <= k < t0.len() && #[trigger] t0[k] == e;
                    assert(t1[k] == e);
                }
                if e == scopes@[i as int]@ {
                    assert(t1[i as int] == e);
                }
                assert(before.contains(e) <==> (old_scopes.contains(e) || t0.contains(e)));
            }
            i = i + 1;
        }
        assert(names.take(n as int) =~= names);
        assert(names =~= scopes@.map_values(|s: &str| s@));
        assert forall|e: Seq<char>| self@.scopes.contains(e) <==> (old_scopes.contains(e) || names.contains(e)) by {
            assert(names.take(n as int) == names);
        }
    }

    /// Removes every scope; the call then asks for no scope at all, not even its default.
    pub fn clear_scopes(&mut self)
        ensures
            final(self)@ == (OptionsView { params: old(self)@.params, scopes: Seq::empty(), cleared: true }),
            options_wf(old(self)@),
            options_wf(final(self)@),
    {
        proof {
            use_type_invariant(&self.params);
            use_type_invariant(&self.scopes);
        }
        self.scopes.clear();
        self.cleared = true;
    }

    /// The additional parameters, in their order.
    pub fn params_vec(&self) -> (v: Vec<(String, String)>)
        ensures
            crate::param_map::pairs_view(v@) == self@.params,
            unique_keys(self@.params),
    {
        self.params.to_vec()
    }

    /// The scopes a token is asked for.
    pub fn scopes_for(&self, default: Scope) -> (v: Vec<String>)
        ensures
            v@.map_values(|s: String| s@) == effective_scopes(self@, default),
    {
        if self.scopes.is_empty() && !self.cleared {
            let mut v: Vec<String> = Vec::new();
            v.push(default.as_ref().to_owned());
            assert(v@.map_values(|s: String| s@) =~= seq![scope_url(default)]);
            v
        } else {
            self.scopes.to_vec()
        }
    }

    /// The first of the `reserved` names that an additional parameter uses.
    pub fn first_clash(&self, reserved: &Vec<&'static str>) -> (r: Option<&'static str>)
        ensures
            r matches Some(f) ==> first_clash(self@.params, reserved@.map_values(|s: &str| s@))
                == Some(f@),
            r is None ==> first_clash(self@.params, reserved@.map_values(|s: &str| s@)) is None,
    {
        let ghost names = reserved@.map_values(|s: &str| s@);
        let n = reserved.len();
        let mut i: usize = 0;
        assert(names.skip(0) =~= names);
        while i < n
            invariant
                n == reserved@.len(),
                names == reserved@.map_values(|s: &str| s@),
                i <= n,
                first_clash(self@.params, names) == first_clash(self@.params, names.skip(i as int)),
            decreases n - i,
        {
            assert(names.skip(i as int).drop_first() =~= names.skip(i + 1));
            assert(names.skip(i as int)[0] == reserved@[i as int]@);
            if self.params.contains_key(reserved[i]) {
                return Some(reserved[i]);
            }
            i = i + 1;
        }
        assert(names.skip(n as int) =~= Seq::<Seq<char>>::empty());
        None
    }
}

} // verus!
