//! Laws of the call options that span several calls of the builders'
//! methods.
use vstd::prelude::*;
use crate::call_options::{effective_scopes, param_set, scope_added, scopes_added, scopes_cleared, OptionsView};
use crate::param_map::{as_map, has_key, key_index, lemma_upsert, unique_keys, upsert};
use crate::scope::{scope_url, Scope};
use crate::scope_set::{lemma_sorted_unique, same_members, strictly_sorted};

verus! {

/// The scopes of a call form a set: adding two scopes in either order gives
/// the same options.
pub proof fn scopes_added_in_any_order(
    o: OptionsView,
    a: Seq<char>,
    b: Seq<char>,
    p: OptionsView,
    q: OptionsView,
    p2: OptionsView,
    q2: OptionsView,
)
    requires
        scope_added(o, p, a),
        scope_added(p, q, b),
        scope_added(o, p2, b),
        scope_added(p2, q2, a),
    ensures
        q == q2,
{
    assert(same_members(q.scopes, q2.scopes));
    lemma_sorted_unique(q.scopes, q2.scopes);
}

/// Adding a scope that a call holds already changes nothing.
pub proof fn scope_added_twice(o: OptionsView, a: Seq<char>, p: OptionsView, q: OptionsView)
    requires
        scope_added(o, p, a),
        scope_added(p, q, a),
    ensures
        q == p,
{
    assert(same_members(q.scopes, p.scopes));
    lemma_sorted_unique(q.scopes, p.scopes);
}

/// A call asks for its default scope exactly when no scope was added and
/// the scopes were not cleared; otherwise it asks for the scopes added.
pub proof fn default_scope_law(o: OptionsView, d: Scope)
    ensures
        o.scopes.len() == 0 && !o.cleared ==> effective_scopes(o, d) == seq![scope_url(d)],
        o.scopes.len() > 0 || o.cleared ==> effective_scopes(o, d) == o.scopes,
{
}

/// After the scopes are cleared a call asks for no scope at all, and after
/// a scope is then added it asks for that scope alone.
pub proof fn cleared_scopes_law(o: OptionsView, p: OptionsView, s: Seq<char>, q: OptionsView, d: Scope)
    requires
        scopes_cleared(o, p),
        scope_added(p, q, s),
    ensures
        effective_scopes(p, d) == Seq::<Seq<char>>::empty(),
        effective_scopes(q, d) == seq![s],
{
    assert(same_members(q.scopes, seq![s])) by {
        assert forall|e: Seq<char>| q.scopes.contains(e) <==> seq![s].contains(e) by {
            if e == s {
                assert(seq![s][0] == e);
            }
        }
    }
    lemma_sorted_unique(q.scopes, seq![s]);
}

/// Additional parameters act as a map: setting a name twice keeps the last
/// value alone, as if it had been set once. The premise holds of every
/// call's options (`options_wf` in the builders' contracts).
pub proof fn param_last_value_wins(
    o: OptionsView,
    k: Seq<char>,
    v1: Seq<char>,
    v2: Seq<char>,
    p: OptionsView,
    q: OptionsView,
    p2: OptionsView,
)
    requires
        unique_keys(o.params),
        param_set(o, p, k, v1),
        param_set(p, q, k, v2),
        param_set(o, p2, k, v2),
    ensures
        q == p2,
        as_map(q.params) == as_map(o.params).insert(k, v2),
{
    let s = o.params;
    let s1 = upsert(s, k, v1);
    lemma_upsert(s, k, v1);
    lemma_upsert(s1, k, v2);
    assert(has_key(s1, k)) by {
        if has_key(s, k) {
            assert(s1[key_index(s, k)].0 == k);
        } else {
            assert(s1[s.len() as int].0 == k);
        }
    }
    let i1 = key_index(s1, k);
    if has_key(s, k) {
        let i = key_index(s, k);
        assert(s1[i].0 == k);
        assert(i1 == i) by {
            if i1 != i {
                assert(s1[i1].0 != s1[i].0);
            }
        }
        assert(upsert(s1, k, v2) =~= upsert(s, k, v2));
    } else {
        assert(s1[s.len() as int].0 == k);
        assert(i1 == s.len()) by {
            if i1 != s.len() {
                assert(s1[i1].0 != s1[s.len() as int].0);
            }
        }
        assert(upsert(s1, k, v2) =~= upsert(s, k, v2));
    }
    assert(as_map(upsert(s, k, v2)) == as_map(s).insert(k, v2)) by {
        lemma_upsert(s, k, v2);
    }
}

/// Setting a parameter to the value it was just set to changes nothing.
pub proof fn param_set_twice_is_once(o: OptionsView, k: Seq<char>, v: Seq<char>, p: OptionsView, q: OptionsView)
    requires
        unique_keys(o.params),
        param_set(o, p, k, v),
        param_set(p, q, k, v),
    ensures
        q == p,
        as_map(p.params) == as_map(o.params).insert(k, v),
{
    param_last_value_wins(o, k, v, v, p, q, p);
}

/// Setting two different names in either order gives the same map of
/// parameters, and leaves the scopes as they were.
pub proof fn params_on_distinct_names_commute(
    o: OptionsView,
    k1: Seq<char>,
    v1: Seq<char>,
    k2: Seq<char>,
    v2: Seq<char>,
    p: OptionsView,
    q: OptionsView,
    p2: OptionsView,
    q2: OptionsView,
)
    requires
        unique_keys(o.params),
        k1 != k2,
        param_set(o, p, k1, v1),
        param_set(p, q, k2, v2),
        param_set(o, p2, k2, v2),
        param_set(p2, q2, k1, v1),
    ensures
        as_map(q.params) == as_map(o.params).insert(k1, v1).insert(k2, v2),
        as_map(q2.params) == as_map(q.params),
        q.scopes == q2.scopes && q.scopes == o.scopes,
        q.cleared == q2.cleared && q.cleared == o.cleared,
{
    lemma_upsert(o.params, k1, v1);
    lemma_upsert(p.params, k2, v2);
    lemma_upsert(o.params, k2, v2);
    lemma_upsert(p2.params, k1, v1);
    assert(as_map(o.params).insert(k1, v1).insert(k2, v2) =~= as_map(o.params).insert(k2, v2).insert(
        k1,
        v1,
    ));
}

/// Adding no scopes leaves a call's options as they were.
pub proof fn adding_no_scopes_changes_nothing(o: OptionsView, p: OptionsView)
    requires
        strictly_sorted(o.scopes),
        scopes_added(o, p, Seq::<Seq<char>>::empty()),
    ensures
        p == o,
{
    assert(same_members(p.scopes, o.scopes)) by {
        assert forall|e: Seq<char>| p.scopes.contains(e) <==> o.scopes.contains(e) by {
            assert(!Seq::<Seq<char>>::empty().contains(e));
        }
    }
    lemma_sorted_unique(p.scopes, o.scopes);
}

} // verus!
