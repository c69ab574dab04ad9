//! What each call of the `presentations` resource sends, stated with fixed
//! values: its method, its body's media type, its default scope, the
//! parameters of its query and the names an additional parameter may not
//! take.
use vstd::prelude::*;
use crate::call_options::first_clash;
use crate::param_map::{has_key, unique_keys, Pair};
use crate::plan::HttpMethod;
use crate::query::url_with_query;
use crate::calls::batch_update::{
    batch_update_plan, batch_update_query, batch_update_reserved, batch_update_url, BatchUpdateView,
};
use crate::calls::create::{create_plan, create_query, create_reserved, create_url, CreateView};
use crate::calls::get::{get_plan, get_query, get_reserved, get_url, GetView};
use crate::calls::page_get::{page_get_plan, page_get_query, page_get_reserved, page_get_url, PageGetView};
use crate::calls::thumbnail::{
    thumbnail_plan, thumbnail_query, thumbnail_reserved, thumbnail_url, ThumbnailView,
};

verus! {

/// The scope a read-only call asks for when no scope was added.
pub open spec fn drive_readonly_url() -> Seq<char> {
    "https://www.googleapis.com/auth/drive.readonly"@
}

/// The scope `create` asks for when no scope was added.
pub open spec fn drive_url() -> Seq<char> {
    "https://www.googleapis.com/auth/drive"@
}

/// The query of a call without parameters of its own: the additional
/// parameters, in their order, then `alt=json`.
pub open spec fn plain_query(params: Seq<Pair>) -> Seq<Pair> {
    params.push(("alt"@, "json"@))
}

/// A query that puts `props` before the additional parameters and `alt`
/// holds no name twice where the additional parameters hold none, none of
/// them is named like a property or `alt`, and the properties have distinct
/// names other than `alt`.
pub proof fn lemma_query_names_unique(props: Seq<Pair>, params: Seq<Pair>)
    requires
        unique_keys(props),
        unique_keys(params),
        !has_key(params, "alt"@),
        forall|i: int| 0 <= i < props.len() ==> !has_key(params, #[trigger] props[i].0),
        forall|i: int| 0 <= i < props.len() ==> #[trigger] props[i].0 != "alt"@,
    ensures
        unique_keys(props + plain_query(params)),
{
    let t = plain_query(params);
    let q = props + t;
    let n = props.len();
    let m = params.len();
    assert forall|i: int, j: int| 0 <= i < j < q.len() implies (#[trigger] q[i]).0 != (
    #[trigger] q[j]).0 by {
        if j < n {
            assert(props[i].0 != props[j].0);
        } else if i < n {
            assert(q[i] == props[i]);
            if j - n < m {
                assert(q[j] == params[j - n]);
                if props[i].0 == params[j - n].0 {
                    assert(has_key(params, props[i].0));
                }
            } else {
                assert(q[j] == ("alt"@, "json"@));
            }
        } else {
            if j - n < m {
                assert(params[i - n].0 != params[j - n].0);
            } else {
                assert(q[i] == params[i - n]);
                if params[i - n].0 == "alt"@ {
                    assert(has_key(params, "alt"@));
                }
            }
        }
    }
}

/// The first clash among `r` is its first name that a parameter uses.
proof fn lemma_first_clash_step(params: Seq<Pair>, r: Seq<Seq<char>>)
    requires
        r.len() > 0,
    ensures
        first_clash(params, r) == (if has_key(params, r[0]) {
            Some(r[0])
        } else {
            first_clash(params, r.drop_first())
        }),
{
}

// ---- presentations.pages.get ----

/// A pages.get call sends GET with no body to the method
/// `slides.presentations.pages.get`, as the hub's user agent, asking for the
/// scopes added or, where none were added and they were not cleared, for
/// the read-only Drive scope.
pub proof fn page_get_request(v: PageGetView)
    ensures
        page_get_plan(v).method_id == "slides.presentations.pages.get"@,
        page_get_plan(v).http_method == HttpMethod::Get,
        page_get_plan(v).content_type is None,
        page_get_plan(v).user_agent == v.hub.user_agent,
        v.options.scopes.len() == 0 && !v.options.cleared ==> page_get_plan(v).scopes == seq![
            drive_readonly_url(),
        ],
        v.options.scopes.len() > 0 || v.options.cleared ==> page_get_plan(v).scopes
            == v.options.scopes,
        page_get_plan(v).url == url_with_query(page_get_url(v), plain_query(v.options.params)),
{
}

/// A pages.get call fails with the first of `alt`, `presentationId` and
/// `pageObjectId` that an additional parameter uses, and only then.
pub proof fn page_get_clash(v: PageGetView)
    ensures
        first_clash(v.options.params, page_get_reserved()) == (if has_key(v.options.params, "alt"@) {
            Some("alt"@)
        } else if has_key(v.options.params, "presentationId"@) {
            Some("presentationId"@)
        } else if has_key(v.options.params, "pageObjectId"@) {
            Some("pageObjectId"@)
        } else {
            None
        }),
{
    let p = v.options.params;
    let r = page_get_reserved();
    assert(r.drop_first() =~= seq!["presentationId"@, "pageObjectId"@]);
    assert(r.drop_first().drop_first() =~= seq!["pageObjectId"@]);
    assert(r.drop_first().drop_first().drop_first() =~= Seq::<Seq<char>>::empty());
    lemma_first_clash_step(p, r);
    lemma_first_clash_step(p, r.drop_first());
    lemma_first_clash_step(p, r.drop_first().drop_first());
}

/// Where a pages.get call makes a request, its query holds no name twice.
pub proof fn page_get_query_names_unique(v: PageGetView)
    requires
        unique_keys(v.options.params),
        first_clash(v.options.params, page_get_reserved()) is None,
    ensures
        unique_keys(page_get_query(v)),
        page_get_query(v) == plain_query(v.options.params),
{
    page_get_clash(v);
    lemma_query_names_unique(Seq::empty(), v.options.params);
    assert(Seq::<Pair>::empty() + plain_query(v.options.params) =~= plain_query(v.options.params));
}

// ---- presentations.pages.getThumbnail ----

/// The query parameters of the thumbnail properties that are set: the size
/// first, then the mime type.
pub open spec fn set_thumbnail_properties(v: ThumbnailView) -> Seq<Pair> {
    match (v.thumbnail_size, v.mime_type) {
        (Some(s), Some(m)) => seq![
            ("thumbnailProperties.thumbnailSize"@, s),
            ("thumbnailProperties.mimeType"@, m),
        ],
        (Some(s), None) => seq![("thumbnailProperties.thumbnailSize"@, s)],
        (None, Some(m)) => seq![("thumbnailProperties.mimeType"@, m)],
        (None, None) => Seq::empty(),
    }
}

/// A pages.getThumbnail call sends GET with no body to the method
/// `slides.presentations.pages.getThumbnail`; its query is the thumbnail
/// properties that are set, the additional parameters and `alt=json`; it
/// asks for the scopes added or, by default, the read-only Drive scope.
pub proof fn thumbnail_request(v: ThumbnailView)
    ensures
        thumbnail_plan(v).method_id == "slides.presentations.pages.getThumbnail"@,
        thumbnail_plan(v).http_method == HttpMethod::Get,
        thumbnail_plan(v).content_type is None,
        thumbnail_plan(v).user_agent == v.hub.user_agent,
        v.options.scopes.len() == 0 && !v.options.cleared ==> thumbnail_plan(v).scopes == seq![
            drive_readonly_url(),
        ],
        v.options.scopes.len() > 0 || v.options.cleared ==> thumbnail_plan(v).scopes
            == v.options.scopes,
        thumbnail_query(v) == set_thumbnail_properties(v) + plain_query(v.options.params),
        thumbnail_plan(v).url == url_with_query(
            thumbnail_url(v),
            set_thumbnail_properties(v) + plain_query(v.options.params),
        ),
{
    let a = match v.thumbnail_size {
        Some(s) => seq![("thumbnailProperties.thumbnailSize"@, s)],
        None => Seq::<Pair>::empty(),
    };
    let b = match v.mime_type {
        Some(m) => seq![("thumbnailProperties.mimeType"@, m)],
        None => Seq::<Pair>::empty(),
    };
    assert(a + b =~= set_thumbnail_properties(v));
    assert(thumbnail_query(v) =~= set_thumbnail_properties(v) + plain_query(v.options.params));
}

/// A pages.getThumbnail call fails with the first of `alt`,
/// `presentationId`, `pageObjectId`, `thumbnailProperties.thumbnailSize`
/// and `thumbnailProperties.mimeType` that an additional parameter uses,
/// and only then.
pub proof fn thumbnail_clash(v: ThumbnailView)
    ensures
        first_clash(v.options.params, thumbnail_reserved()) == (if has_key(v.options.params, "alt"@) {
            Some("alt"@)
        } else if has_key(v.options.params, "presentationId"@) {
            Some("presentationId"@)
        } else if has_key(v.options.params, "pageObjectId"@) {
            Some("pageObjectId"@)
        } else if has_key(v.options.params, "thumbnailProperties.thumbnailSize"@) {
            Some("thumbnailProperties.thumbnailSize"@)
        } else if has_key(v.options.params, "thumbnailProperties.mimeType"@) {
            Some("thumbnailProperties.mimeType"@)
        } else {
            None
        }),
{
    let r = thumbnail_reserved();
    let r1 = r.drop_first();
    let r2 = r1.drop_first();
    let r3 = r2.drop_first();
    let r4 = r3.drop_first();
    assert(r1 =~= seq![
        "presentationId"@,
        "pageObjectId"@,
        "thumbnailProperties.thumbnailSize"@,
        "thumbnailProperties.mimeType"@,
    ]);
    assert(r2 =~= seq![
        "pageObjectId"@,
        "thumbnailProperties.thumbnailSize"@,
        "thumbnailProperties.mimeType"@,
    ]);
    assert(r3 =~= seq!["thumbnailProperties.thumbnailSize"@, "thumbnailProperties.mimeType"@]);
    assert(r4 =~= seq!["thumbnailProperties.mimeType"@]);
    assert(r4.drop_first() =~= Seq::<Seq<char>>::empty());
    let p = v.options.params;
    lemma_first_clash_step(p, r);
    lemma_first_clash_step(p, r1);
    lemma_first_clash_step(p, r2);
    lemma_first_clash_step(p, r3);
    lemma_first_clash_step(p, r4);
}

/// Where a pages.getThumbnail call makes a request, its query holds no name
/// twice: no thumbnail property is also given as an additional parameter.
pub proof fn thumbnail_query_names_unique(v: ThumbnailView)
    requires
        unique_keys(v.options.params),
        first_clash(v.options.params, thumbnail_reserved()) is None,
    ensures
        unique_keys(thumbnail_query(v)),
{
    thumbnail_clash(v);
    thumbnail_request(v);
    reveal_strlit("alt");
    reveal_strlit("thumbnailProperties.thumbnailSize");
    reveal_strlit("thumbnailProperties.mimeType");
    let props = set_thumbnail_properties(v);
    assert("thumbnailProperties.thumbnailSize"@ != "thumbnailProperties.mimeType"@) by {
        assert("thumbnailProperties.thumbnailSize"@[20] != "thumbnailProperties.mimeType"@[20]);
    }
    assert("thumbnailProperties.thumbnailSize"@ != "alt"@) by {
        assert("thumbnailProperties.thumbnailSize"@[0] != "alt"@[0]);
    }
    assert("thumbnailProperties.mimeType"@ != "alt"@) by {
        assert("thumbnailProperties.mimeType"@[0] != "alt"@[0]);
    }
    assert forall|i: int| 0 <= i < props.len() implies (#[trigger] props[i]).0
        == "thumbnailProperties.thumbnailSize"@ || props[i].0 == "thumbnailProperties.mimeType"@ by {
    }
    lemma_query_names_unique(props, v.options.params);
}

// ---- presentations.batchUpdate ----

/// A batchUpdate call sends POST with a JSON body to the method
/// `slides.presentations.batchUpdate`; its query is every additional
/// parameter, in order, then `alt=json`; it asks for the scopes added or, by
/// default, the read-only Drive scope.
pub proof fn batch_update_request<R>(v: BatchUpdateView<R>)
    ensures
        batch_update_plan(v).method_id == "slides.presentations.batchUpdate"@,
        batch_update_plan(v).http_method == HttpMethod::Post,
        batch_update_plan(v).content_type == Some("application/json"@),
        batch_update_plan(v).user_agent == v.hub.user_agent,
        v.options.scopes.len() == 0 && !v.options.cleared ==> batch_update_plan(v).scopes == seq![
            drive_readonly_url(),
        ],
        v.options.scopes.len() > 0 || v.options.cleared ==> batch_update_plan(v).scopes
            == v.options.scopes,
        batch_update_query(v) == plain_query(v.options.params),
        batch_update_plan(v).url == url_with_query(batch_update_url(v), plain_query(v.options.params)),
{
}

/// A batchUpdate call fails with the first of `alt` and `presentationId`
/// that an additional parameter uses, and only then.
pub proof fn batch_update_clash<R>(v: BatchUpdateView<R>)
    ensures
        first_clash(v.options.params, batch_update_reserved()) == (if has_key(v.options.params, "alt"@) {
            Some("alt"@)
        } else if has_key(v.options.params, "presentationId"@) {
            Some("presentationId"@)
        } else {
            None
        }),
{
    let p = v.options.params;
    let r = batch_update_reserved();
    assert(r.drop_first() =~= seq!["presentationId"@]);
    assert(r.drop_first().drop_first() =~= Seq::<Seq<char>>::empty());
    lemma_first_clash_step(p, r);
    lemma_first_clash_step(p, r.drop_first());
}

/// Where a batchUpdate call makes a request, its query holds no name twice.
pub proof fn batch_update_query_names_unique<R>(v: BatchUpdateView<R>)
    requires
        unique_keys(v.options.params),
        first_clash(v.options.params, batch_update_reserved()) is None,
    ensures
        unique_keys(batch_update_query(v)),
{
    batch_update_clash(v);
    lemma_query_names_unique(Seq::empty(), v.options.params);
    assert(Seq::<Pair>::empty() + plain_query(v.options.params) =~= plain_query(v.options.params));
}

// ---- presentations.create ----

/// A create call sends POST with a JSON body to the method
/// `slides.presentations.create`; its query is every additional parameter,
/// in order, then `alt=json`; it asks for the scopes added or, by default,
/// the Drive scope.
pub proof fn create_request<R>(v: CreateView<R>)
    ensures
        create_plan(v).method_id == "slides.presentations.create"@,
        create_plan(v).http_method == HttpMethod::Post,
        create_plan(v).content_type == Some("application/json"@),
        create_plan(v).user_agent == v.hub.user_agent,
        v.options.scopes.len() == 0 && !v.options.cleared ==> create_plan(v).scopes == seq![
            drive_url(),
        ],
        v.options.scopes.len() > 0 || v.options.cleared ==> create_plan(v).scopes
            == v.options.scopes,
        create_query(v) == plain_query(v.options.params),
        create_plan(v).url == url_with_query(create_url(v), plain_query(v.options.params)),
        create_url(v) == v.hub.base_url + "v1/presentations"@,
{
}

/// A create call fails where an additional parameter is named `alt`, and
/// only then.
pub proof fn create_clash<R>(v: CreateView<R>)
    ensures
        first_clash(v.options.params, create_reserved()) == (if has_key(v.options.params, "alt"@) {
            Some("alt"@)
        } else {
            None
        }),
{
    let r = create_reserved();
    assert(r.drop_first() =~= Seq::<Seq<char>>::empty());
    lemma_first_clash_step(v.options.params, r);
}

/// Where a create call makes a request, its query holds no name twice.
pub proof fn create_query_names_unique<R>(v: CreateView<R>)
    requires
        unique_keys(v.options.params),
        first_clash(v.options.params, create_reserved()) is None,
    ensures
        unique_keys(create_query(v)),
{
    create_clash(v);
    lemma_query_names_unique(Seq::empty(), v.options.params);
    assert(Seq::<Pair>::empty() + plain_query(v.options.params) =~= plain_query(v.options.params));
}

// ---- presentations.get ----

/// A get call sends GET with no body to the method
/// `slides.presentations.get`; its query is every additional parameter, in
/// order, then `alt=json`; it asks for the scopes added or, by default, the
/// read-only Drive scope.
pub proof fn get_request(v: GetView)
    ensures
        get_plan(v).method_id == "slides.presentations.get"@,
        get_plan(v).http_method == HttpMethod::Get,
        get_plan(v).content_type is None,
        get_plan(v).user_agent == v.hub.user_agent,
        v.options.scopes.len() == 0 && !v.options.cleared ==> get_plan(v).scopes == seq![
            drive_readonly_url(),
        ],
        v.options.scopes.len() > 0 || v.options.cleared ==> get_plan(v).scopes == v.options.scopes,
        get_query(v) == plain_query(v.options.params),
        get_plan(v).url == url_with_query(get_url(v), plain_query(v.options.params)),
{
}

/// A get call fails with the first of `alt` and `presentationId` that an
/// additional parameter uses, and only then.
pub proof fn get_clash(v: GetView)
    ensures
        first_clash(v.options.params, get_reserved()) == (if has_key(v.options.params, "alt"@) {
            Some("alt"@)
        } else if has_key(v.options.params, "presentationId"@) {
            Some("presentationId"@)
        } else {
            None
        }),
{
    let p = v.options.params;
    let r = get_reserved();
    assert(r.drop_first() =~= seq!["presentationId"@]);
    assert(r.drop_first().drop_first() =~= Seq::<Seq<char>>::empty());
    lemma_first_clash_step(p, r);
    lemma_first_clash_step(p, r.drop_first());
}

/// Where a get call makes a request, its query holds no name twice.
pub proof fn get_query_names_unique(v: GetView)
    requires
        unique_keys(v.options.params),
        first_clash(v.options.params, get_reserved()) is None,
    ensures
        unique_keys(get_query(v)),
{
    get_clash(v);
    lemma_query_names_unique(Seq::empty(), v.options.params);
    assert(Seq::<Pair>::empty() + plain_query(v.options.params) =~= plain_query(v.options.params));
}

} // verus!
