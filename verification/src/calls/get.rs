//! `slides.presentations.get`: gets the latest version of the specified
//! presentation.
use vstd::prelude::*;
use vstd::utf8::encode_utf8;
use crate::call_options::{
    options_wf,
    effective_scopes, first_clash, lemma_first_clash_none, param_set, scope_added, scopes_added,
    scopes_cleared, CallOptions, OptionsView,
};
use crate::hub::{HubView, PresentationMethods, Slides};
use crate::param_map::{has_key, pairs_view, Pair};
use crate::plan::{HttpMethod, PlanError, PlanView, RequestPlan};
use crate::query::{
    brace_free, check_url, lemma_brace_free_concat, lemma_first_value_head,
    lemma_percent_encode_plain, lemma_replace_after_brace_free, lemma_replace_at_start,
    lemma_replace_short, path_plain, percent_encode_path,
    lemma_without_names_concat, lemma_without_names_drops, lemma_without_names_keeps,
    parse_with_url, push_param, remove_params, replace_all, uri_replacement, url_parses,
    url_with_query,
};
use crate::scope::Scope;

verus! {

/// The state of a get call.
pub struct GetView {
    pub hub: HubView,
    pub presentation_id: Seq<char>,
    pub options: OptionsView,
}

/// The parameters an additional parameter may not be named.
pub open spec fn get_reserved() -> Seq<Seq<char>> {
    seq!["alt"@, "presentationId"@]
}

/// The URL of the call before its query.
pub open spec fn get_url(v: GetView) -> Seq<char> {
    replace_all(
        v.hub.base_url + "v1/presentations/{+presentationId}"@,
        "{+presentationId}"@,
        percent_encode_path(encode_utf8(v.presentation_id)),
    )
}

/// The query of the call: the additional parameters and `alt=json`.
pub open spec fn get_query(v: GetView) -> Seq<Pair> {
    v.options.params.push(("alt"@, "json"@))
}

/// The request the call makes.
pub open spec fn get_plan(v: GetView) -> PlanView {
    PlanView {
        method_id: "slides.presentations.get"@,
        http_method: HttpMethod::Get,
        url: url_with_query(get_url(v), get_query(v)),
        scopes: effective_scopes(v.options, Scope::DriveReadonly),
        user_agent: v.hub.user_agent,
        content_type: None,
    }
}

/// Gets the latest version of the specified presentation.
pub struct PresentationGetCall<'a> {
    hub: &'a Slides,
    _presentation_id: String,
    _options: CallOptions,
}

impl<'a> View for PresentationGetCall<'a> {
    type V = GetView;

    closed spec fn view(&self) -> GetView {
        GetView {
            hub: self.hub@,
            presentation_id: self._presentation_id@,
            options: self._options@,
        }
    }
}

impl<'a> PresentationMethods<'a> {
    /// A builder for getting the latest version of the specified presentation.
    pub fn get(&self, presentation_id: &str) -> (r: PresentationGetCall<'a>)
        ensures
            r@ == (GetView {
                hub: self@,
                presentation_id: presentation_id@,
                options: OptionsView { params: Seq::empty(), scopes: Seq::empty(), cleared: false },
            }),
            options_wf(r@.options),
    {
        PresentationGetCall {
            hub: self.hub(),
            _presentation_id: presentation_id.to_owned(),
            _options: CallOptions::new(),
        }
    }
}

impl<'a> PresentationGetCall<'a> {
    /// Sets the ID of the presentation to retrieve.
    pub fn presentation_id(self, new_value: &str) -> (r: Self)
        ensures
            r@ == (GetView { presentation_id: new_value@, ..self@ }),
    {
        let mut c = self;
        c._presentation_id = new_value.to_owned();
        c
    }

    /// Sets an additional query parameter; setting a name again replaces its value.
    pub fn param(self, name: &str, value: &str) -> (r: Self)
        ensures
            r@ == (GetView { options: r@.options, ..self@ }),
            param_set(self@.options, r@.options, name@, value@),
            options_wf(self@.options),
            options_wf(r@.options),
    {
        let mut c = self;
        c._options.param(name, value);
        c
    }

    /// Adds a scope the token must carry.
    pub fn add_scope(self, scope: &str) -> (r: Self)
        ensures
            r@ == (GetView { options: r@.options, ..self@ }),
            scope_added(self@.options, r@.options, scope@),
            options_wf(self@.options),
            options_wf(r@.options),
    {
        let mut c = self;
        c._options.add_scope(scope);
        c
    }

    /// Adds each of the given scopes.
    pub fn add_scopes(self, scopes: &[&str]) -> (r: Self)
        ensures
            r@ == (GetView { options: r@.options, ..self@ }),
            scopes_added(self@.options, r@.options, scopes@.map_values(|s: &str| s@)),
            options_wf(self@.options),
            options_wf(r@.options),
    {
        let mut c = self;
        c._options.add_scopes(scopes);
        c
    }

    /// Removes all scopes; no default scope will be used either.
    pub fn clear_scopes(self) -> (r: Self)
        ensures
            r@ == (GetView { options: r@.options, ..self@ }),
            scopes_cleared(self@.options, r@.options),
            options_wf(self@.options),
            options_wf(r@.options),
    {
        let mut c = self;
        c._options.clear_scopes();
        c
    }

    /// The parameters pushed before the query is formed.
    fn all_params(&self) -> (r: Vec<(String, String)>)
        ensures
            pairs_view(r@) == seq![("presentationId"@, self@.presentation_id)] + get_query(self@),
    {
        let mut extras = self._options.params_vec();
        let mut params: Vec<(String, String)> = Vec::new();
        push_param(&mut params, "presentationId", self._presentation_id.as_str());
        let ghost head = pairs_view(params@);
        let ghost ev = pairs_view(extras@);
        params.append(&mut extras);
        assert(pairs_view(params@) =~= head + ev);
        push_param(&mut params, "alt", "json");
        assert(pairs_view(params@) =~= seq![("presentationId"@, self@.presentation_id)] + get_query(self@));
        params
    }

    /// The URL before its query, from the pushed parameters.
    fn path_url(&self, params: &Vec<(String, String)>) -> (r: String)
        requires
            pairs_view(params@) == seq![("presentationId"@, self@.presentation_id)] + get_query(self@),
        ensures
            r@ == get_url(self@),
    {
        proof {
            reveal_strlit("{+presentationId}");
            lemma_first_value_head("presentationId"@, self@.presentation_id, get_query(self@));
        }
        let mut url = self.hub.current_base_url().to_owned();
        url.append("v1/presentations/{+presentationId}");
        uri_replacement(params, url, "presentationId", "{+presentationId}", true)
    }

    /// The query parameters: the pushed ones without the path parameter.
    fn query_params(&self, params: Vec<(String, String)>) -> (r: Vec<(String, String)>)
        requires
            first_clash(self@.options.params, get_reserved()) is None,
            pairs_view(params@) == seq![("presentationId"@, self@.presentation_id)] + get_query(self@),
        ensures
            pairs_view(r@) == get_query(self@),
    {
        let to_remove: Vec<&str> = vec!["presentationId"];
        let ghost names = to_remove@.map_values(|s: &str| s@);
        let ghost head = seq![("presentationId"@, self@.presentation_id)];
        let ghost rest = get_query(self@);
        proof {
            reveal_strlit("presentationId");
            reveal_strlit("alt");
            assert(names =~= seq!["presentationId"@]);
            lemma_first_clash_none(self@.options.params, get_reserved());
            assert(!has_key(self@.options.params, get_reserved()[1]));
            lemma_without_names_concat(head, rest, names);
            assert(names[0] == head[0].0);
            assert(names.contains(head[0].0));
            lemma_without_names_drops(head, names);
            assert forall|i: int| 0 <= i < rest.len() implies !names.contains(#[trigger] rest[i].0) by {
                let p = self@.options.params;
                if i < rest.len() - 1 {
                    assert(rest[i] == p[i]);
                    if names.contains(rest[i].0) {
                        let k = choose|k: int| 0 <= k < names.len() && names[k] == rest[i].0;
                        assert(p[i].0 == "presentationId"@);
                        assert(has_key(p, "presentationId"@));
                    }
                } else {
                    assert(rest[i].0 == "alt"@);
                    if names.contains(rest[i].0) {
                        let k = choose|k: int| 0 <= k < names.len() && names[k] == rest[i].0;
                        assert(names[k][0] == 'p');
                        assert("alt"@[0] == 'a');
                    }
                }
            }
            lemma_without_names_keeps(rest, names);
            assert(head + rest =~= pairs_view(params@));
            assert(Seq::<Pair>::empty() + rest =~= rest);
        }
        remove_params(params, &to_remove)
    }

    /// The request this call makes. The URL must parse, as the request
    /// could not be made otherwise.
    pub fn request_plan(&self) -> (r: Result<RequestPlan, PlanError>)
        requires
            url_parses(get_url(self@)),
        ensures
            match r {
                Ok(p) => first_clash(self@.options.params, get_reserved()) is None && p@
                    == get_plan(self@),
                Err(PlanError::FieldClash(f)) => first_clash(self@.options.params, get_reserved())
                    == Some(f@),
                Err(PlanError::InvalidUrl) => false,
            },
    {
        let reserved: Vec<&'static str> = vec!["alt", "presentationId"];
        assert(reserved@.map_values(|s: &str| s@) =~= get_reserved());
        match self._options.first_clash(&reserved) {
            Some(f) => {
                return Err(PlanError::FieldClash(f));
            },
            None => {},
        }
        let params = self.all_params();
        let url = self.path_url(&params);
        let query = self.query_params(params);
        let url = parse_with_url(&query, url.as_str());
        let scopes = self._options.scopes_for(Scope::DriveReadonly);
        Ok(
            RequestPlan {
                method_id: "slides.presentations.get",
                http_method: HttpMethod::Get,
                url,
                scopes,
                user_agent: self.hub.current_user_agent().to_owned(),
                content_type: None,
            },
        )
    }

    /// The request this call makes, or `InvalidUrl` where its URL does not parse.
    pub fn try_request_plan(&self) -> (r: Result<RequestPlan, PlanError>)
        ensures
            match r {
                Ok(p) => first_clash(self@.options.params, get_reserved()) is None
                    && url_parses(get_url(self@)) && p@ == get_plan(self@),
                Err(PlanError::FieldClash(f)) => first_clash(self@.options.params, get_reserved())
                    == Some(f@),
                Err(PlanError::InvalidUrl) => first_clash(self@.options.params, get_reserved()) is None
                    && !url_parses(get_url(self@)),
            },
    {
        let reserved: Vec<&'static str> = vec!["alt", "presentationId"];
        assert(reserved@.map_values(|s: &str| s@) =~= get_reserved());
        match self._options.first_clash(&reserved) {
            Some(f) => {
                return Err(PlanError::FieldClash(f));
            },
            None => {},
        }
        let params = self.all_params();
        let url = self.path_url(&params);
        if !check_url(url.as_str()) {
            return Err(PlanError::InvalidUrl);
        }
        self.request_plan()
    }
}

/// Where the base URL holds no opening brace, the URL of the call is the
/// base URL followed by the method's path with the percent-encoded
/// presentation ID in its place.
pub proof fn get_url_is_path(v: GetView)
    requires
        brace_free(v.hub.base_url),
    ensures
        get_url(v) == v.hub.base_url + "v1/presentations/"@ + percent_encode_path(
            encode_utf8(v.presentation_id),
        ),
{
    let a = "v1/presentations/"@;
    let p1 = "{+presentationId}"@;
    reveal_strlit("v1/presentations/{+presentationId}");
    reveal_strlit("v1/presentations/");
    reveal_strlit("{+presentationId}");
    assert(brace_free(a));
    let base = v.hub.base_url;
    let enc = percent_encode_path(encode_utf8(v.presentation_id));
    assert(base + "v1/presentations/{+presentationId}"@ =~= (base + a) + (p1 + Seq::<char>::empty()));
    lemma_brace_free_concat(base, a);
    lemma_replace_after_brace_free(base + a, p1 + Seq::<char>::empty(), p1, enc);
    lemma_replace_at_start(Seq::<char>::empty(), p1, enc);
    lemma_replace_short(Seq::<char>::empty(), p1, enc);
    assert((base + a) + (enc + Seq::<char>::empty()) =~= base + a + enc);
}

/// Where the presentation ID holds only characters that a URL path keeps
/// as they are, and the base URL no opening brace, the URL of the call is
/// the base URL followed by the method's path with the ID in its place.
pub proof fn get_url_plain_id(v: GetView)
    requires
        brace_free(v.hub.base_url),
        path_plain(v.presentation_id),
    ensures
        get_url(v) == v.hub.base_url + "v1/presentations/"@ + v.presentation_id,
{
    get_url_is_path(v);
    lemma_percent_encode_plain(v.presentation_id);
}

} // verus!
