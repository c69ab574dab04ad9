//! `slides.presentations.create`: creates a blank presentation using the
//! title given in the request.
use vstd::prelude::*;
use crate::call_options::{
    options_wf,
    effective_scopes, first_clash, param_set, scope_added, scopes_added, scopes_cleared,
    CallOptions, OptionsView,
};
use crate::hub::{HubView, PresentationMethods, Slides};
use crate::param_map::{pairs_view, Pair};
use crate::plan::{json_content_type, json_media_type, HttpMethod, PlanError, PlanView, RequestPlan};
use crate::query::{check_url, parse_with_url, push_param, url_parses, url_with_query};
use crate::scope::Scope;

verus! {

/// The state of a create call; `R` is the request body.
pub struct CreateView<R> {
    pub hub: HubView,
    pub request: R,
    pub options: OptionsView,
}

/// The parameters an additional parameter may not be named.
pub open spec fn create_reserved() -> Seq<Seq<char>> {
    seq!["alt"@]
}

/// The URL of the call before its query.
pub open spec fn create_url<R>(v: CreateView<R>) -> Seq<char> {
    v.hub.base_url + "v1/presentations"@
}

/// The query of the call: the additional parameters and `alt=json`.
pub open spec fn create_query<R>(v: CreateView<R>) -> Seq<Pair> {
    v.options.params.push(("alt"@, "json"@))
}

/// The request the call makes; its body is the JSON form of the request value.
pub open spec fn create_plan<R>(v: CreateView<R>) -> PlanView {
    PlanView {
        method_id: "slides.presentations.create"@,
        http_method: HttpMethod::Post,
        url: url_with_query(create_url(v), create_query(v)),
        scopes: effective_scopes(v.options, Scope::Drive),
        user_agent: v.hub.user_agent,
        content_type: Some(json_media_type()),
    }
}

/// Creates a blank presentation using the title given in the request.
pub struct PresentationCreateCall<'a, R> {
    hub: &'a Slides,
    _request: R,
    _options: CallOptions,
}

impl<'a, R> View for PresentationCreateCall<'a, R> {
    type V = CreateView<R>;

    closed spec fn view(&self) -> CreateView<R> {
        CreateView { hub: self.hub@, request: self._request, options: self._options@ }
    }
}

impl<'a> PresentationMethods<'a> {
    /// A builder for creating a blank presentation.
    pub fn create<R>(&self, request: R) -> (r: PresentationCreateCall<'a, R>)
        ensures
            r@ == (CreateView {
                hub: self@,
                request,
                options: OptionsView { params: Seq::empty(), scopes: Seq::empty(), cleared: false },
            }),
            options_wf(r@.options),
    {
        PresentationCreateCall { hub: self.hub(), _request: request, _options: CallOptions::new() }
    }
}

impl<'a, R> PresentationCreateCall<'a, R> {
    /// Sets the request body.
    pub fn request(self, new_value: R) -> (r: Self)
        ensures
            r@ == (CreateView { request: new_value, ..self@ }),
    {
        let mut c = self;
        c._request = new_value;
        c
    }

    /// The request body.
    pub fn request_value(&self) -> (r: &R)
        ensures
            *r == self@.request,
    {
        &self._request
    }

    /// Sets an additional query parameter; setting a name again replaces its value.
    pub fn param(self, name: &str, value: &str) -> (r: Self)
        ensures
            r@ == (CreateView { options: r@.options, ..self@ }),
            param_set(self@.options, r@.options, name@, value@),
            options_wf(self@.options),
            options_wf(r@.options),
    {
        let mut c = self;
        c._options.param(name, value);
        c
    }

    /// Adds a scope the token must carry.
    pub fn add_scope(self, scope: &str) -> (r: Self)
        ensures
            r@ == (CreateView { options: r@.options, ..self@ }),
            scope_added(self@.options, r@.options, scope@),
            options_wf(self@.options),
            options_wf(r@.options),
    {
        let mut c = self;
        c._options.add_scope(scope);
        c
    }

    /// Adds each of the given scopes.
    pub fn add_scopes(self, scopes: &[&str]) -> (r: Self)
        ensures
            r@ == (CreateView { options: r@.options, ..self@ }),
            scopes_added(self@.options, r@.options, scopes@.map_values(|s: &str| s@)),
            options_wf(self@.options),
            options_wf(r@.options),
    {
        let mut c = self;
        c._options.add_scopes(scopes);
        c
    }

    /// Removes all scopes; no default scope will be used either.
    pub fn clear_scopes(self) -> (r: Self)
        ensures
            r@ == (CreateView { options: r@.options, ..self@ }),
            scopes_cleared(self@.options, r@.options),
            options_wf(self@.options),
            options_wf(r@.options),
    {
        let mut c = self;
        c._options.clear_scopes();
        c
    }

    /// The query parameters: the additional ones and `alt`.
    fn query_params(&self) -> (r: Vec<(String, String)>)
        ensures
            pairs_view(r@) == create_query(self@),
    {
        let mut params = self._options.params_vec();
        push_param(&mut params, "alt", "json");
        params
    }

    /// The URL before its query.
    fn path_url(&self) -> (r: String)
        ensures
            r@ == create_url(self@),
    {
        let mut url = self.hub.current_base_url().to_owned();
        url.append("v1/presentations");
        url
    }

    /// The request this call makes. The URL must parse, as the request
    /// could not be made otherwise.
    pub fn request_plan(&self) -> (r: Result<RequestPlan, PlanError>)
        requires
            url_parses(create_url(self@)),
        ensures
            match r {
                Ok(p) => first_clash(self@.options.params, create_reserved()) is None && p@
                    == create_plan(self@),
                Err(PlanError::FieldClash(f)) => first_clash(self@.options.params, create_reserved())
                    == Some(f@),
                Err(PlanError::InvalidUrl) => false,
            },
    {
        let reserved: Vec<&'static str> = vec!["alt"];
        assert(reserved@.map_values(|s: &str| s@) =~= create_reserved());
        match self._options.first_clash(&reserved) {
            Some(f) => {
                return Err(PlanError::FieldClash(f));
            },
            None => {},
        }
        let query = self.query_params();
        let url = self.path_url();
        let url = parse_with_url(&query, url.as_str());
        let scopes = self._options.scopes_for(Scope::Drive);
        Ok(
            RequestPlan {
                method_id: "slides.presentations.create",
                http_method: HttpMethod::Post,
                url,
                scopes,
                user_agent: self.hub.current_user_agent().to_owned(),
                content_type: Some(json_content_type()),
            },
        )
    }

    /// The request this call makes, or `InvalidUrl` where its URL does not parse.
    pub fn try_request_plan(&self) -> (r: Result<RequestPlan, PlanError>)
        ensures
            match r {
                Ok(p) => first_clash(self@.options.params, create_reserved()) is None
                    && url_parses(create_url(self@)) && p@ == create_plan(self@),
                Err(PlanError::FieldClash(f)) => first_clash(self@.options.params, create_reserved())
                    == Some(f@),
                Err(PlanError::InvalidUrl) => first_clash(self@.options.params, create_reserved()) is None
                    && !url_parses(create_url(self@)),
            },
    {
        let reserved: Vec<&'static str> = vec!["alt"];
        assert(reserved@.map_values(|s: &str| s@) =~= create_reserved());
        match self._options.first_clash(&reserved) {
            Some(f) => {
                return Err(PlanError::FieldClash(f));
            },
            None => {},
        }
        let url = self.path_url();
        if !check_url(url.as_str()) {
            return Err(PlanError::InvalidUrl);
        }
        self.request_plan()
    }
}

} // verus!
