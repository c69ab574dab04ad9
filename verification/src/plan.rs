//! What a call sends: the request plan that a call builder produces and the
//! header values derived from it.
use vstd::prelude::*;

verus! {

/// The HTTP method of a request.
#[derive(PartialEq, Eq, Structural, Clone, Copy, Debug)]
pub enum HttpMethod {
    Get,
    Post,
}

/// Why a call builder made no request.
#[derive(Clone, Copy, Debug)]
pub enum PlanError {
    /// An additional parameter uses a name that the call sets itself.
    FieldClash(&'static str),
    /// The URL of the request does not parse.
    InvalidUrl,
}

/// Everything a request is made of, but its body and its token.
pub struct RequestPlan {
    /// The identifier of the API method, such as `slides.presentations.get`.
    pub method_id: &'static str,
    pub http_method: HttpMethod,
    /// The full URL, query included.
    pub url: String,
    /// The scopes a token is asked for, in ascending order.
    pub scopes: Vec<String>,
    /// The value of the User-Agent header.
    pub user_agent: String,
    /// The value of the Content-Type header, where a JSON body goes with the request.
    pub content_type: Option<String>,
}

/// The view of a request plan.
pub struct PlanView {
    pub method_id: Seq<char>,
    pub http_method: HttpMethod,
    pub url: Seq<char>,
    pub scopes: Seq<Seq<char>>,
    pub user_agent: Seq<char>,
    pub content_type: Option<Seq<char>>,
}

impl View for RequestPlan {
    type V = PlanView;

    open spec fn view(&self) -> PlanView {
        PlanView {
            method_id: self.method_id@,
            http_method: self.http_method,
            url: self.url@,
            scopes: self.scopes@.map_values(|s: String| s@),
            user_agent: self.user_agent@,
            content_type: match self.content_type {
                Some(c) => Some(c@),
                None => None,
            },
        }
    }
}

/// The media type of a JSON request body.
pub open spec fn json_media_type() -> Seq<char> {
    "application/json"@
}

/// The text of `mime::APPLICATION_JSON`, which that crate defines as
/// `application/json`.
#[verifier::external_body]
pub(crate) fn json_content_type() -> (r: String)
    ensures
        r@ == json_media_type(),
{
    mime::APPLICATION_JSON.to_string()
}

/// The value of the Authorization header for a token.
pub fn bearer_authorization(token: &str) -> (r: String)
    ensures
        r@ == "Bearer "@ + token@,
{
    let mut r = String::from_str("Bearer ");
    r.append(token);
    r
}

} // verus!
