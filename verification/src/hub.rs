//! The central settings shared by every call: the user agent and the base
//! and root URLs of the service.
use vstd::prelude::*;

verus! {

/// The settings of a hub.
pub struct HubView {
    pub user_agent: Seq<char>,
    pub base_url: Seq<char>,
    pub root_url: Seq<char>,
}

/// The user agent a new hub sends.
pub open spec fn default_user_agent() -> Seq<char> {
    "google-api-rust-client/7.0.0"@
}

/// The base and root URL of a new hub.
pub open spec fn default_service_url() -> Seq<char> {
    "https://slides.googleapis.com/"@
}

/// Central instance to access all Slides related resource activities.
pub struct Slides {
    _user_agent: String,
    _base_url: String,
    _root_url: String,
}

impl View for Slides {
    type V = HubView;

    closed spec fn view(&self) -> HubView {
        HubView {
            user_agent: self._user_agent@,
            base_url: self._base_url@,
            root_url: self._root_url@,
        }
    }
}

impl Clone for Slides {
    /// A hub with the same settings.
    fn clone(&self) -> (r: Self)
        ensures
            r@ == self@,
    {
        Slides {
            _user_agent: self._user_agent.clone(),
            _base_url: self._base_url.clone(),
            _root_url: self._root_url.clone(),
        }
    }
}

impl Slides {
    /// A hub with the default user agent and URLs.
    pub fn new() -> (r: Slides)
        ensures
            r@ == (HubView {
                user_agent: default_user_agent(),
                base_url: default_service_url(),
                root_url: default_service_url(),
            }),
    {
        Slides {
            _user_agent: String::from_str("google-api-rust-client/7.0.0"),
            _base_url: String::from_str("https://slides.googleapis.com/"),
            _root_url: String::from_str("https://slides.googleapis.com/"),
        }
    }

    /// The builder of the methods on presentations.
    pub fn presentations<'a>(&'a self) -> (r: PresentationMethods<'a>)
        ensures
            r@ == self@,
    {
        PresentationMethods { hub: self }
    }

    /// The user agent sent with each request.
    pub(crate) fn current_user_agent(&self) -> (r: &str)
        ensures
            r@ == self@.user_agent,
    {
        self._user_agent.as_str()
    }

    /// The base url of each request.
    pub(crate) fn current_base_url(&self) -> (r: &str)
        ensures
            r@ == self@.base_url,
    {
        self._base_url.as_str()
    }

    /// Sets the user-agent header field to use in all requests to the server;
    /// returns the previously set user agent.
    pub fn user_agent(&mut self, agent_name: String) -> (prev: String)
        ensures
            prev@ == old(self)@.user_agent,
            final(self)@ == (HubView { user_agent: agent_name@, ..old(self)@ }),
    {
        let mut previous = agent_name;
        std::mem::swap(&mut self._user_agent, &mut previous);
        previous
    }

    /// Sets the base url to use in all requests to the server; returns the
    /// previously set base url.
    pub fn base_url(&mut self, new_base_url: String) -> (prev: String)
        ensures
            prev@ == old(self)@.base_url,
            final(self)@ == (HubView { base_url: new_base_url@, ..old(self)@ }),
    {
        let mut previous = new_base_url;
        std::mem::swap(&mut self._base_url, &mut previous);
        previous
    }

    /// Sets the root url to use in all requests to the server; returns the
    /// previously set root url.
    pub fn root_url(&mut self, new_root_url: String) -> (prev: String)
        ensures
            prev@ == old(self)@.root_url,
            final(self)@ == (HubView { root_url: new_root_url@, ..old(self)@ }),
    {
        let mut previous = new_root_url;
        std::mem::swap(&mut self._root_url, &mut previous);
        previous
    }
}

/// A builder providing access to all methods supported on presentation
/// resources.
pub struct PresentationMethods<'a> {
    hub: &'a Slides,
}

impl<'a> View for PresentationMethods<'a> {
    type V = HubView;

    closed spec fn view(&self) -> HubView {
        self.hub@
    }
}

impl<'a> PresentationMethods<'a> {
    /// The hub the methods act through.
    pub(crate) fn hub(&self) -> (r: &'a Slides)
        ensures
            r@ == self@,
    {
        self.hub
    }
}

} // verus!
