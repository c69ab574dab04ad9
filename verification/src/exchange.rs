//! The decisions of a call's exchange with the server. The caller performs
//! each attempt (asking for a token, sending the request, reading the reply,
//! consulting its delegate) and reports what happened; `next_step` says
//! whether to try again or how the call ends.
use vstd::prelude::*;

verus! {

/// What one attempt of a call came to.
#[derive(PartialEq, Eq, Structural, Clone, Copy, Debug)]
pub enum Attempt {
    /// Neither the authenticator nor the delegate provided a token.
    NoToken,
    /// The request failed before a reply came; `retry` is whether the
    /// delegate asked to try again after a pause.
    TransportError { retry: bool },
    /// The server replied with a failure status; `error_json` is whether the
    /// reply's body parsed as JSON, `retry` whether the delegate asked to try
    /// again after a pause.
    HttpFailure { error_json: bool, retry: bool },
    /// The server replied with a success status; `decoded` is whether the
    /// body decoded into the call's response type.
    Success { decoded: bool },
}

/// How a call ends.
#[derive(PartialEq, Eq, Structural, Clone, Copy, Debug)]
pub enum Outcome {
    /// No token could be had.
    MissingToken,
    /// The request failed before a reply came.
    HttpError,
    /// The server rejected the request with a JSON error.
    BadRequest,
    /// The server replied with a failure status and no JSON error.
    Failure,
    /// The reply of success did not decode.
    JsonDecodeError,
    /// The reply decoded: the call succeeded.
    Done,
}

/// What to do after an attempt.
#[derive(PartialEq, Eq, Structural, Clone, Copy, Debug)]
pub enum Step {
    /// Pause as the delegate asked and make the attempt again.
    Retry,
    /// Stop with `outcome`. Where `notify` is `Some(ok)`, the delegate's
    /// `finished` hook is told `ok`; where it is `None` the hook is not called.
    Finish { outcome: Outcome, notify: Option<bool> },
}

/// The step after an attempt.
pub open spec fn step_after(a: Attempt) -> Step {
    match a {
        Attempt::NoToken => Step::Finish { outcome: Outcome::MissingToken, notify: Some(false) },
        Attempt::TransportError { retry } => if retry {
            Step::Retry
        } else {
            Step::Finish { outcome: Outcome::HttpError, notify: Some(false) }
        },
        Attempt::HttpFailure { error_json, retry } => if retry {
            Step::Retry
        } else if error_json {
            Step::Finish { outcome: Outcome::BadRequest, notify: Some(false) }
        } else {
            Step::Finish { outcome: Outcome::Failure, notify: Some(false) }
        },
        Attempt::Success { decoded } => if decoded {
            Step::Finish { outcome: Outcome::Done, notify: Some(true) }
        } else {
            Step::Finish { outcome: Outcome::JsonDecodeError, notify: None }
        },
    }
}

/// Decides what follows an attempt.
pub fn next_step(a: Attempt) -> (s: Step)
    ensures
        s == step_after(a),
{
    match a {
        Attempt::NoToken => Step::Finish { outcome: Outcome::MissingToken, notify: Some(false) },
        Attempt::TransportError { retry } => {
            if retry {
                Step::Retry
            } else {
                Step::Finish { outcome: Outcome::HttpError, notify: Some(false) }
            }
        },
        Attempt::HttpFailure { error_json, retry } => {
            if retry {
                Step::Retry
            } else if error_json {
                Step::Finish { outcome: Outcome::BadRequest, notify: Some(false) }
            } else {
                Step::Finish { outcome: Outcome::Failure, notify: Some(false) }
            }
        },
        Attempt::Success { decoded } => {
            if decoded {
                Step::Finish { outcome: Outcome::Done, notify: Some(true) }
            } else {
                Step::Finish { outcome: Outcome::JsonDecodeError, notify: None }
            }
        },
    }
}

/// A call is tried again only where its delegate asked for it, it succeeds
/// only on a reply of success that decoded, and the delegate hears of
/// success exactly when the call succeeds.
pub proof fn retry_and_success_law(a: Attempt)
    ensures
        step_after(a) == Step::Retry <==> (a matches Attempt::TransportError { retry: true } || a
            matches Attempt::HttpFailure { retry: true, .. }),
        step_after(a) matches Step::Finish { outcome: Outcome::Done, .. } <==> a == (Attempt::Success {
            decoded: true,
        }),
        step_after(a) matches Step::Finish { notify: Some(true), .. } <==> a == (Attempt::Success {
            decoded: true,
        }),
{
}

} // verus!
