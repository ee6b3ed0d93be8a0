//! The decisions of the authorization flow: what to answer when the
//! authorization server calls back, and what to do while waiting for it.
//!
//! The caller serves the callback and runs the wait. It asks here what to
//! answer and what to do next.

use vstd::prelude::*;
use vstd::string::StringExecFns;
use crate::cursor::opt_text;
use crate::oauth::OAuthError;
use crate::text::owned;

verus! {

/// How long an authorization is waited for, in milliseconds.
pub const AUTH_TIMEOUT_MS: u64 = 300000;

/// How long to sleep between two looks for the authorization code, in
/// milliseconds.
pub const AUTH_POLL_MS: u64 = 500;

/// The answer to a callback.
#[derive(Debug, Clone, PartialEq, Eq)]
pub struct CallbackReply {
    /// The page to show.
    pub html: String,
    /// The authorization code to keep, where the callback brought one.
    pub code: Option<String>,
}

/// The page for a callback that reports an error.
pub open spec fn error_page(error: Seq<char>) -> Seq<char> {
    "<html><body><h1>Authorization Failed</h1><p>Error: "@ + error
        + "</p><p>You can close this window.</p></body></html>"@
}

/// The page for a callback that brought a code.
pub open spec fn success_page() -> Seq<char> {
    "<html><body><h1>Authorization Successful!</h1><p>You can close this window and return to the application.</p></body></html>"@
}

/// The page for a callback that brought neither.
pub open spec fn no_code_page() -> Seq<char> {
    "<html><body><h1>Authorization Failed</h1><p>No code received</p></body></html>"@
}

/// The page that answers a callback. An error wins over a code.
pub open spec fn page_of(code: Option<Seq<char>>, error: Option<Seq<char>>) -> Seq<char> {
    match error {
        Some(e) => error_page(e),
        None => match code {
            Some(_) => success_page(),
            None => no_code_page(),
        },
    }
}

/// The code that a callback leaves to be exchanged: the one it brought,
/// unless it reported an error.
pub open spec fn code_of(code: Option<Seq<char>>, error: Option<Seq<char>>) -> Option<Seq<char>> {
    match error {
        Some(_) => None,
        None => code,
    }
}

/// Answers a callback of the authorization server, given the `code` and the
/// `error` of its query.
pub fn callback_reply(code: Option<String>, error: Option<String>) -> (r: CallbackReply)
    ensures
        r.html@ == page_of(opt_text(code), opt_text(error)),
        opt_text(r.code) == code_of(opt_text(code), opt_text(error)),
{
    match error {
        Some(e) => {
            let mut html = String::from_str("<html><body><h1>Authorization Failed</h1><p>Error: ");
            html.append(e.as_str());
            html.append("</p><p>You can close this window.</p></body></html>");
            CallbackReply { html, code: None }
        },
        None => match code {
            Some(c) => CallbackReply {
                html: owned(
                    "<html><body><h1>Authorization Successful!</h1><p>You can close this window and return to the application.</p></body></html>",
                ),
                code: Some(c),
            },
            None => CallbackReply {
                html: owned(
                    "<html><body><h1>Authorization Failed</h1><p>No code received</p></body></html>",
                ),
                code: None,
            },
        },
    }
}

/// What to do while waiting for the authorization.
#[derive(Debug, Clone, PartialEq, Eq)]
pub enum FlowStep {
    /// Give up: the wait has lasted too long.
    Fail(OAuthError),
    /// Exchange this code for tokens.
    Exchange(String),
    /// Sleep this many milliseconds, then look again.
    Sleep(u64),
}

/// A step as plain values.
pub enum FlowStepView {
    Fail(OAuthError),
    Exchange(Seq<char>),
    Sleep(u64),
}

impl View for FlowStep {
    type V = FlowStepView;

    open spec fn view(&self) -> FlowStepView {
        match *self {
            FlowStep::Fail(e) => FlowStepView::Fail(e),
            FlowStep::Exchange(code) => FlowStepView::Exchange(code@),
            FlowStep::Sleep(ms) => FlowStepView::Sleep(ms),
        }
    }
}

/// What to do after waiting `elapsed_ms` with or without a code. The timeout
/// is looked at first: past it the wait fails even if a code has arrived.
pub open spec fn flow_step_of(elapsed_ms: u64, code: Option<Seq<char>>) -> FlowStepView {
    if elapsed_ms > AUTH_TIMEOUT_MS {
        FlowStepView::Fail(OAuthError::Timeout)
    } else {
        match code {
            Some(c) => FlowStepView::Exchange(c),
            None => FlowStepView::Sleep(AUTH_POLL_MS),
        }
    }
}

/// Decides what to do after waiting `elapsed_ms` for the authorization, given
/// the code that has arrived, if any.
pub fn poll_authorization(elapsed_ms: u64, code: Option<String>) -> (r: FlowStep)
    ensures
        r@ == flow_step_of(elapsed_ms, opt_text(code)),
{
    if elapsed_ms > AUTH_TIMEOUT_MS {
        FlowStep::Fail(OAuthError::Timeout)
    } else {
        match code {
            Some(c) => FlowStep::Exchange(c),
            None => FlowStep::Sleep(AUTH_POLL_MS),
        }
    }
}

} // verus!
