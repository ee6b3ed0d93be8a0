use yt_comment_fetcher::auth_flow::{
    callback_reply, poll_authorization, CallbackReply, FlowStep, AUTH_POLL_MS, AUTH_TIMEOUT_MS,
};
use yt_comment_fetcher::oauth::OAuthError;

#[test]
fn callback_with_code_succeeds() {
    assert_eq!(
        callback_reply(Some("abc".to_string()), None),
        CallbackReply {
            html: "<html><body><h1>Authorization Successful!</h1><p>You can close this window and return to the application.</p></body></html>".to_string(),
            code: Some("abc".to_string()),
        }
    );
}

#[test]
fn callback_with_error_fails_and_keeps_no_code() {
    assert_eq!(
        callback_reply(Some("abc".to_string()), Some("access_denied".to_string())),
        CallbackReply {
            html: "<html><body><h1>Authorization Failed</h1><p>Error: access_denied</p><p>You can close this window.</p></body></html>".to_string(),
            code: None,
        }
    );
    assert_eq!(callback_reply(None, Some(String::new())).code, None);
    assert_eq!(
        callback_reply(None, Some(String::new())).html,
        "<html><body><h1>Authorization Failed</h1><p>Error: </p><p>You can close this window.</p></body></html>"
    );
}

#[test]
fn callback_with_nothing_reports_no_code() {
    assert_eq!(
        callback_reply(None, None),
        CallbackReply {
            html: "<html><body><h1>Authorization Failed</h1><p>No code received</p></body></html>".to_string(),
            code: None,
        }
    );
}

#[test]
fn waiting_sleeps_half_a_second() {
    assert_eq!(poll_authorization(0, None), FlowStep::Sleep(500));
    assert_eq!(poll_authorization(300000, None), FlowStep::Sleep(500));
    assert_eq!(AUTH_POLL_MS, 500);
}

#[test]
fn code_is_exchanged_as_soon_as_it_is_there() {
    assert_eq!(poll_authorization(0, Some("c".to_string())), FlowStep::Exchange("c".to_string()));
    assert_eq!(
        poll_authorization(300000, Some("c".to_string())),
        FlowStep::Exchange("c".to_string())
    );
}

#[test]
fn wait_times_out_after_five_minutes() {
    assert_eq!(AUTH_TIMEOUT_MS, 5 * 60 * 1000);
    assert_eq!(poll_authorization(300001, None), FlowStep::Fail(OAuthError::Timeout));
    assert_eq!(
        poll_authorization(300001, Some("c".to_string())),
        FlowStep::Fail(OAuthError::Timeout)
    );
    assert_eq!(poll_authorization(u64::MAX, None), FlowStep::Fail(OAuthError::Timeout));
}
