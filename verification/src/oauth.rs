//! OAuth 2.0 credentials: the token, the client configuration, and the manager
//! that decides when a token can be used and when it has to be refreshed.
//!
//! Nothing here talks to the network or to the file system. The caller sends
//! the form that a function builds, and hands back the reply; it reads and
//! writes the token file, and hands over the token.

use vstd::prelude::*;
use crate::json::{
    json_model, json_parse, parse_value, then_text, then_unsigned, value_as_str, value_as_u64,
    value_get, JsonModel,
};
use crate::cursor::opt_text;
use crate::text::owned;

verus! {

/// The port on which the authorization callback is served.
pub const OAUTH_CALLBACK_PORT: u16 = 8080;

/// The number of seconds before its expiry from which a token counts as
/// expired.
pub const EXPIRY_MARGIN_SECS: u64 = 60;

/// What can go wrong with a credential.
#[derive(Debug, Clone, Copy, PartialEq, Eq, Structural)]
pub enum OAuthError {
    /// No token is loaded.
    NoToken,
    /// The token endpoint answered with a status that is no success.
    Rejected,
    /// The reply of the token endpoint is no JSON document.
    MalformedResponse,
    /// The reply holds no `access_token` text.
    MissingAccessToken,
    /// The reply holds no `refresh_token` text.
    MissingRefreshToken,
    /// The reply holds no `expires_in` number.
    MissingExpiresIn,
    /// No authorization arrived in time.
    Timeout,
}

/// An OAuth 2.0 token.
#[derive(Debug, Clone, PartialEq, Eq)]
pub struct OAuthToken {
    /// The token that is sent with requests.
    pub access_token: String,
    /// The token with which a new access token is obtained.
    pub refresh_token: String,
    /// The type of the token, usually `Bearer`.
    pub token_type: String,
    /// The expiry, in seconds since the Unix epoch.
    pub expires_at: u64,
}

/// A token as plain values.
pub struct OAuthTokenView {
    pub access_token: Seq<char>,
    pub refresh_token: Seq<char>,
    pub token_type: Seq<char>,
    pub expires_at: u64,
}

impl View for OAuthToken {
    type V = OAuthTokenView;

    open spec fn view(&self) -> OAuthTokenView {
        OAuthTokenView {
            access_token: self.access_token@,
            refresh_token: self.refresh_token@,
            token_type: self.token_type@,
            expires_at: self.expires_at,
        }
    }
}

impl OAuthTokenView {
    /// Whether the token is expired at `now`, or will be within the margin.
    pub open spec fn expired_at(self, now: u64) -> bool {
        now + EXPIRY_MARGIN_SECS >= self.expires_at
    }
}

/// `SystemTime::elapsed` of `UNIX_EPOCH`, as whole seconds. Trusted; nothing is
/// claimed of the reading. It is `None` where the clock stands before the
/// epoch.
#[verifier::external_body]
fn unix_time() -> Option<u64> {
    std::time::UNIX_EPOCH.elapsed().ok().map(|d| d.as_secs())
}

impl OAuthToken {
    /// A copy of the token.
    pub fn copy(&self) -> (t: OAuthToken)
        ensures
            t@ == self@,
    {
        OAuthToken {
            access_token: self.access_token.clone(),
            refresh_token: self.refresh_token.clone(),
            token_type: self.token_type.clone(),
            expires_at: self.expires_at,
        }
    }

    /// Whether the token is expired at `now`, or will be within 60 seconds.
    pub fn is_expired_at(&self, now: u64) -> (r: bool)
        ensures
            r == self@.expired_at(now),
    {
        if now > u64::MAX - EXPIRY_MARGIN_SECS {
            true
        } else {
            now + EXPIRY_MARGIN_SECS >= self.expires_at
        }
    }

    /// Whether the token is expired by the clock of the machine, or will be
    /// within 60 seconds. A clock that stands before the epoch vouches for no
    /// token. Whatever the clock shows, a token that expires within the first
    /// 60 seconds of the epoch is expired.
    pub fn is_expired(&self) -> (r: bool)
        ensures
            self.expires_at <= EXPIRY_MARGIN_SECS ==> r,
    {
        self.is_expired_by(unix_time())
    }

    /// Whether the token is expired by a reading of the clock, or will be
    /// within 60 seconds of it. Without a reading, which is what a clock before
    /// the epoch gives, the token counts as expired.
    pub fn is_expired_by(&self, reading: Option<u64>) -> (r: bool)
        ensures
            r == self@.expired_by(reading),
    {
        match reading {
            Some(now) => self.is_expired_at(now),
            None => true,
        }
    }
}

impl OAuthTokenView {
    /// Whether the token counts as expired by a reading of the clock: by the
    /// margin where there is a reading, and always where there is none.
    pub open spec fn expired_by(self, reading: Option<u64>) -> bool {
        match reading {
            Some(now) => self.expired_at(now),
            None => true,
        }
    }
}

/// The configuration of an OAuth client.
#[derive(Debug, Clone, PartialEq, Eq)]
pub struct OAuthConfig {
    /// The client id.
    pub client_id: String,
    /// The client secret.
    pub client_secret: String,
    /// The address that the authorization server redirects to.
    pub redirect_uri: String,
    /// The scope that is asked for.
    pub scope: String,
}

/// A configuration as plain values.
pub struct OAuthConfigView {
    pub client_id: Seq<char>,
    pub client_secret: Seq<char>,
    pub redirect_uri: Seq<char>,
    pub scope: Seq<char>,
}

impl View for OAuthConfig {
    type V = OAuthConfigView;

    open spec fn view(&self) -> OAuthConfigView {
        OAuthConfigView {
            client_id: self.client_id@,
            client_secret: self.client_secret@,
            redirect_uri: self.redirect_uri@,
            scope: self.scope@,
        }
    }
}

impl OAuthConfig {
    /// A configuration with the defaults for YouTube: the callback on the
    /// local machine, and the scope that allows reading live chats.
    pub fn new(client_id: String, client_secret: String) -> (c: OAuthConfig)
        ensures
            c@ == (OAuthConfigView {
                client_id: client_id@,
                client_secret: client_secret@,
                redirect_uri: "http://localhost:8080/oauth2callback"@,
                scope: "https://www.googleapis.com/auth/youtube.force-ssl"@,
            }),
    {
        OAuthConfig {
            client_id,
            client_secret,
            redirect_uri: owned("http://localhost:8080/oauth2callback"),
            scope: owned("https://www.googleapis.com/auth/youtube.force-ssl"),
        }
    }

    /// A copy of the configuration.
    pub fn copy(&self) -> (c: OAuthConfig)
        ensures
            c@ == self@,
    {
        OAuthConfig {
            client_id: self.client_id.clone(),
            client_secret: self.client_secret.clone(),
            redirect_uri: self.redirect_uri.clone(),
            scope: self.scope.clone(),
        }
    }
}

/// The token of a reply, as plain values.
pub open spec fn view_of(t: Option<OAuthToken>) -> Option<OAuthTokenView> {
    match t {
        Some(t) => Some(t@),
        None => None,
    }
}

/// The token type of a reply: the text at `token_type`, and `Bearer` where
/// there is none.
pub open spec fn reply_token_type(doc: JsonModel) -> Seq<char> {
    match then_text(doc.member("token_type"@)) {
        Some(t) => t,
        None => "Bearer"@,
    }
}

/// The expiry of a token that was granted at `now` for `expires_in` seconds;
/// the last second of the clock where that is out of its range.
pub open spec fn expiry(now: u64, expires_in: u64) -> u64 {
    if now + expires_in > u64::MAX {
        u64::MAX
    } else {
        (now + expires_in) as u64
    }
}

/// The token that the reply to an exchange of an authorization code grants,
/// or what the reply lacks. The fields are looked for in this order:
/// `access_token`, `refresh_token`, `expires_in`.
pub open spec fn exchange_outcome(doc: JsonModel, now: u64) -> Result<OAuthTokenView, OAuthError> {
    match then_text(doc.member("access_token"@)) {
        None => Err(OAuthError::MissingAccessToken),
        Some(access_token) => match then_text(doc.member("refresh_token"@)) {
            None => Err(OAuthError::MissingRefreshToken),
            Some(refresh_token) => match then_unsigned(doc.member("expires_in"@)) {
                None => Err(OAuthError::MissingExpiresIn),
                Some(expires_in) => Ok(
                    OAuthTokenView {
                        access_token,
                        refresh_token,
                        token_type: reply_token_type(doc),
                        expires_at: expiry(now, expires_in),
                    },
                ),
            },
        },
    }
}

/// The token that the reply to a refresh grants, or what the reply lacks. The
/// refresh token stays the one that was used.
pub open spec fn refresh_outcome(current: OAuthTokenView, doc: JsonModel, now: u64) -> Result<
    OAuthTokenView,
    OAuthError,
> {
    match then_text(doc.member("access_token"@)) {
        None => Err(OAuthError::MissingAccessToken),
        Some(access_token) => match then_unsigned(doc.member("expires_in"@)) {
            None => Err(OAuthError::MissingExpiresIn),
            Some(expires_in) => Ok(
                OAuthTokenView {
                    access_token,
                    refresh_token: current.refresh_token,
                    token_type: reply_token_type(doc),
                    expires_at: expiry(now, expires_in),
                },
            ),
        },
    }
}

/// What a reply of the token endpoint comes to: a status that is no success
/// is a rejection, a body that is no JSON document is malformed, and
/// otherwise the document decides.
pub open spec fn reply_outcome(
    success: bool,
    body: Seq<char>,
    of_doc: spec_fn(JsonModel) -> Result<OAuthTokenView, OAuthError>,
) -> Result<OAuthTokenView, OAuthError> {
    if !success {
        Err(OAuthError::Rejected)
    } else {
        match json_parse(body) {
            None => Err(OAuthError::MalformedResponse),
            Some(doc) => of_doc(doc),
        }
    }
}

/// Whether a result holds the token, or the error, that an outcome names.
pub open spec fn agrees(
    r: Result<OAuthToken, OAuthError>,
    outcome: Result<OAuthTokenView, OAuthError>,
) -> bool {
    match r {
        Ok(t) => outcome == Ok::<OAuthTokenView, OAuthError>(t@),
        Err(e) => outcome == Err::<OAuthTokenView, OAuthError>(e),
    }
}

fn text_member(doc: &serde_json::Value, key: &str) -> (r: Option<String>)
    ensures
        opt_text(r) == then_text(json_model(*doc).member(key@)),
{
    match value_get(doc, key) {
        Some(v) => match value_as_str(v) {
            Some(s) => Some(owned(s)),
            None => None,
        },
        None => None,
    }
}

fn unsigned_member(doc: &serde_json::Value, key: &str) -> (r: Option<u64>)
    ensures
        r == then_unsigned(json_model(*doc).member(key@)),
{
    match value_get(doc, key) {
        Some(v) => value_as_u64(v),
        None => None,
    }
}

fn token_type_of(doc: &serde_json::Value) -> (r: String)
    ensures
        r@ == reply_token_type(json_model(*doc)),
{
    match text_member(doc, "token_type") {
        Some(t) => t,
        None => owned("Bearer"),
    }
}

fn expiry_from(now: u64, expires_in: u64) -> (r: u64)
    ensures
        r == expiry(now, expires_in),
{
    match now.checked_add(expires_in) {
        Some(t) => t,
        None => u64::MAX,
    }
}

/// Reads the token out of the parsed reply to an exchange of an authorization
/// code, granted at `now`.
pub fn token_from_exchange_reply(doc: &serde_json::Value, now: u64) -> (r: Result<
    OAuthToken,
    OAuthError,
>)
    ensures
        agrees(r, exchange_outcome(json_model(*doc), now)),
{
    let access_token = match text_member(doc, "access_token") {
        Some(t) => t,
        None => {
            return Err(OAuthError::MissingAccessToken);
        },
    };
    let refresh_token = match text_member(doc, "refresh_token") {
        Some(t) => t,
        None => {
            return Err(OAuthError::MissingRefreshToken);
        },
    };
    let expires_in = match unsigned_member(doc, "expires_in") {
        Some(n) => n,
        None => {
            return Err(OAuthError::MissingExpiresIn);
        },
    };
    Ok(
        OAuthToken {
            access_token,
            refresh_token,
            token_type: token_type_of(doc),
            expires_at: expiry_from(now, expires_in),
        },
    )
}

/// Reads the token out of the parsed reply to a refresh, granted at `now`.
pub fn token_from_refresh_reply(current: &OAuthToken, doc: &serde_json::Value, now: u64) -> (r:
    Result<OAuthToken, OAuthError>)
    ensures
        agrees(r, refresh_outcome(current@, json_model(*doc), now)),
{
    let access_token = match text_member(doc, "access_token") {
        Some(t) => t,
        None => {
            return Err(OAuthError::MissingAccessToken);
        },
    };
    let expires_in = match unsigned_member(doc, "expires_in") {
        Some(n) => n,
        None => {
            return Err(OAuthError::MissingExpiresIn);
        },
    };
    Ok(
        OAuthToken {
            access_token,
            refresh_token: current.refresh_token.clone(),
            token_type: token_type_of(doc),
            expires_at: expiry_from(now, expires_in),
        },
    )
}

/// The token that the token endpoint granted in reply to an exchange of an
/// authorization code. `success` says whether the status was a success,
/// `body` is the body of the reply, `now` the time of the grant.
pub fn token_from_exchange(success: bool, body: &str, now: u64) -> (r: Result<
    OAuthToken,
    OAuthError,
>)
    ensures
        agrees(r, reply_outcome(success, body@, |doc: JsonModel| exchange_outcome(doc, now))),
{
    if !success {
        return Err(OAuthError::Rejected);
    }
    match parse_value(body) {
        Ok(doc) => token_from_exchange_reply(&doc, now),
        Err(_) => Err(OAuthError::MalformedResponse),
    }
}

/// The token that the token endpoint granted in reply to a refresh of
/// `current`.
pub fn token_from_refresh(current: &OAuthToken, success: bool, body: &str, now: u64) -> (r: Result<
    OAuthToken,
    OAuthError,
>)
    ensures
        agrees(
            r,
            reply_outcome(success, body@, |doc: JsonModel| refresh_outcome(current@, doc, now)),
        ),
{
    if !success {
        return Err(OAuthError::Rejected);
    }
    match parse_value(body) {
        Ok(doc) => token_from_refresh_reply(current, &doc, now),
        Err(_) => Err(OAuthError::MalformedResponse),
    }
}

/// One field of a form, as plain values.
pub open spec fn field(name: Seq<char>, value: Seq<char>) -> (Seq<char>, Seq<char>) {
    (name, value)
}

/// A form as plain values.
pub open spec fn form_view(form: Seq<(String, String)>) -> Seq<(Seq<char>, Seq<char>)> {
    Seq::new(form.len(), |i: int| (form[i].0@, form[i].1@))
}

/// The form that exchanges an authorization code for tokens.
pub open spec fn exchange_form_of(config: OAuthConfigView, code: Seq<char>, verifier: Seq<char>) -> Seq<
    (Seq<char>, Seq<char>),
> {
    seq![
        field("client_id"@, config.client_id),
        field("client_secret"@, config.client_secret),
        field("code"@, code),
        field("code_verifier"@, verifier),
        field("grant_type"@, "authorization_code"@),
        field("redirect_uri"@, config.redirect_uri),
    ]
}

/// The form that refreshes an access token.
pub open spec fn refresh_form_of(config: OAuthConfigView, refresh_token: Seq<char>) -> Seq<
    (Seq<char>, Seq<char>),
> {
    seq![
        field("client_id"@, config.client_id),
        field("client_secret"@, config.client_secret),
        field("refresh_token"@, refresh_token),
        field("grant_type"@, "refresh_token"@),
    ]
}

/// The form to post to the token endpoint to exchange an authorization code.
pub fn exchange_form(config: &OAuthConfig, code: &str, verifier: &str) -> (form: Vec<
    (String, String),
>)
    ensures
        form_view(form@) == exchange_form_of(config@, code@, verifier@),
{
    let mut form: Vec<(String, String)> = Vec::new();
    form.push((owned("client_id"), config.client_id.clone()));
    form.push((owned("client_secret"), config.client_secret.clone()));
    form.push((owned("code"), owned(code)));
    form.push((owned("code_verifier"), owned(verifier)));
    form.push((owned("grant_type"), owned("authorization_code")));
    form.push((owned("redirect_uri"), config.redirect_uri.clone()));
    assert(form_view(form@) =~= exchange_form_of(config@, code@, verifier@));
    form
}

/// The form to post to the token endpoint to refresh an access token.
pub fn refresh_form(config: &OAuthConfig, refresh_token: &str) -> (form: Vec<(String, String)>)
    ensures
        form_view(form@) == refresh_form_of(config@, refresh_token@),
{
    let mut form: Vec<(String, String)> = Vec::new();
    form.push((owned("client_id"), config.client_id.clone()));
    form.push((owned("client_secret"), config.client_secret.clone()));
    form.push((owned("refresh_token"), owned(refresh_token)));
    form.push((owned("grant_type"), owned("refresh_token")));
    assert(form_view(form@) =~= refresh_form_of(config@, refresh_token@));
    form
}

/// What to do to have an access token.
#[derive(Debug, Clone, PartialEq, Eq)]
pub enum Access {
    /// The token is good: this is the access token.
    Ready(String),
    /// The token is expired: refresh it first.
    RefreshNeeded,
}

/// Access as plain values.
pub enum AccessView {
    Ready(Seq<char>),
    RefreshNeeded,
}

impl View for Access {
    type V = AccessView;

    open spec fn view(&self) -> AccessView {
        match *self {
            Access::Ready(t) => AccessView::Ready(t@),
            Access::RefreshNeeded => AccessView::RefreshNeeded,
        }
    }
}

/// The manager of one credential.
pub struct OAuthManager {
    config: OAuthConfig,
    token: Option<OAuthToken>,
}

/// A credential manager as plain values.
pub struct OAuthManagerView {
    pub config: OAuthConfigView,
    pub token: Option<OAuthTokenView>,
}

impl View for OAuthManager {
    type V = OAuthManagerView;

    closed spec fn view(&self) -> OAuthManagerView {
        OAuthManagerView { config: self.config@, token: view_of(self.token) }
    }
}

/// What to do to have an access token at `now`.
pub open spec fn access_at(m: OAuthManagerView, now: u64) -> Result<AccessView, OAuthError> {
    match m.token {
        None => Err(OAuthError::NoToken),
        Some(t) => if t.expired_at(now) {
            Ok(AccessView::RefreshNeeded)
        } else {
            Ok(AccessView::Ready(t.access_token))
        },
    }
}

/// Whether a result holds the access, or the error, that an outcome names.
pub open spec fn access_agrees(
    r: Result<Access, OAuthError>,
    outcome: Result<AccessView, OAuthError>,
) -> bool {
    match r {
        Ok(a) => outcome == Ok::<AccessView, OAuthError>(a@),
        Err(e) => outcome == Err::<AccessView, OAuthError>(e),
    }
}

impl OAuthManager {
    /// A manager with no token loaded.
    pub fn new(config: OAuthConfig) -> (m: OAuthManager)
        ensures
            m@ == (OAuthManagerView { config: config@, token: None }),
    {
        OAuthManager { config, token: None }
    }

    /// The configuration.
    pub fn config(&self) -> (c: OAuthConfig)
        ensures
            c@ == self@.config,
    {
        self.config.copy()
    }

    /// The token that is loaded, if any.
    pub fn token(&self) -> (t: Option<OAuthToken>)
        ensures
            view_of(t) == self@.token,
    {
        match &self.token {
            Some(t) => Some(t.copy()),
            None => None,
        }
    }

    /// Takes a token that was read from where tokens are kept. It replaces
    /// the token that was loaded before.
    pub fn load_token(&mut self, token: OAuthToken)
        ensures
            final(self)@ == (OAuthManagerView { config: old(self)@.config, token: Some(token@) }),
    {
        self.token = Some(token);
    }

    /// The token to write to where tokens are kept. Fails with `NoToken`
    /// exactly where none is loaded.
    pub fn save_token(&self) -> (r: Result<OAuthToken, OAuthError>)
        ensures
            match r {
                Ok(t) => self@.token == Some(t@),
                Err(e) => e == OAuthError::NoToken && self@.token is None,
            },
    {
        match &self.token {
            Some(t) => Ok(t.copy()),
            None => Err(OAuthError::NoToken),
        }
    }

    /// What to do to have an access token at `now`: use the one that is
    /// loaded, or refresh it first where it is expired or about to be.
    pub fn access_token_at(&self, now: u64) -> (r: Result<Access, OAuthError>)
        ensures
            access_agrees(r, access_at(self@, now)),
    {
        match &self.token {
            None => Err(OAuthError::NoToken),
            Some(t) => {
                if t.is_expired_at(now) {
                    Ok(Access::RefreshNeeded)
                } else {
                    Ok(Access::Ready(t.access_token.clone()))
                }
            },
        }
    }

    /// What to do to have an access token, by the clock of the machine.
    /// Without a token this fails with `NoToken`; with one it never fails, and
    /// an access token that is handed out is that of the loaded token.
    pub fn get_access_token(&self) -> (r: Result<Access, OAuthError>)
        ensures
            match r {
                Err(e) => e == OAuthError::NoToken && self@.token is None,
                Ok(Access::Ready(t)) => self@.token matches Some(token) && token.access_token
                    == t@ && token.expires_at > EXPIRY_MARGIN_SECS,
                Ok(Access::RefreshNeeded) => self@.token is Some,
            },
    {
        match &self.token {
            None => Err(OAuthError::NoToken),
            Some(t) => {
                if t.is_expired() {
                    Ok(Access::RefreshNeeded)
                } else {
                    Ok(Access::Ready(t.access_token.clone()))
                }
            },
        }
    }

    /// The form to post to refresh the loaded token. Fails with `NoToken`
    /// exactly where none is loaded.
    pub fn refresh_request(&self) -> (r: Result<Vec<(String, String)>, OAuthError>)
        ensures
            match r {
                Ok(form) => self@.token matches Some(token) && form_view(form@) == refresh_form_of(
                    self@.config,
                    token.refresh_token,
                ),
                Err(e) => e == OAuthError::NoToken && self@.token is None,
            },
    {
        match &self.token {
            Some(t) => Ok(refresh_form(&self.config, t.refresh_token.as_str())),
            None => Err(OAuthError::NoToken),
        }
    }

    /// Takes the reply to a refresh. On success the loaded token is the one
    /// that the reply grants, with the refresh token that was used; on failure
    /// the loaded token stays as it was.
    pub fn complete_refresh(&mut self, success: bool, body: &str, now: u64) -> (r: Result<
        (),
        OAuthError,
    >)
        ensures
            final(self)@.config == old(self)@.config,
            match old(self)@.token {
                None => r == Err::<(), OAuthError>(OAuthError::NoToken) && final(self)@.token
                    is None,
                Some(current) => match reply_outcome(
                    success,
                    body@,
                    |doc: JsonModel| refresh_outcome(current, doc, now),
                ) {
                    Ok(token) => r is Ok && final(self)@.token == Some(token),
                    Err(e) => r == Err::<(), OAuthError>(e) && final(self)@.token == Some(
                        current,
                    ),
                },
            },
    {
        let outcome = match &self.token {
            Some(t) => token_from_refresh(t, success, body, now),
            None => {
                return Err(OAuthError::NoToken);
            },
        };
        match outcome {
            Ok(token) => {
                self.token = Some(token);
                Ok(())
            },
            Err(e) => Err(e),
        }
    }

    /// Takes the reply to an exchange of an authorization code. On success the
    /// loaded token is the one that the reply grants; on failure the loaded
    /// token stays as it was.
    pub fn complete_exchange(&mut self, success: bool, body: &str, now: u64) -> (r: Result<
        (),
        OAuthError,
    >)
        ensures
            final(self)@.config == old(self)@.config,
            match reply_outcome(success, body@, |doc: JsonModel| exchange_outcome(doc, now)) {
                Ok(token) => r is Ok && final(self)@.token == Some(token),
                Err(e) => r == Err::<(), OAuthError>(e) && final(self)@.token == old(
                    self,
                )@.token,
            },
    {
        match token_from_exchange(success, body, now) {
            Ok(token) => {
                self.token = Some(token);
                Ok(())
            },
            Err(e) => Err(e),
        }
    }
}

} // verus!
