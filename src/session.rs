//! The login flow: redeem the authorization code, fetch the identity, record
//! the user, and issue the session cookie with a redirect back to the caller.
//!
//! The flow decides; whoever drives it performs each action it asks for and
//! hands the outcome back.
use vstd::prelude::*;
use crate::directory::DirectoryError;
use crate::errors::LoginError;
use crate::provider::{GoogleUserResult, OAuthResponse, QueryCode};
use crate::token::{jwt_token, mint, minted};

verus! {

/// Name of the session cookie.
pub const COOKIE_NAME: &'static str = "token";

/// Sent back when the callback carries no authorization code.
pub const MISSING_CODE: &'static str = "Authorization code not provided!";

/// Process-wide settings of session issuance.
pub struct SessionConfig {
    pub signing_secret: String,
    pub token_ttl_minutes: u32,
    /// Prefix of every post-login redirect.
    pub frontend_origin: String,
}

impl SessionConfig {
    /// A session lives at least a minute, so that a token always expires after it
    /// was issued.
    pub open spec fn wf(&self) -> bool {
        self.token_ttl_minutes >= 1
    }

    pub open spec fn ttl_seconds_spec(&self) -> int {
        60 * self.token_ttl_minutes
    }

    pub fn new(signing_secret: String, token_ttl_minutes: u32, frontend_origin: String) -> (r: Option<SessionConfig>)
        ensures
            token_ttl_minutes >= 1 ==> (r matches Some(c) && c.wf() && c.signing_secret == signing_secret
                && c.token_ttl_minutes == token_ttl_minutes && c.frontend_origin == frontend_origin),
            token_ttl_minutes == 0 ==> r is None,
    {
        if token_ttl_minutes >= 1 {
            Some(SessionConfig { signing_secret, token_ttl_minutes, frontend_origin })
        } else {
            None
        }
    }

    pub fn ttl_seconds(&self) -> (r: u64)
        ensures
            r == self.ttl_seconds_spec(),
    {
        60 * (self.token_ttl_minutes as u64)
    }
}

/// A cookie to set on the caller.
pub struct SessionCookie {
    pub name: String,
    pub value: String,
    pub path: String,
    pub http_only: bool,
    pub max_age_seconds: i64,
}

/// The cookie that carries `value` under the session name, for `max_age` seconds.
pub open spec fn session_cookie_spec(c: SessionCookie, value: Seq<char>, max_age: int) -> bool {
    &&& c.name@ == COOKIE_NAME@
    &&& c.value@ == value
    &&& c.path@ == "/"@
    &&& c.http_only
    &&& c.max_age_seconds == max_age
}

/// The session cookie for `token`, living as long as the token.
pub fn session_cookie(token: String, ttl_minutes: u32) -> (r: SessionCookie)
    ensures
        session_cookie_spec(r, token@, 60 * ttl_minutes),
{
    SessionCookie {
        name: COOKIE_NAME.to_owned(),
        value: token,
        path: "/".to_owned(),
        http_only: true,
        max_age_seconds: 60 * (ttl_minutes as i64),
    }
}

/// The cookie that ends a session: empty, and already expired.
pub fn logout_cookie() -> (r: SessionCookie)
    ensures
        session_cookie_spec(r, Seq::<char>::empty(), -1),
{
    SessionCookie {
        name: COOKIE_NAME.to_owned(),
        value: String::new(),
        path: "/".to_owned(),
        http_only: true,
        max_age_seconds: -1,
    }
}

/// Why a login stopped.
pub enum AbortReason {
    MissingCode,
    ExchangeFailed(String),
    IdentityFetchFailed(String),
    DirectoryFailed(DirectoryError),
    /// The token's expiry would lie past the range of the clock.
    MintFailed,
}

pub enum LoginState {
    ExchangingToken,
    FetchingIdentity,
    UpsertingUser,
    Redirecting,
    Aborted(AbortReason),
}

/// The answer to the callback request.
pub enum LoginReply {
    /// `302 Found` to `location`, setting `cookie`.
    Redirect { location: String, cookie: SessionCookie },
    /// `status` with the body `{"status": "fail", "message": message}`.
    Failure { status: u16, message: String },
}

/// What the flow asks of its driver next.
pub enum LoginAction {
    /// Redeem `code` at the provider's token endpoint.
    ExchangeCode { code: String },
    /// Fetch the profile that the token pair grants.
    FetchIdentity { access_token: String, id_token: String },
    /// Record the identity in the user directory.
    UpsertUser { identity: GoogleUserResult },
    /// Answer the callback; the flow is over.
    Respond(LoginReply),
}

pub open spec fn is_failure(a: LoginAction, status: u16, message: Seq<char>) -> bool {
    a matches LoginAction::Respond(LoginReply::Failure { status: s, message: m }) && s == status && m@ == message
}

/// A redirect to `location` setting the session cookie, whose value is the token
/// for `subject` issued at `now` and living `ttl` seconds.
pub open spec fn is_session_redirect(a: LoginAction, location: Seq<char>, secret: Seq<char>, subject: Seq<char>, now: u64, ttl: int) -> bool {
    &&& a matches LoginAction::Respond(LoginReply::Redirect { location: l, cookie })
    &&& l@ == location
    &&& session_cookie_spec(cookie, cookie.value@, ttl)
    &&& cookie.value@ == jwt_token(secret, subject, now, (now + ttl) as u64)
    &&& minted(secret, cookie.value@, subject, now, (now + ttl) as u64)
}

/// One login, from the provider's callback to the answer.
pub struct LoginFlow {
    pub state: LoginState,
    /// The caller's `state` value, appended to the frontend origin on success.
    pub return_path: String,
}

fn failure(status: u16, message: String) -> (r: LoginAction)
    ensures
        is_failure(r, status, message@),
{
    LoginAction::Respond(LoginReply::Failure { status, message })
}

impl LoginFlow {
    /// Takes the callback query. An empty code ends the login at once with
    /// `401`; otherwise the code is to be redeemed.
    pub fn start(query: QueryCode) -> (r: (LoginFlow, LoginAction))
        ensures
            r.0.return_path == query.state,
            query.code@.len() == 0 ==> r.0.state == LoginState::Aborted(AbortReason::MissingCode)
                && is_failure(r.1, 401, MISSING_CODE@),
            query.code@.len() > 0 ==> r.0.state == LoginState::ExchangingToken
                && r.1 == (LoginAction::ExchangeCode { code: query.code }),
    {
        if query.code.as_str().is_empty() {
            let flow = LoginFlow { state: LoginState::Aborted(AbortReason::MissingCode), return_path: query.state };
            (flow, failure(401, MISSING_CODE.to_owned()))
        } else {
            let flow = LoginFlow { state: LoginState::ExchangingToken, return_path: query.state };
            (flow, LoginAction::ExchangeCode { code: query.code })
        }
    }

    /// Takes the outcome of the code exchange: a failure ends the login with
    /// `502` and the provider's message; a token pair is to be used to fetch the
    /// identity.
    pub fn on_token_reply(&mut self, reply: Result<OAuthResponse, String>) -> (r: LoginAction)
        requires
            old(self).state == LoginState::ExchangingToken,
        ensures
            final(self).return_path == old(self).return_path,
            reply matches Err(m) ==> final(self).state == LoginState::Aborted(AbortReason::ExchangeFailed(m))
                && is_failure(r, 502, m@),
            reply matches Ok(t) ==> final(self).state == LoginState::FetchingIdentity
                && r == (LoginAction::FetchIdentity { access_token: t.access_token, id_token: t.id_token }),
    {
        match reply {
            Err(m) => {
                self.state = LoginState::Aborted(AbortReason::ExchangeFailed(m.clone()));
                failure(502, m)
            },
            Ok(t) => {
                self.state = LoginState::FetchingIdentity;
                LoginAction::FetchIdentity { access_token: t.access_token, id_token: t.id_token }
            },
        }
    }

    /// Takes the outcome of the profile fetch: a failure ends the login with
    /// `502` and the provider's message; an identity is to be recorded.
    pub fn on_identity_reply(&mut self, reply: Result<GoogleUserResult, String>) -> (r: LoginAction)
        requires
            old(self).state == LoginState::FetchingIdentity,
        ensures
            final(self).return_path == old(self).return_path,
            reply matches Err(m) ==> final(self).state == LoginState::Aborted(AbortReason::IdentityFetchFailed(m))
                && is_failure(r, 502, m@),
            reply matches Ok(identity) ==> final(self).state == LoginState::UpsertingUser
                && r == (LoginAction::UpsertUser { identity }),
    {
        match reply {
            Err(m) => {
                self.state = LoginState::Aborted(AbortReason::IdentityFetchFailed(m.clone()));
                failure(502, m)
            },
            Ok(identity) => {
                self.state = LoginState::UpsertingUser;
                LoginAction::UpsertUser { identity }
            },
        }
    }

    /// Takes the outcome of recording the user and, at time `now`, issues the
    /// session: a token for the user's id living `token_ttl_minutes`, set as the
    /// session cookie on a redirect to the frontend origin followed by the
    /// caller's `state`. A directory failure, or an expiry past the range of
    /// the clock, ends the login with the matching error.
    pub fn on_user_stored(&mut self, stored: Result<String, DirectoryError>, config: &SessionConfig, now: u64) -> (r: LoginAction)
        requires
            old(self).state == LoginState::UpsertingUser,
            config.wf(),
        ensures
            final(self).return_path == old(self).return_path,
            stored matches Err(e) ==> final(self).state == LoginState::Aborted(AbortReason::DirectoryFailed(e))
                && is_failure(r, LoginError::from_directory_spec(e).status_spec(), LoginError::from_directory_spec(e).message_spec()),
            stored is Ok && now + config.ttl_seconds_spec() > u64::MAX ==> final(self).state == LoginState::Aborted(AbortReason::MintFailed)
                && is_failure(r, 500, LoginError::InternalError.message_spec()),
            stored matches Ok(id) ==> (now + config.ttl_seconds_spec() <= u64::MAX ==>
                final(self).state == LoginState::Redirecting
                && is_session_redirect(r, config.frontend_origin@ + old(self).return_path@, config.signing_secret@, id@, now, config.ttl_seconds_spec())),
    {
        let id = match stored {
            Err(e) => {
                self.state = LoginState::Aborted(AbortReason::DirectoryFailed(e));
                let err = LoginError::from_directory(e);
                return failure(err.status_code(), err.message());
            },
            Ok(id) => id,
        };
        let ttl = config.ttl_seconds();
        if now > u64::MAX - ttl {
            self.state = LoginState::Aborted(AbortReason::MintFailed);
            return failure(500, LoginError::InternalError.message());
        }
        let token = mint(config.signing_secret.as_str(), id.as_str(), now, ttl);
        self.state = LoginState::Redirecting;
        let location = config.frontend_origin.clone().concat(self.return_path.as_str());
        LoginAction::Respond(LoginReply::Redirect { location, cookie: session_cookie(token, config.token_ttl_minutes) })
    }
}

} // verus!
