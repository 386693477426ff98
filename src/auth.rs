//! The check in front of every protected request: find the session token,
//! verify it, and confirm that its subject is still a stored user.
use vstd::prelude::*;
use crate::directory::{has_id, UserDirectory};
use crate::token::{minted, verify, verify_spec};

verus! {

/// The identity of an authenticated caller.
pub struct AuthenticationGuard {
    pub user_id: String,
}

/// Why a request is not authenticated. Each is answered with `401`.
#[derive(Debug, PartialEq, Eq, Structural, Clone, Copy)]
pub enum AuthError {
    /// Neither a `token` cookie nor a usable `Authorization` header.
    MissingToken,
    /// Bad signature, malformed token, or expired.
    InvalidToken,
    /// The token is sound but its subject is no longer stored.
    UnknownSubject,
}

/// Length of the scheme label and separator in front of a header token.
pub const SCHEME_PREFIX_LEN: usize = 7;

impl AuthError {
    pub open spec fn message_spec(&self) -> Seq<char> {
        match self {
            AuthError::MissingToken => "You are not logged in, please provide token"@,
            AuthError::InvalidToken => "Invalid token or user doesn't exist"@,
            AuthError::UnknownSubject => "User belonging to this token no longer exists"@,
        }
    }

    pub fn status_code(&self) -> (r: u16)
        ensures
            r == 401,
    {
        401
    }

    /// The text shown to the caller.
    pub fn message(&self) -> (r: String)
        ensures
            r@ == self.message_spec(),
    {
        match self {
            AuthError::MissingToken => "You are not logged in, please provide token".to_owned(),
            AuthError::InvalidToken => "Invalid token or user doesn't exist".to_owned(),
            AuthError::UnknownSubject => "User belonging to this token no longer exists".to_owned(),
        }
    }
}

pub open spec fn opt_str_view(o: Option<&str>) -> Option<Seq<char>> {
    match o {
        Some(s) => Some(s@),
        None => None,
    }
}

pub open spec fn opt_string_view(o: Option<String>) -> Option<Seq<char>> {
    match o {
        Some(s) => Some(s@),
        None => None,
    }
}

/// The token a request carries: the `token` cookie if there is one, else
/// whatever follows the scheme prefix of the `Authorization` header.
pub open spec fn extracted_token(cookie: Option<Seq<char>>, header: Option<Seq<char>>) -> Option<Seq<char>> {
    match cookie {
        Some(c) => Some(c),
        None => match header {
            Some(h) => if h.len() >= SCHEME_PREFIX_LEN {
                Some(h.subrange(SCHEME_PREFIX_LEN as int, h.len() as int))
            } else {
                None
            },
            None => None,
        },
    }
}

/// The subject a request's token names, before the directory is asked.
pub open spec fn token_subject_spec(
    secret: Seq<char>,
    cookie: Option<Seq<char>>,
    header: Option<Seq<char>>,
    now: u64,
) -> Result<Seq<char>, AuthError> {
    match extracted_token(cookie, header) {
        None => Err(AuthError::MissingToken),
        Some(t) => match verify_spec(secret, t, now) {
            Ok(s) => Ok(s),
            Err(_) => Err(AuthError::InvalidToken),
        },
    }
}

/// The identity a request resolves to against the stored records `users`.
pub open spec fn authenticate_spec(
    users: Seq<crate::directory::UserView>,
    secret: Seq<char>,
    cookie: Option<Seq<char>>,
    header: Option<Seq<char>>,
    now: u64,
) -> Result<Seq<char>, AuthError> {
    match token_subject_spec(secret, cookie, header, now) {
        Err(e) => Err(e),
        Ok(s) => if has_id(users, s) {
            Ok(s)
        } else {
            Err(AuthError::UnknownSubject)
        },
    }
}

pub open spec fn guard_result_view(r: Result<AuthenticationGuard, AuthError>) -> Result<Seq<char>, AuthError> {
    match r {
        Ok(g) => Ok(g.user_id@),
        Err(e) => Err(e),
    }
}

pub open spec fn subject_result_view(r: Result<String, AuthError>) -> Result<Seq<char>, AuthError> {
    match r {
        Ok(s) => Ok(s@),
        Err(e) => Err(e),
    }
}

/// Finds the token of a request from its `token` cookie and its
/// `Authorization` header; the cookie comes first.
pub fn extract_token(cookie: Option<&str>, authorization: Option<&str>) -> (r: Option<String>)
    ensures
        opt_string_view(r) == extracted_token(opt_str_view(cookie), opt_str_view(authorization)),
{
    match cookie {
        Some(c) => Some(c.to_owned()),
        None => match authorization {
            Some(h) => {
                let n = h.unicode_len();
                if n >= SCHEME_PREFIX_LEN {
                    Some(h.substring_char(SCHEME_PREFIX_LEN, n).to_owned())
                } else {
                    None
                }
            },
            None => None,
        },
    }
}

/// Finds and verifies the token of a request at time `now`; the subject it
/// names comes back.
pub fn authenticate_token(secret: &str, cookie: Option<&str>, authorization: Option<&str>, now: u64) -> (r: Result<String, AuthError>)
    ensures
        subject_result_view(r) == token_subject_spec(secret@, opt_str_view(cookie), opt_str_view(authorization), now),
{
    match extract_token(cookie, authorization) {
        None => Err(AuthError::MissingToken),
        Some(t) => match verify(secret, t.as_str(), now) {
            Ok(s) => Ok(s),
            Err(_) => Err(AuthError::InvalidToken),
        },
    }
}

/// Admits the subject of a verified token only while a record holds it.
pub fn confirm_subject(subject: String, stored: bool) -> (r: Result<AuthenticationGuard, AuthError>)
    ensures
        stored ==> r is Ok && r->Ok_0.user_id@ == subject@,
        !stored ==> r == Err::<AuthenticationGuard, AuthError>(AuthError::UnknownSubject),
{
    if stored {
        Ok(AuthenticationGuard { user_id: subject })
    } else {
        Err(AuthError::UnknownSubject)
    }
}

/// Resolves a request to the identity of its caller at time `now`.
pub fn authenticate(
    directory: &UserDirectory,
    secret: &str,
    cookie: Option<&str>,
    authorization: Option<&str>,
    now: u64,
) -> (r: Result<AuthenticationGuard, AuthError>)
    requires
        directory.wf(),
    ensures
        guard_result_view(r) == authenticate_spec(directory@, secret@, opt_str_view(cookie), opt_str_view(authorization), now),
{
    match authenticate_token(secret, cookie, authorization, now) {
        Err(e) => Err(e),
        Ok(subject) => {
            let stored = directory.get_users_by_id(subject.as_str()).is_ok();
            confirm_subject(subject, stored)
        },
    }
}

/// A `token` cookie is used even when an `Authorization` header is present.
pub proof fn lemma_cookie_precedes_header(cookie: Seq<char>, header: Option<Seq<char>>)
    ensures
        extracted_token(Some(cookie), header) == Some(cookie),
{
}

/// A token that was minted for a subject and has not yet expired is still
/// refused, as unauthenticated, once no stored record holds that subject.
pub proof fn lemma_stale_subject_rejected(
    users: Seq<crate::directory::UserView>,
    secret: Seq<char>,
    token: Seq<char>,
    subject: Seq<char>,
    iat: u64,
    exp: u64,
    header: Option<Seq<char>>,
    now: u64,
)
    requires
        minted(secret, token, subject, iat, exp),
        now < exp,
        !has_id(users, subject),
    ensures
        authenticate_spec(users, secret, Some(token), header, now) == Err::<Seq<char>, AuthError>(AuthError::UnknownSubject),
{
}

} // verus!
