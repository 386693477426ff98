//! The identity provider's side of a login: what is sent to its token and
//! profile endpoints, what comes back, and how a reply is judged.
use vstd::prelude::*;

verus! {

/// The provider's token endpoint.
pub const TOKEN_ENDPOINT: &'static str = "https://oauth2.googleapis.com/token";

/// The provider's profile endpoint.
pub const USERINFO_ENDPOINT: &'static str = "https://www.googleapis.com/oauth2/v2/userinfo";

/// Sent back when the token endpoint answers with a non-success status.
pub const TOKEN_FAILURE: &'static str = "An error occurred while trying to retrieve access token.";

/// Sent back when the profile endpoint answers with a non-success status.
pub const PROFILE_FAILURE: &'static str = "An error occurred while trying to retrieve user information";

/// The token pair handed out for an authorization code.
pub struct OAuthResponse {
    pub access_token: String,
    pub id_token: String,
}

/// The provider's view of the signed-in person.
pub struct GoogleUserResult {
    pub id: String,
    pub email: String,
    pub verified_email: bool,
    pub name: String,
    pub given_name: String,
    pub family_name: String,
    pub picture: String,
}

/// The query of the provider's callback: the authorization code and the
/// caller's opaque `state`, used as the path to return to.
pub struct QueryCode {
    pub code: String,
    pub state: String,
}

/// The client registration with the provider.
pub struct ProviderConfig {
    pub client_id: String,
    pub client_secret: String,
    pub redirect_uri: String,
}

pub open spec fn pair_view(p: (String, String)) -> (Seq<char>, Seq<char>) {
    (p.0@, p.1@)
}

pub open spec fn pairs_view(v: Seq<(String, String)>) -> Seq<(Seq<char>, Seq<char>)> {
    v.map_values(|p: (String, String)| pair_view(p))
}

/// The form posted to the token endpoint to redeem `code`.
pub open spec fn token_form_spec(config: ProviderConfig, code: Seq<char>) -> Seq<(Seq<char>, Seq<char>)> {
    seq![
        ("grant_type"@, "authorization_code"@),
        ("redirect_uri"@, config.redirect_uri@),
        ("client_id"@, config.client_id@),
        ("code"@, code),
        ("client_secret"@, config.client_secret@),
    ]
}

/// The query of the profile request made with `access_token`.
pub open spec fn profile_query_spec(access_token: Seq<char>) -> Seq<(Seq<char>, Seq<char>)> {
    seq![("alt"@, "json"@), ("access_token"@, access_token)]
}

pub open spec fn is_success_spec(status: u16) -> bool {
    200 <= status < 300
}

fn pair(k: &str, v: &str) -> (r: (String, String))
    ensures
        pair_view(r) == (k@, v@),
{
    (k.to_owned(), v.to_owned())
}

/// Builds the form that redeems `code` at the token endpoint.
pub fn token_request_form(config: &ProviderConfig, code: &str) -> (r: Vec<(String, String)>)
    ensures
        pairs_view(r@) == token_form_spec(*config, code@),
{
    let mut v: Vec<(String, String)> = Vec::new();
    v.push(pair("grant_type", "authorization_code"));
    v.push(pair("redirect_uri", config.redirect_uri.as_str()));
    v.push(pair("client_id", config.client_id.as_str()));
    v.push(pair("code", code));
    v.push(pair("client_secret", config.client_secret.as_str()));
    assert(pairs_view(v@) =~= token_form_spec(*config, code@));
    v
}

/// Builds the query of the profile request.
pub fn profile_query(access_token: &str) -> (r: Vec<(String, String)>)
    ensures
        pairs_view(r@) == profile_query_spec(access_token@),
{
    let mut v: Vec<(String, String)> = Vec::new();
    v.push(pair("alt", "json"));
    v.push(pair("access_token", access_token));
    assert(pairs_view(v@) =~= profile_query_spec(access_token@));
    v
}

/// Whether an HTTP status is in the success class.
pub fn is_success(status: u16) -> (r: bool)
    ensures
        r == is_success_spec(status),
{
    200 <= status && status < 300
}

/// The error of a failed reply: the step's own text, followed by what the
/// provider said, when it said anything.
pub open spec fn failure_message(failure: Seq<char>, detail: Seq<char>) -> Seq<char> {
    if detail.len() == 0 {
        failure
    } else {
        failure + ": "@ + detail
    }
}

pub open spec fn error_text<T>(body: Result<T, String>) -> Seq<char> {
    match body {
        Ok(_) => Seq::<char>::empty(),
        Err(d) => d@,
    }
}

/// Judges a provider reply. On a success status the decoded body (or the
/// reason it could not be read) stands; otherwise `body` holds the provider's
/// error text, and the reply fails with `failure` followed by that text.
pub fn reply_outcome<T>(status: u16, body: Result<T, String>, failure: &str) -> (r: Result<T, String>)
    ensures
        is_success_spec(status) ==> r == body,
        !is_success_spec(status) ==> r is Err && r->Err_0@ == failure_message(failure@, error_text(body)),
{
    if is_success(status) {
        return body;
    }
    match body {
        Ok(_) => Err(failure.to_owned()),
        Err(detail) => {
            if detail.as_str().is_empty() {
                Err(failure.to_owned())
            } else {
                Err(failure.to_owned().concat(": ").concat(detail.as_str()))
            }
        },
    }
}

} // verus!
