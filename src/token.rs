//! Session tokens: signed claims `{sub, iat, exp}` under a shared secret.
use vstd::prelude::*;

verus! {

/// What `jsonwebtoken::encode` produces for claims `{sub, iat, exp}` under an
/// HS256 key made from `secret`.
pub uninterp spec fn jwt_token(secret: Seq<char>, sub: Seq<char>, iat: u64, exp: u64) -> Seq<char>;

/// What `jsonwebtoken::decode` (HS256, signature checked, expiry not checked)
/// recovers from `token` under `secret`: the claims, or nothing when the token is
/// malformed or its signature does not match.
pub uninterp spec fn jwt_claims(secret: Seq<char>, token: Seq<char>) -> Option<(Seq<char>, u64, u64)>;

/// The claims a session token carries.
pub struct TokenClaims {
    pub sub: String,
    pub iat: u64,
    pub exp: u64,
}

#[derive(Debug, PartialEq, Eq, Structural, Clone, Copy)]
pub enum TokenError {
    /// Bad signature, malformed structure, or expired.
    InvalidToken,
}

/// `token` was signed under `secret` and carries exactly these claims.
pub open spec fn minted(secret: Seq<char>, token: Seq<char>, sub: Seq<char>, iat: u64, exp: u64) -> bool {
    jwt_claims(secret, token) == Some((sub, iat, exp))
}

/// The outcome of verifying `token` at time `now`: the subject while the
/// signature holds and `now` is strictly before the expiry.
pub open spec fn verify_spec(secret: Seq<char>, token: Seq<char>, now: u64) -> Result<Seq<char>, TokenError> {
    match jwt_claims(secret, token) {
        Some((sub, _iat, exp)) => if now < exp {
            Ok(sub)
        } else {
            Err(TokenError::InvalidToken)
        },
        None => Err(TokenError::InvalidToken),
    }
}

pub open spec fn string_result_view<E>(r: Result<String, E>) -> Result<Seq<char>, E> {
    match r {
        Ok(s) => Ok(s@),
        Err(e) => Err(e),
    }
}

/// Relies on `jsonwebtoken::encode` with the default header (HS256) and a key
/// from `secret`: it succeeds (the key's family matches the header, a JSON map
/// always serialises, and HMAC signing cannot fail), the token is a function of
/// secret and claims, and `jsonwebtoken::decode` under the same secret gives the
/// claims back.
#[verifier::external_body]
fn encode_claims(secret: &str, claims: &TokenClaims) -> (r: Option<String>)
    ensures
        r is Some,
        r matches Some(t) ==> t@ == jwt_token(secret@, claims.sub@, claims.iat, claims.exp),
        r matches Some(t) ==> jwt_claims(secret@, t@) == Some((claims.sub@, claims.iat, claims.exp)),
{
    let mut map = serde_json::Map::new();
    map.insert("sub".to_string(), serde_json::Value::from(claims.sub.as_str()));
    map.insert("iat".to_string(), serde_json::Value::from(claims.iat));
    map.insert("exp".to_string(), serde_json::Value::from(claims.exp));
    let key = jsonwebtoken::EncodingKey::from_secret(secret.as_bytes());
    jsonwebtoken::encode(&jsonwebtoken::Header::default(), &map, &key).ok()
}

/// Relies on `jsonwebtoken::decode` with HS256, a key from `secret`, and the
/// expiry check switched off: it checks structure and signature only.
#[verifier::external_body]
fn decode_claims(secret: &str, token: &str) -> (r: Option<TokenClaims>)
    ensures
        r matches Some(c) ==> jwt_claims(secret@, token@) == Some((c.sub@, c.iat, c.exp)),
        r is None ==> jwt_claims(secret@, token@) is None,
{
    let mut validation = jsonwebtoken::Validation::new(jsonwebtoken::Algorithm::HS256);
    validation.validate_exp = false;
    let key = jsonwebtoken::DecodingKey::from_secret(secret.as_bytes());
    let data = jsonwebtoken::decode::<serde_json::Map<String, serde_json::Value>>(token, &key, &validation).ok()?;
    let sub = data.claims.get("sub")?.as_str()?.to_string();
    let iat = data.claims.get("iat")?.as_u64()?;
    let exp = data.claims.get("exp")?.as_u64()?;
    Some(TokenClaims { sub, iat, exp })
}

/// Signs the claims `{sub: subject, iat: now, exp: now + ttl_seconds}`.
pub fn mint(secret: &str, subject: &str, now: u64, ttl_seconds: u64) -> (r: String)
    requires
        now + ttl_seconds <= u64::MAX,
    ensures
        r@ == jwt_token(secret@, subject@, now, (now + ttl_seconds) as u64),
        minted(secret@, r@, subject@, now, (now + ttl_seconds) as u64),
{
    let claims = TokenClaims { sub: subject.to_owned(), iat: now, exp: now + ttl_seconds };
    encode_claims(secret, &claims).unwrap()
}

/// Checks the signature of `token` and that `now` is strictly before its expiry;
/// gives back the subject.
pub fn verify(secret: &str, token: &str, now: u64) -> (r: Result<String, TokenError>)
    ensures
        string_result_view(r) == verify_spec(secret@, token@, now),
{
    match decode_claims(secret, token) {
        Some(c) => if now < c.exp {
            Ok(c.sub)
        } else {
            Err(TokenError::InvalidToken)
        },
        None => Err(TokenError::InvalidToken),
    }
}

/// A token minted for `subject` at `issued` with lifetime `ttl` verifies to that
/// subject at every moment from `issued` up to, not including, `issued + ttl`,
/// and is rejected as invalid from then on.
pub proof fn lemma_mint_verify_round_trip(
    secret: Seq<char>,
    token: Seq<char>,
    subject: Seq<char>,
    issued: u64,
    ttl: u64,
    now: u64,
)
    requires
        issued + ttl <= u64::MAX,
        minted(secret, token, subject, issued, (issued + ttl) as u64),
    ensures
        issued <= now < issued + ttl ==> verify_spec(secret, token, now) == Ok::<Seq<char>, TokenError>(subject),
        now >= issued + ttl ==> verify_spec(secret, token, now) == Err::<Seq<char>, TokenError>(TokenError::InvalidToken),
{
}

} // verus!
