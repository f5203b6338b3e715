use vstd::prelude::*;
use vstd::string::*;
use crate::text::{hex_lower, json_string, opt_text, push_char, push_json_string, push_str, text, to_hex_lower};
use crate::utils::errors::CustomError;
use crate::utils::time::now_timestamp;
use sha2::Digest;
use std::collections::HashMap;
use serde_json::Value;
use jsonwebtoken::Validation;
use jsonwebtoken::errors::ErrorKind;

verus! {

/// How long an access token lives: 12 hours, in seconds.
pub const ACCESS_TOKEN_LIFETIME: i64 = 43200;

/// The decimal digits of a number.
pub open spec fn decimal(n: nat) -> Seq<char>
    decreases n,
{
    if n < 10 {
        seq![crate::text::hex_lower_char(n)]
    } else {
        decimal(n / 10) + seq![crate::text::hex_lower_char(n % 10)]
    }
}

/// Appends the decimal digits of a number.
pub fn push_decimal(out: &mut String, n: u64)
    ensures
        final(out)@ == old(out)@ + decimal(n as nat),
    decreases n,
{
    if n >= 10 {
        push_decimal(out, n / 10);
    }
    push_char(out, crate::text::hex_lower_digit((n % 10) as u8));
    proof {
        assert(final(out)@ =~= old(out)@ + decimal(n as nat));
    }
}

/// The JSON text of access-token claims, as serde writes the `Claims` struct: subject,
/// expiry and refresh-token id, in that order.
pub open spec fn claims_json(sub: Seq<char>, exp: nat, refresh_token_id: Seq<char>) -> Seq<char> {
    "{\"sub\":"@ + json_string(sub) + ",\"exp\":"@ + decimal(exp) + ",\"refresh_token_id\":"@
        + json_string(refresh_token_id) + "}"@
}

/// The expiry of a token issued at the given time, as the claims hold it.
pub open spec fn expiry(now: i64) -> usize {
    (now + ACCESS_TOKEN_LIFETIME) as usize
}

/// A text that is the claims JSON of some subject, expiry and refresh-token id.
pub open spec fn is_claims_text(t: Seq<char>) -> bool {
    exists|sub: Seq<char>, exp: nat, id: Seq<char>| t == claims_json(sub, exp, id)
}

/// Checked under the secret, the token names the subject that the claims text was written
/// with.
pub open spec fn names_claims_subject(token: Seq<char>, secret: Seq<char>, claims: Seq<char>) -> bool {
    forall|sub: Seq<char>, exp: nat, id: Seq<char>|
        #[trigger] claims_json(sub, exp, id) == claims ==> jwt_verified_subject(token, secret) == Some(sub)
}

/// What `jsonwebtoken::encode` gives for the default header (HS256) over the claims whose
/// JSON text is given, signed with the secret.
pub uninterp spec fn jwt_hs256(claims_json: Seq<char>, secret: Seq<char>) -> Seq<char>;

/// What the part of `jsonwebtoken::decode` that does not read the clock gives for a token
/// checked under an HS256 key made of the secret's bytes: the `sub` claim, when the token's
/// signature passes that check and its payload is a JSON object whose `sub` is a string;
/// `None` otherwise.
pub uninterp spec fn jwt_verified_subject(token: Seq<char>, secret: Seq<char>) -> Option<Seq<char>>;

/// The SHA-256 digest of the bytes.
pub uninterp spec fn sha256(data: Seq<u8>) -> Seq<u8>;

/// Calls `jsonwebtoken::encode` with the default header (HS256) and a key made from the
/// secret's bytes, on the claims JSON text carried as a `serde_json` raw value (which writes
/// the text unchanged). The token depends on nothing but the claims and the secret; its value
/// is named `jwt_hs256`. For a claims text that this library writes, `RawValue::from_string`
/// accepts it (it is a JSON object) and `encode` has no failing path: the key's family is
/// HMAC as the header's algorithm asks, serialising a raw value cannot fail, and HS256
/// signing cannot fail. `decode` splits the token at its dots, reads the header it wrote,
/// re-signs the first two parts with the same key and compares, so the token passes the
/// check under the same secret, and its payload is the claims text, whose `sub` is the
/// subject it was written with.
#[verifier::external_body]
fn encode_hs256(claims_json: String, secret: &str) -> (r: Option<String>)
    requires
        is_claims_text(claims_json@),
    ensures
        opt_text(r) == Some(jwt_hs256(claims_json@, secret@)),
        names_claims_subject(r.unwrap()@, secret@, claims_json@),
{
    let raw = serde_json::value::RawValue::from_string(claims_json).ok()?;
    let key = jsonwebtoken::EncodingKey::from_secret(secret.as_bytes());
    jsonwebtoken::encode(&jsonwebtoken::Header::default(), &raw, &key).ok()
}

#[verifier::external_type_specification]
#[verifier::external_body]
pub struct ExJwtErrorKind(jsonwebtoken::errors::ErrorKind);

/// Sorts a `jsonwebtoken` error kind into the failures that the bearer check tells apart,
/// one arm per kind; every other kind is `Other`.
#[verifier::external_body]
fn token_failure(kind: &ErrorKind) -> (r: TokenFailure) {
    match kind {
        ErrorKind::ExpiredSignature => TokenFailure::ExpiredSignature,
        ErrorKind::InvalidToken => TokenFailure::InvalidToken,
        ErrorKind::InvalidSignature => TokenFailure::InvalidSignature,
        _ => TokenFailure::Other,
    }
}

/// Calls `jsonwebtoken::decode` with the default validation (HS256; expiry checked against
/// the clock with 60 s leeway, audience checked) or, when `full` is false, with the expiry and
/// audience checks off, and a key made from the secret's bytes, into a map of claims; it hands
/// out the `sub`, `exp` and `refresh_token_id` claims where they have the types the
/// access-token claims give them. A refusal is sorted by its kind. Whether a token passes
/// depends on the clock; what holds of every outcome is that `decode` checks the signature
/// before it succeeds, so an accepted token's `sub` is the one named by
/// `jwt_verified_subject`.
#[verifier::external_body]
fn decode_claims(token: &str, secret: &str, full: bool) -> (r: Result<DecodedClaims, TokenFailure>)
    ensures
        r matches Ok(c) ==> (c.sub matches Some(s) ==> jwt_verified_subject(token@, secret@)
            == Some(s@)),
{
    let mut validation = Validation::default();
    validation.validate_exp = full;
    validation.validate_aud = full;
    let key = jsonwebtoken::DecodingKey::from_secret(secret.as_bytes());
    match jsonwebtoken::decode::<HashMap<String, Value>>(token, &key, &validation) {
        Ok(d) => Ok(DecodedClaims {
            sub: d.claims.get("sub").and_then(Value::as_str).map(String::from),
            exp: d.claims.get("exp").and_then(Value::as_u64),
            refresh_token_id: d.claims.get("refresh_token_id").and_then(Value::as_str).map(String::from),
        }),
        Err(e) => Err(token_failure(e.kind())),
    }
}

/// Calls `sha2::Sha256::digest`: the 32-byte SHA-256 digest, named `sha256`.
#[verifier::external_body]
fn sha256_digest(data: &[u8]) -> (r: Vec<u8>)
    ensures
        r@ == sha256(data@),
        r@.len() == 32,
{
    sha2::Sha256::digest(data).to_vec()
}

/// Calls `uuid::Uuid::new_v4` and writes it in its hyphenated form
/// (`xxxxxxxx-xxxx-xxxx-xxxx-xxxxxxxxxxxx`, 36 characters). The value is random.
#[verifier::external_body]
fn new_uuid_v4() -> (r: String)
    ensures
        r@.len() == 36,
{
    uuid::Uuid::new_v4().to_string()
}

/// Writes the claims JSON text.
pub fn claims_text(sub: &str, exp: usize, refresh_token_id: &str) -> (r: String)
    ensures
        r@ == claims_json(sub@, exp as nat, refresh_token_id@),
{
    let mut out = text("{\"sub\":");
    push_json_string(&mut out, sub);
    push_str(&mut out, ",\"exp\":");
    push_decimal(&mut out, exp as u64);
    push_str(&mut out, ",\"refresh_token_id\":");
    push_json_string(&mut out, refresh_token_id);
    push_str(&mut out, "}");
    proof {
        assert(out@ =~= claims_json(sub@, exp as nat, refresh_token_id@));
    }
    out
}

/// Issues and checks the tokens of a session.
pub struct JWTValidator {}

/// The user behind a request, known by the e-mail its access token names.
pub struct AuthBearer(pub String);

/// The ways an access token can fail validation.
#[derive(Clone, Copy, Debug, PartialEq, Eq, Structural)]
pub enum TokenFailure {
    ExpiredSignature,
    InvalidToken,
    InvalidSignature,
    Other,
}

/// The claims of a checked access token, each where it has the type the claims give it.
#[derive(Debug)]
pub struct DecodedClaims {
    pub sub: Option<String>,
    pub exp: Option<u64>,
    pub refresh_token_id: Option<String>,
}

/// The token for the claims, signed with the secret.
fn sign_claims(sub: &str, exp: usize, refresh_token_id: &str, secret: &str) -> (r: String)
    ensures
        r@ == jwt_hs256(claims_json(sub@, exp as nat, refresh_token_id@), secret@),
        jwt_verified_subject(r@, secret@) == Some(sub@),
{
    let claims = claims_text(sub, exp, refresh_token_id);
    proof {
        assert(is_claims_text(claims@));
    }
    match encode_hs256(claims, secret) {
        Some(t) => t,
        None => {
            proof {
                assert(false);
            }
            String::new()
        },
    }
}

/// The token was issued for the user at some time (Unix seconds) under the refresh-token id,
/// valid for 12 hours, and names the user when checked under the secret.
pub open spec fn issued_token(token: Seq<char>, user_email: Seq<char>, refresh_token_id: Seq<char>, secret: Seq<char>) -> bool {
    &&& exists|now: i64|
        0 <= now <= i64::MAX - ACCESS_TOKEN_LIFETIME && token == jwt_hs256(
            #[trigger] claims_json(user_email, expiry(now) as nat, refresh_token_id),
            secret,
        )
    &&& jwt_verified_subject(token, secret) == Some(user_email)
}

/// The token was issued for the user, as `issued_token` says, under some 36-character id.
pub open spec fn issued_session_token(token: Seq<char>, user_email: Seq<char>, secret: Seq<char>) -> bool {
    exists|id: Seq<char>| id.len() == 36 && #[trigger] issued_token(token, user_email, id, secret)
}

pub trait JWTMethods {
    /// A new session for the user: an access token, valid for 12 hours from now and issued
    /// under a fresh random id, and a fresh random refresh token.
    fn create_jwt(user_email: &str, secret: &str) -> (r: (String, String))
        ensures
            issued_session_token(r.0@, user_email@, secret@),
            r.1@.len() == 36,
    {
        let refresh_token_id = new_uuid_v4();
        let now = now_timestamp();
        let access_token = Self::create_access_token_at(user_email, refresh_token_id.as_str(), secret, now);
        let refresh_token = new_uuid_v4();
        proof {
            assert(issued_token(access_token@, user_email@, refresh_token_id@, secret@));
            assert(issued_session_token(access_token@, user_email@, secret@));
        }
        (access_token, refresh_token)
    }

    /// An access token for the user, issued now under the given refresh-token id and valid
    /// for 12 hours.
    fn create_access_token(user_email: &str, refresh_token_id: &str, secret: &str) -> (r: String)
        ensures
            issued_token(r@, user_email@, refresh_token_id@, secret@),
    {
        let now = now_timestamp();
        let t = Self::create_access_token_at(user_email, refresh_token_id, secret, now);
        proof {
            assert(issued_token(t@, user_email@, refresh_token_id@, secret@));
        }
        t
    }

    /// The access token for the user issued at the given time (Unix seconds) under the given
    /// refresh-token id: it expires 12 hours later.
    fn create_access_token_at(
        user_email: &str,
        refresh_token_id: &str,
        secret: &str,
        now: i64,
    ) -> (r: String)
        requires
            0 <= now <= i64::MAX - ACCESS_TOKEN_LIFETIME,
        ensures
            r@ == jwt_hs256(
                claims_json(user_email@, expiry(now) as nat, refresh_token_id@),
                secret@,
            ),
            jwt_verified_subject(r@, secret@) == Some(user_email@),
    {
        let exp = (now + ACCESS_TOKEN_LIFETIME) as usize;
        sign_claims(user_email, exp, refresh_token_id, secret)
    }

    /// The stored form of a refresh token: the lower-case hex SHA-256 digest of its bytes.
    fn hash_refresh_token(token: &str) -> (r: String)
        ensures
            r@ == hex_lower(sha256(token.spec_bytes())),
            r@.len() == 64,
    {
        let digest = sha256_digest(token.as_bytes());
        let r = to_hex_lower(digest.as_slice());
        proof {
            lemma_hex_lower_len(digest@);
        }
        r
    }
}

impl JWTMethods for JWTValidator {}

proof fn lemma_hex_lower_len(b: Seq<u8>)
    ensures
        hex_lower(b).len() == 2 * b.len(),
    decreases b.len(),
{
    if b.len() > 0 {
        lemma_hex_lower_len(b.drop_last());
    }
}

/// The message that refuses a token that failed validation.
pub open spec fn rejection_message(failure: TokenFailure) -> Seq<char> {
    match failure {
        TokenFailure::ExpiredSignature => "Token expired"@,
        TokenFailure::InvalidToken => "Invalid token"@,
        TokenFailure::InvalidSignature => "Invalid signature"@,
        TokenFailure::Other => "Token validation failed"@,
    }
}

/// The header carries a bearer token: it starts with "Bearer ".
pub open spec fn has_bearer_prefix(h: Seq<char>) -> bool {
    h.len() >= 7 && h.take(7) == "Bearer "@
}

/// Checks a bearer token under the secret in the order the access-token claims are read:
/// first the signature and the claims (a token whose claims are missing or of the wrong type
/// fails as `Other`), and only then the expiry and the other checks of the default
/// validation.
fn check_token(token: &str, secret: &str) -> (r: Result<DecodedClaims, TokenFailure>)
    ensures
        r matches Ok(c) ==> (c.sub matches Some(s) ==> jwt_verified_subject(token@, secret@)
            == Some(s@)),
{
    match decode_claims(token, secret, false) {
        Err(f) => Err(f),
        Ok(c) => {
            if c.sub.is_some() && c.exp.is_some() && c.refresh_token_id.is_some() {
                decode_claims(token, secret, true)
            } else {
                Err(TokenFailure::Other)
            }
        },
    }
}

/// The claims of an access token are all there: subject, expiry and refresh-token id.
pub open spec fn claims_complete(c: DecodedClaims) -> bool {
    c.sub is Some && c.exp is Some && c.refresh_token_id is Some
}

impl AuthBearer {
    /// The bearer token that an `Authorization` header carries: the text after "Bearer ".
    /// A missing header, or one without that prefix, is refused with 401 and the reason.
    pub fn token_from_header(header: Option<&str>) -> (r: Result<&str, (u16, String)>)
        ensures
            match header {
                None => r matches Err((status, msg)) && status == 401 && msg@
                    == "Missing authorization header"@,
                Some(h) => if h@.len() >= 7 && h@.take(7) == "Bearer "@ {
                    r matches Ok(t) && t@ == h@.skip(7)
                } else {
                    r matches Err((status, msg)) && status == 401 && msg@ == "Invalid token format"@
                },
            },
    {
        match header {
            None => Err((401, text("Missing authorization header"))),
            Some(h) => {
                let n = h.unicode_len();
                if n >= 7 {
                    let prefix = h.substring_char(0, 7);
                    if crate::text::text_eq(prefix, "Bearer ") {
                        proof {
                            assert(h@.subrange(0, 7) =~= h@.take(7));
                        }
                        let rest = h.substring_char(7, n);
                        proof {
                            assert(h@.subrange(7, n as int) =~= h@.skip(7));
                        }
                        return Ok(rest);
                    }
                    proof {
                        assert(h@.subrange(0, 7) =~= h@.take(7));
                    }
                }
                Err((401, text("Invalid token format")))
            },
        }
    }

    /// The 401 answer for a token that failed validation.
    pub fn rejection(failure: TokenFailure) -> (r: (u16, String))
        ensures
            r.0 == 401,
            r.1@ == rejection_message(failure),
    {
        let msg = match failure {
            TokenFailure::ExpiredSignature => text("Token expired"),
            TokenFailure::InvalidToken => text("Invalid token"),
            TokenFailure::InvalidSignature => text("Invalid signature"),
            TokenFailure::Other => text("Token validation failed"),
        };
        (401, msg)
    }

    /// What a checked token comes to: its subject, when the check passed and the claims are
    /// all there; else the 401 refusal for the failure ("Token validation failed" for claims
    /// that are missing or of the wrong type).
    pub fn bearer_outcome(decoded: Result<DecodedClaims, TokenFailure>) -> (r: Result<String, (u16, String)>)
        ensures
            match decoded {
                Ok(c) => if claims_complete(c) {
                    r == Ok::<String, (u16, String)>(c.sub.unwrap())
                } else {
                    r matches Err((st, m)) && st == 401 && m@ == rejection_message(TokenFailure::Other)
                },
                Err(f) => r matches Err((st, m)) && st == 401 && m@ == rejection_message(f),
            },
    {
        match decoded {
            Ok(c) => match (c.sub, c.exp, c.refresh_token_id) {
                (Some(sub), Some(_), Some(_)) => Ok(sub),
                _ => Err(AuthBearer::rejection(TokenFailure::Other)),
            },
            Err(f) => Err(AuthBearer::rejection(f)),
        }
    }

    /// The user that a request's `Authorization` header names: the subject of its bearer
    /// token, checked under the secret. A missing header, one without the "Bearer " prefix,
    /// and a token that fails the check are refused with 401; a token whose signature does
    /// not pass the check under the secret is always refused.
    pub fn authenticate(header: Option<&str>, secret: &str) -> (r: Result<String, (u16, String)>)
        ensures
            header is None ==> (r matches Err((st, m)) && st == 401 && m@
                == "Missing authorization header"@),
            header matches Some(h) ==> (!has_bearer_prefix(h@) ==> (r matches Err((st, m)) && st
                == 401 && m@ == "Invalid token format"@)),
            header matches Some(h) ==> (has_bearer_prefix(h@) ==> (r matches Ok(s) ==> jwt_verified_subject(
                h@.skip(7),
                secret@,
            ) == Some(s@))),
            header matches Some(h) ==> (has_bearer_prefix(h@) && jwt_verified_subject(h@.skip(7), secret@)
                is None ==> r is Err),
            r matches Err((st, m)) ==> st == 401,
    {
        let token = match AuthBearer::token_from_header(header) {
            Ok(t) => t,
            Err(e) => return Err(e),
        };
        AuthBearer::bearer_outcome(check_token(token, secret))
    }
}

/// A token the library issued for a user, presented under the secret it was signed with,
/// authenticates as that user if it authenticates at all: the subject that `authenticate`
/// hands out is the one the token checks to.
pub proof fn issued_token_names_its_user(
    token: Seq<char>,
    user_email: Seq<char>,
    refresh_token_id: Seq<char>,
    secret: Seq<char>,
    authenticated: Seq<char>,
)
    requires
        issued_token(token, user_email, refresh_token_id, secret),
        jwt_verified_subject(token, secret) == Some(authenticated),
    ensures
        authenticated == user_email,
{
}

} // verus!
