use vstd::prelude::*;
use vstd::string::*;
use crate::models::auth::{AuthResponse, RefreshToken};
use crate::models::users::User;
use crate::oid::ObjectId;
use crate::text::{hex_lower, hex_lower_char, text};
use crate::utils::errors::CustomError;
use crate::utils::jwt::{issued_token, sha256, JWTMethods, JWTValidator};
use crate::utils::time::now_timestamp;

verus! {

/// How many sessions a user may hold at once.
pub const MAX_SESSIONS_PER_USER: usize = 3;

/// How long an access token is said to last, in seconds (12 hours).
pub const TOKEN_EXPIRES_IN: usize = 43200;

/// How long a refresh token lives, in seconds (7 days).
pub const REFRESH_TOKEN_LIFETIME: i64 = 604800;

/// The cost factor of password hashes.
pub const BCRYPT_COST: u32 = 4;

/// What `bcrypt::verify` gives for a password (its bytes) and a stored hash: whether they
/// match, or the text of the error for a hash it cannot read.
pub uninterp spec fn bcrypt_check(password: Seq<u8>, hash: Seq<char>) -> Result<bool, Seq<char>>;

/// bcrypt accepts the password against the hash.
pub open spec fn password_matches(password: Seq<u8>, hash: Seq<char>) -> bool {
    bcrypt_check(password, hash) == Ok::<bool, Seq<char>>(true)
}

/// The answer of a check that accepts the password.
pub open spec fn accepted() -> Result<bool, Seq<char>> {
    Ok(true)
}

/// A check's answer, its error taken by its text.
pub open spec fn answer(r: Result<bool, String>) -> Result<bool, Seq<char>> {
    match r {
        Ok(b) => Ok(b),
        Err(e) => Err(e@),
    }
}

/// The start of a bcrypt hash text of the given cost: "$2b$", the cost in two digits, "$".
pub open spec fn bcrypt_prefix(cost: u32) -> Seq<char> {
    "$2b$"@ + seq![hex_lower_char((cost / 10) as nat), hex_lower_char((cost % 10) as nat)] + "$"@
}

/// The shape of the text that `bcrypt::hash` writes for a cost it accepts (4 to 31): the
/// prefix, then 22 characters of salt and 31 of hash.
pub open spec fn is_bcrypt_hash_text(h: Seq<char>, cost: u32) -> bool {
    &&& 4 <= cost <= 31
    &&& h.len() == 60
    &&& h.take(7) == bcrypt_prefix(cost)
}

/// Calls `bcrypt::hash` with the given cost. The salt is random, so the hash is too; what
/// holds of every outcome is that `bcrypt::verify` accepts the password against it (verify
/// splits the text that hash writes, hashes the password again with the same cost and salt,
/// and compares), and the text's shape: hash refuses costs outside 4 to 31 and writes
/// `format!("${}${:02}${}{}", "2b", cost, salt, hash)` with the 16-byte salt and 23-byte hash
/// in bcrypt's base64 (22 and 31 characters). On failure it gives the error's display text.
#[verifier::external_body]
fn bcrypt_hash(password: &str, cost: u32) -> (r: Result<String, String>)
    ensures
        r is Ok ==> bcrypt_check(password.spec_bytes(), r.unwrap()@) == accepted(),
        r is Ok ==> is_bcrypt_hash_text(r.unwrap()@, cost),
{
    bcrypt::hash(password, cost).map_err(|e| e.to_string())
}

/// Calls `bcrypt::verify`; its result, a function of the password and the hash alone, is
/// named `bcrypt_check` (an error carried by its display text).
#[verifier::external_body]
fn bcrypt_verify(password: &str, hash: &str) -> (r: Result<bool, String>)
    ensures
        bcrypt_check(password.spec_bytes(), hash@) == answer(r),
{
    bcrypt::verify(password, hash).map_err(|e| e.to_string())
}

/// The stored hash of a new password.
pub fn hash_password(password: &str) -> (r: Result<String, CustomError>)
    ensures
        match r {
            Ok(h) => password_matches(password.spec_bytes(), h@) && h@.len() == 60 && h@.take(7)
                == "$2b$04$"@,
            Err(e) => e matches CustomError::Server(m) && m@.len() >= "Password hashing failed: "@.len()
                && m@.take("Password hashing failed: "@.len() as int) == "Password hashing failed: "@,
        },
{
    match bcrypt_hash(password, BCRYPT_COST) {
        Ok(h) => {
            proof {
                reveal_strlit("$2b$");
                reveal_strlit("$");
                reveal_strlit("$2b$04$");
                assert(bcrypt_prefix(BCRYPT_COST) =~= "$2b$04$"@);
            }
            Ok(h)
        },
        Err(e) => {
            let mut m = text("Password hashing failed: ");
            let ghost p = m@;
            m.append(e.as_str());
            proof {
                assert(m@.take(p.len() as int) =~= p);
            }
            Err(CustomError::Server(m))
        },
    }
}

/// A new user signing up: a member of the sign-up team only.
pub fn signup_user(username: String, email: String, password_hash: String) -> (u: User)
    ensures
        u.id is None,
        u.username == username,
        u.email == email,
        u.password_hash == password_hash,
        u.group@.len() == 0,
        u.permissions@.len() == 0,
        u.teams@.len() == 1,
        u.teams@[0]@ == crate::services::teams::LJY_TEAM@,
        u.slack_user_id is None,
{
    let mut teams = Vec::new();
    teams.push(text(crate::services::teams::LJY_TEAM));
    User::create(username, email, password_hash, teams)
}

/// Nothing, when no user with the same name and e-mail exists yet.
pub fn require_new_user(already_in_use: bool) -> (r: Result<(), CustomError>)
    ensures
        already_in_use ==> (r matches Err(CustomError::Conflict(m)) && m@
            == "Username/email already in use"@),
        !already_in_use ==> r is Ok,
{
    if already_in_use {
        return Err(CustomError::Conflict(text("Username/email already in use")));
    }
    Ok(())
}

/// The answer to a successful sign-up, log-in or refresh.
pub fn auth_response(access_token: String, refresh_token: String) -> (r: AuthResponse)
    ensures
        r.access_token == access_token,
        r.refresh_token == refresh_token,
        r.expires_in == TOKEN_EXPIRES_IN,
{
    AuthResponse { access_token, refresh_token, expires_in: TOKEN_EXPIRES_IN }
}

/// What a log-in attempt comes to, for the user found by name or e-mail (if any) and the
/// password given.
pub open spec fn login_outcome(user: Option<User>, password: Seq<u8>) -> Option<Result<bool, Seq<char>>> {
    match user {
        None => None,
        Some(u) => Some(bcrypt_check(password, u.password_hash@)),
    }
}

/// The user, when the password matches their stored hash; "Invalid credentials" for an
/// unknown user or a wrong password; a server error for a stored hash bcrypt cannot read.
pub fn login_check(user: Option<User>, password: &str) -> (r: Result<User, CustomError>)
    ensures
        match login_outcome(user, password.spec_bytes()) {
            None => r matches Err(CustomError::Authentication(m)) && m@ == "Invalid credentials"@,
            Some(Ok(true)) => r == Ok::<User, CustomError>(user.unwrap()),
            Some(Ok(false)) => r matches Err(CustomError::Authentication(m)) && m@
                == "Invalid credentials"@,
            Some(Err(e)) => r matches Err(CustomError::Server(m)) && m@
                == "Password verification failed: "@ + e,
        },
{
    match user {
        None => Err(CustomError::Authentication(text("Invalid credentials"))),
        Some(u) => match bcrypt_verify(password, u.password_hash.as_str()) {
            Ok(true) => Ok(u),
            Ok(false) => Err(CustomError::Authentication(text("Invalid credentials"))),
            Err(e) => {
                let mut m = text("Password verification failed: ");
                m.append(e.as_str());
                Err(CustomError::Server(m))
            },
        },
    }
}

/// Whether a log-in must first end the user's oldest session: they hold the most allowed.
pub fn must_evict_oldest_session(active_sessions: usize) -> (r: bool)
    ensures
        r == (active_sessions >= MAX_SESSIONS_PER_USER),
{
    active_sessions >= MAX_SESSIONS_PER_USER
}

/// A user who signed up with a password can log in with it: the stored hash is one that
/// bcrypt accepts the password against.
pub proof fn signup_then_login(user: User, password: Seq<u8>)
    requires
        password_matches(password, user.password_hash@),
    ensures
        login_outcome(Some(user), password) == Some(Ok::<bool, Seq<char>>(true)),
{
}

/// A log-in never leaves a user with more than the allowed number of active sessions: it
/// ends the oldest one first whenever the user holds the most allowed.
pub proof fn login_keeps_session_limit(active_before: nat, evicted: bool)
    requires
        active_before <= MAX_SESSIONS_PER_USER,
        evicted == (active_before >= MAX_SESSIONS_PER_USER),
    ensures
        (if evicted { active_before - 1 } else { active_before as int }) + 1 <= MAX_SESSIONS_PER_USER,
{
}

/// The record that stores a new refresh token of the user: a fresh id, the token's hash,
/// created now and expiring 7 days later.
pub fn save_refresh_token(user_email: &str, refresh_token: &str) -> (r: RefreshToken)
    ensures
        r.user_email@ == user_email@,
        r.token_hash@ == hex_lower(sha256(refresh_token.spec_bytes())),
        r.created_at >= 0,
        r.expires_at == r.created_at + REFRESH_TOKEN_LIFETIME,
{
    save_refresh_token_at(user_email, refresh_token, now_timestamp())
}

/// The record that stores a new refresh token of the user, created at the given time (Unix
/// seconds): a fresh id, the token's hash, expiring 7 days later.
pub fn save_refresh_token_at(user_email: &str, refresh_token: &str, now: i64) -> (r: RefreshToken)
    requires
        0 <= now <= i64::MAX - REFRESH_TOKEN_LIFETIME,
    ensures
        r.user_email@ == user_email@,
        r.token_hash@ == hex_lower(sha256(refresh_token.spec_bytes())),
        r.created_at == now,
        r.expires_at == now + REFRESH_TOKEN_LIFETIME,
{
    let token_hash = JWTValidator::hash_refresh_token(refresh_token);
    RefreshToken {
        id: ObjectId::new(),
        user_email: text(user_email),
        token_hash,
        expires_at: now + REFRESH_TOKEN_LIFETIME,
        created_at: now,
    }
}

/// A refresh token saved at a time is active (`is_active`) at every later time short of seven
/// days after it, and at none from then on.
pub proof fn saved_token_lives_seven_days(r: RefreshToken, now: i64, t: i64)
    requires
        r.created_at == now,
        r.expires_at == now + REFRESH_TOKEN_LIFETIME,
        now <= t,
    ensures
        (r.expires_at > t) <==> t < now + 7 * 24 * 60 * 60,
{
}

/// Whether a stored refresh token is still valid at the given time.
pub fn is_active(token: &RefreshToken, now: i64) -> (r: bool)
    ensures
        r == (token.expires_at > now),
{
    token.expires_at > now
}

/// A new access token for the session that the (active, matching) stored refresh token
/// belongs to, issued now under the stored token's id in hex; the refresh token itself is
/// handed back unchanged. "Invalid or expired refresh token" when none was found.
pub fn refresh_access_token(stored: Option<RefreshToken>, refresh_token: String, secret: &str) -> (r:
    Result<AuthResponse, CustomError>)
    ensures
        match stored {
            None => r matches Err(CustomError::Authentication(m)) && m@
                == "Invalid or expired refresh token"@,
            Some(t) => r matches Ok(resp) && resp.refresh_token == refresh_token && resp.expires_in
                == TOKEN_EXPIRES_IN && exists|id: Seq<char>|
                crate::oid::is_lower_object_id_hex(id) && crate::oid::hex_value(id) == t.id.value()
                    && #[trigger] issued_token(resp.access_token@, t.user_email@, id, secret@),
        },
{
    let stored = match stored {
        Some(t) => t,
        None => return Err(CustomError::Authentication(text("Invalid or expired refresh token"))),
    };
    let id = stored.id.to_hex();
    let access_token = JWTValidator::create_access_token(
        stored.user_email.as_str(),
        id.as_str(),
        secret,
    );
    Ok(auth_response(access_token, refresh_token))
}

/// A refresh token that was saved is found again by the hash that a later refresh or log-out
/// computes from the same token.
pub proof fn saved_token_found_by_hash(stored: RefreshToken, token: Seq<char>, lookup: Seq<char>)
    requires
        stored.token_hash@ == hex_lower(sha256(vstd::utf8::encode_utf8(token))),
        lookup == hex_lower(sha256(vstd::utf8::encode_utf8(token))),
    ensures
        stored.token_hash@ == lookup,
{
}

} // verus!
