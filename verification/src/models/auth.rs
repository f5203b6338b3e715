use vstd::prelude::*;
use crate::oid::ObjectId;

verus! {

/// The claims of an access token: whose it is, when it expires (Unix seconds) and the id it
/// was issued under.
#[derive(Debug)]
pub struct Claims {
    pub sub: String,
    pub exp: usize,
    pub refresh_token_id: String,
}

/// A stored refresh token: only the hash of the token is kept.
#[derive(Debug)]
pub struct RefreshToken {
    pub id: ObjectId,
    pub user_email: String,
    pub token_hash: String,
    pub expires_at: i64,
    pub created_at: i64,
}

pub struct AuthPayload {
    pub username: String,
    pub email: String,
    pub password: String,
}

pub struct AuthLoginPayload {
    pub user_or_email: String,
    pub password: String,
}

pub struct RefreshTokenPayload {
    pub refresh_token: String,
}

#[derive(Debug)]
pub struct AuthResponse {
    pub access_token: String,
    pub refresh_token: String,
    pub expires_in: usize,
}

} // verus!
