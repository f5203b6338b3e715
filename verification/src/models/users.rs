use vstd::prelude::*;
use crate::oid::ObjectId;
use crate::utils::time::now_rfc3339;

verus! {

#[derive(Debug)]
pub struct User {
    pub id: Option<ObjectId>,
    pub username: String,
    pub email: String,
    pub password_hash: String,
    pub group: Vec<String>,
    pub permissions: Vec<String>,
    pub teams: Vec<String>,
    pub slack_user_id: Option<String>,
}

/// A user as the API shows it to others.
#[derive(Debug)]
pub struct UserPublic {
    pub id: String,
    pub username: String,
    pub email: Option<String>,
    pub created_at: String,
    pub updated_at: String,
    pub is_active: bool,
}

#[derive(Debug)]
pub struct UsersResponse {
    pub success: bool,
    pub users: Vec<UserPublic>,
    pub message: Option<String>,
}

#[derive(Debug)]
pub struct UpdateSlackIdPayload {
    pub slack_user_id: String,
}

impl User {
    /// A new user, not yet stored (no id), in no group, with no permissions and no Slack id.
    pub fn create(username: String, email: String, password_hash: String, teams: Vec<String>) -> (u:
        User)
        ensures
            u.id is None,
            u.username == username,
            u.email == email,
            u.password_hash == password_hash,
            u.group@.len() == 0,
            u.permissions@.len() == 0,
            u.teams == teams,
            u.slack_user_id is None,
    {
        User {
            id: None,
            username,
            email,
            password_hash,
            group: Vec::new(),
            permissions: Vec::new(),
            teams,
            slack_user_id: None,
        }
    }
}

impl UserPublic {
    /// The public view of a stored user: its id in hex, its name and e-mail, active, with
    /// both times set to now.
    pub fn from_user(user: User) -> (p: UserPublic)
        requires
            user.id is Some,
        ensures
            crate::oid::is_lower_object_id_hex(p.id@),
            crate::oid::hex_value(p.id@) == user.id.unwrap().value(),
            p.username == user.username,
            p.email == Some(user.email),
            p.is_active,
    {
        let id = match &user.id {
            Some(id) => id.to_hex(),
            None => String::new(),
        };
        UserPublic {
            id,
            username: user.username,
            email: Some(user.email),
            created_at: now_rfc3339(),
            updated_at: now_rfc3339(),
            is_active: true,
        }
    }
}

} // verus!
