use vstd::prelude::*;
use vstd::string::*;
use crate::models::users::User;
use crate::oid::{hex_value, is_object_id_hex, ObjectId};
use crate::text::text;
use crate::utils::errors::{concat3, require_found, CustomError};

verus! {

/// The user that an e-mail names, or the text "User not found".
pub fn get_user_by_email(found: Option<User>) -> (r: Result<User, String>)
    ensures
        match found {
            Some(u) => r == Ok::<User, String>(u),
            None => r matches Err(m) && m@ == "User not found"@,
        },
{
    match found {
        Some(u) => Ok(u),
        None => Err(text("User not found")),
    }
}

/// The id of the user whose Slack id is to be set; a text that is not an object id is
/// answered with a not-found error that quotes it.
pub fn update_user_slack_id(user_id: &str) -> (r: Result<ObjectId, CustomError>)
    ensures
        is_object_id_hex(user_id@) ==> (r matches Ok(id) && id.value() == hex_value(user_id@)),
        !is_object_id_hex(user_id@) ==> (r matches Err(CustomError::NotFound(m)) && m@
            == "Invalid user ID format: '"@ + user_id@ + "'. Expected MongoDB ObjectId format."@),
{
    match ObjectId::parse_str(user_id) {
        Ok(id) => Ok(id),
        Err(_) => Err(
            CustomError::NotFound(
                concat3("Invalid user ID format: '", user_id, "'. Expected MongoDB ObjectId format."),
            ),
        ),
    }
}

/// The user whose Slack id was set, as it was found; "User not found" when there was none.
pub fn slack_id_updated(found: Option<User>) -> (r: Result<User, CustomError>)
    ensures
        match found {
            Some(u) => r == Ok::<User, CustomError>(u),
            None => r matches Err(CustomError::NotFound(m)) && m@ == "User not found"@,
        },
{
    require_found(found, "User not found")
}

/// The user that a user name names, or "User not found".
pub fn get_user_by_username(found: Option<User>) -> (r: Result<User, CustomError>)
    ensures
        match found {
            Some(u) => r == Ok::<User, CustomError>(u),
            None => r matches Err(CustomError::NotFound(m)) && m@ == "User not found"@,
        },
{
    require_found(found, "User not found")
}

} // verus!
