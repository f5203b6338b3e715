use vstd::prelude::*;
use crate::oid::{hex_value, is_object_id_hex, ObjectId};
use crate::text::text;

verus! {

/// The id that a user-id text names; other texts are answered "Invalid ID format".
pub fn get_user_by_id(user_id: &str) -> (r: Result<ObjectId, String>)
    ensures
        is_object_id_hex(user_id@) ==> (r matches Ok(id) && id.value() == hex_value(user_id@)),
        !is_object_id_hex(user_id@) ==> (r matches Err(m) && m@ == "Invalid ID format"@),
{
    match ObjectId::parse_str(user_id) {
        Ok(id) => Ok(id),
        Err(_) => Err(text("Invalid ID format")),
    }
}

} // verus!
