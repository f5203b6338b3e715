use vstd::prelude::*;
use crate::models::users::{User, UserPublic, UsersResponse};
use crate::oid::{hex_value, is_lower_object_id_hex};
use crate::text::text;
use crate::utils::errors::CustomError;

verus! {

/// 200 with the public view of every user (in order), or 500 with the error text and no
/// users.
pub fn all_users_reply(r: Result<Vec<User>, String>) -> (out: (u16, UsersResponse))
    requires
        r matches Ok(us) ==> forall|i: int| 0 <= i < us@.len() ==> (#[trigger] us@[i]).id is Some,
    ensures
        match r {
            Ok(us) => out.0 == 200 && out.1.success && out.1.users@.len() == us@.len() && (forall|i: int|
                0 <= i < us@.len() ==> {
                    let p = #[trigger] out.1.users@[i];
                    &&& is_lower_object_id_hex(p.id@)
                    &&& hex_value(p.id@) == us@[i].id.unwrap().value()
                    &&& p.username == us@[i].username
                    &&& p.email == Some(us@[i].email)
                    &&& p.is_active
                }) && (out.1.message matches Some(m) && m@ == "Users retrieved successfully"@),
            Err(e) => out.0 == 500 && !out.1.success && out.1.users@.len() == 0 && out.1.message == Some(e),
        },
{
    match r {
        Ok(users) => {
            let ghost orig = users@;
            let mut rest = users;
            let mut public: Vec<UserPublic> = Vec::new();
            let n = rest.len();
            let mut k: usize = 0;
            while k < n
                invariant
                    n == orig.len(),
                    0 <= k <= n,
                    rest@ == orig.skip(k as int),
                    forall|i: int| 0 <= i < orig.len() ==> (#[trigger] orig[i]).id is Some,
                    public@.len() == k,
                    forall|i: int|
                        0 <= i < k ==> {
                            let p = #[trigger] public@[i];
                            &&& is_lower_object_id_hex(p.id@)
                            &&& hex_value(p.id@) == orig[i].id.unwrap().value()
                            &&& p.username == orig[i].username
                            &&& p.email == Some(orig[i].email)
                            &&& p.is_active
                        },
                decreases n - k,
            {
                let u = rest.remove(0);
                proof {
                    assert(u == orig[k as int]);
                    assert(rest@ =~= orig.skip(k + 1));
                }
                public.push(UserPublic::from_user(u));
                k = k + 1;
            }
            (
                200,
                UsersResponse {
                    success: true,
                    users: public,
                    message: Some(text("Users retrieved successfully")),
                },
            )
        },
        Err(e) => (500, UsersResponse { success: false, users: Vec::new(), message: Some(e) }),
    }
}

/// What the Slack-id update answers: the public view of the user and a message, or 500 with
/// the error's message.
pub fn slack_id_reply(r: Result<User, CustomError>) -> (out: (u16, Result<UserPublic, String>))
    requires
        r matches Ok(u) ==> u.id is Some,
    ensures
        match r {
            Ok(u) => out.0 == 200 && (out.1 matches Ok(p) && p.username == u.username
                && is_lower_object_id_hex(p.id@) && hex_value(p.id@) == u.id.unwrap().value() && p.email
                == Some(u.email) && p.is_active),
            Err(e) => out.0 == 500 && (out.1 matches Err(m) && m@ == e.label() + e.detail()),
        },
{
    match r {
        Ok(u) => (200, Ok(UserPublic::from_user(u))),
        Err(e) => (500, Err(e.to_string())),
    }
}

} // verus!
