use vstd::prelude::*;
use vstd::string::*;
use crate::models::cards::Board;
use crate::models::teams::{grants, has_member, Team};
use crate::models::users::User;
use crate::oid::{is_object_id_hex, ObjectId};
use crate::text::text;
use crate::utils::errors::{concat3, require_found, CustomError};

verus! {

/// The user that an e-mail names, or "User not found".
pub fn get_user_by_email(found: Option<User>) -> (r: Result<User, CustomError>)
    ensures
        match found {
            Some(u) => r == Ok::<User, CustomError>(u),
            None => r matches Err(CustomError::NotFound(m)) && m@ == "User not found"@,
        },
{
    require_found(found, "User not found")
}

/// The team that a name names, or "Team not found".
pub fn get_team_by_name(found: Option<Team>) -> (r: Result<Team, CustomError>)
    ensures
        match found {
            Some(t) => r == Ok::<Team, CustomError>(t),
            None => r matches Err(CustomError::NotFound(m)) && m@ == "Team not found"@,
        },
{
    require_found(found, "Team not found")
}

/// The stored id of a user; a user read back without one is a server fault.
pub fn user_id(user: &User) -> (r: Result<ObjectId, CustomError>)
    ensures
        match user.id {
            Some(id) => r == Ok::<ObjectId, CustomError>(id),
            None => r matches Err(CustomError::Server(m)) && m@ == "User ID not found"@,
        },
{
    match user.id {
        Some(id) => Ok(id),
        None => Err(CustomError::Server(text("User ID not found"))),
    }
}

/// Whether the user is a member of the team.
pub fn check_team_membership(user: &User, team: &Team) -> (r: Result<bool, CustomError>)
    ensures
        match user.id {
            Some(id) => r == Ok::<bool, CustomError>(has_member(team.members@, id)),
            None => r matches Err(CustomError::Server(m)) && m@ == "User ID not found"@,
        },
{
    let id = user_id(user)?;
    Ok(team.is_member(&id))
}

/// Nothing, when the user is a member of the team; else "Forbidden".
pub fn require_team_membership(user: &User, team: &Team, team_name: &str) -> (r: Result<
    (),
    CustomError,
>)
    ensures
        match user.id {
            Some(id) => if has_member(team.members@, id) {
                r is Ok
            } else {
                r matches Err(CustomError::Forbidden(m)) && m@ == "You are not a member of team '"@
                    + team_name@ + "'"@
            },
            None => r matches Err(CustomError::Server(m)) && m@ == "User ID not found"@,
        },
{
    if !check_team_membership(user, team)? {
        return Err(CustomError::Forbidden(concat3("You are not a member of team '", team_name, "'")));
    }
    Ok(())
}

/// Whether the user's entry in the team grants the permission (no entry: no).
pub fn check_team_permission(user: &User, team: &Team, permission: &str) -> (r: Result<
    bool,
    CustomError,
>)
    ensures
        match user.id {
            Some(id) => r == Ok::<bool, CustomError>(grants(team.members@, id, permission@)),
            None => r matches Err(CustomError::Server(m)) && m@ == "User ID not found"@,
        },
{
    let id = user_id(user)?;
    Ok(team.has_permission(&id, permission))
}

/// Nothing, when the user's entry in the team grants the permission; else "Forbidden".
pub fn require_team_permission(user: &User, team: &Team, team_name: &str, permission: &str) -> (r:
    Result<(), CustomError>)
    ensures
        match user.id {
            Some(id) => if grants(team.members@, id, permission@) {
                r is Ok
            } else {
                r matches Err(CustomError::Forbidden(m)) && m@ == "You don't have '"@ + permission@
                    + "' permission for team '"@ + team_name@ + "'"@
            },
            None => r matches Err(CustomError::Server(m)) && m@ == "User ID not found"@,
        },
{
    if !check_team_permission(user, team, permission)? {
        let mut m = concat3("You don't have '", permission, "' permission for team '");
        m.append(team_name);
        m.append("'");
        return Err(CustomError::Forbidden(m));
    }
    Ok(())
}

/// The id of the board that a text names; a text that is not an object id is answered
/// "Invalid board ID".
pub fn board_object_id(board_id: &str) -> (r: Result<ObjectId, CustomError>)
    ensures
        is_object_id_hex(board_id@) ==> (r matches Ok(id) && id.value() == crate::oid::hex_value(
            board_id@,
        )),
        !is_object_id_hex(board_id@) ==> (r matches Err(CustomError::NotFound(m)) && m@
            == "Invalid board ID"@),
{
    match ObjectId::parse_str(board_id) {
        Ok(id) => Ok(id),
        Err(_) => Err(CustomError::NotFound(text("Invalid board ID"))),
    }
}

/// The board that an id names, or "Board not found".
pub fn found_board(found: Option<Board>) -> (r: Result<Board, CustomError>)
    ensures
        match found {
            Some(b) => r == Ok::<Board, CustomError>(b),
            None => r matches Err(CustomError::NotFound(m)) && m@ == "Board not found"@,
        },
{
    require_found(found, "Board not found")
}

/// The board, when the user is a member of the team that owns it.
pub fn check_board_access(board: Board, user: &User, team: &Team) -> (r: Result<Board, CustomError>)
    ensures
        match user.id {
            None => r matches Err(CustomError::Server(m)) && m@ == "User ID not found"@,
            Some(id) => if has_member(team.members@, id) {
                r == Ok::<Board, CustomError>(board)
            } else {
                r matches Err(CustomError::Forbidden(m)) && m@ == "You are not a member of team '"@
                    + board.team@ + "'"@
            },
        },
{
    require_team_membership(user, team, board.team.as_str())?;
    Ok(board)
}

/// The board, when the user may write to it: its team grants the user "write".
pub fn require_board_write_permission(board: Board, user: &User, team: &Team) -> (r: Result<
    Board,
    CustomError,
>)
    ensures
        match user.id {
            None => r matches Err(CustomError::Server(m)) && m@ == "User ID not found"@,
            Some(id) => if grants(team.members@, id, "write"@) {
                r == Ok::<Board, CustomError>(board)
            } else {
                r matches Err(CustomError::Forbidden(m)) && m@ == "You don't have '"@ + "write"@
                    + "' permission for team '"@ + board.team@ + "'"@
            },
        },
{
    require_team_permission(user, team, board.team.as_str(), "write")?;
    Ok(board)
}

/// Whether the user leads the team.
pub fn check_is_team_leader(user: &User, team: &Team) -> (r: Result<bool, CustomError>)
    ensures
        match user.id {
            Some(id) => r == Ok::<bool, CustomError>(team.leader_id == id),
            None => r matches Err(CustomError::Server(m)) && m@ == "User ID not found"@,
        },
{
    let id = user_id(user)?;
    Ok(team.is_leader(&id))
}

/// Nothing, when the user leads the team; else "Forbidden".
pub fn require_team_leader(user: &User, team: &Team) -> (r: Result<(), CustomError>)
    ensures
        match user.id {
            Some(id) => if team.leader_id == id {
                r is Ok
            } else {
                r matches Err(CustomError::Forbidden(m)) && m@
                    == "Only team leader can perform this action"@
            },
            None => r matches Err(CustomError::Server(m)) && m@ == "User ID not found"@,
        },
{
    if !check_is_team_leader(user, team)? {
        return Err(CustomError::Forbidden(text("Only team leader can perform this action")));
    }
    Ok(())
}

} // verus!
