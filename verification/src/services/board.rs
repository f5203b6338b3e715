use vstd::prelude::*;
use crate::models::cards::{is_default_board, Board};
use crate::oid::{hex_value, is_object_id_hex, ObjectId};
use crate::text::text;
use crate::utils::errors::CustomError;

verus! {

/// The id of the board that a text names; other texts are answered "Invalid board ID".
pub fn get_board_by_id(board_id: &str) -> (r: Result<ObjectId, CustomError>)
    ensures
        is_object_id_hex(board_id@) ==> (r matches Ok(id) && id.value() == hex_value(board_id@)),
        !is_object_id_hex(board_id@) ==> (r matches Err(CustomError::NotFound(m)) && m@
            == "Invalid board ID"@),
{
    crate::services::permission::board_object_id(board_id)
}

/// The team's first board, or — when it has none — a new default board for it, which is
/// then to be stored (the flag says so).
pub fn get_board_by_team(boards: Vec<Board>, team_name: String) -> (r: (Board, bool))
    ensures
        boards@.len() > 0 ==> r.0 == boards@[0] && !r.1,
        boards@.len() == 0 ==> r.1 && is_default_board(r.0, team_name),
{
    let mut boards = boards;
    if boards.len() > 0 {
        (boards.remove(0), false)
    } else {
        (Board::create_default(team_name), true)
    }
}

/// A new default board for the team.
pub fn create_board(team_name: String) -> (r: Board)
    ensures
        is_default_board(r, team_name),
{
    Board::create_default(team_name)
}

/// The id a board is stored under; "Missing board ID" when it has none.
pub fn update_board(board: &Board) -> (r: Result<ObjectId, CustomError>)
    ensures
        match board.id {
            Some(id) => r == Ok::<ObjectId, CustomError>(id),
            None => r matches Err(CustomError::NotFound(m)) && m@ == "Missing board ID"@,
        },
{
    match board.id {
        Some(id) => Ok(id),
        None => Err(CustomError::NotFound(text("Missing board ID"))),
    }
}

/// The id of the board to delete; other texts are answered "Invalid board ID".
pub fn delete_board(board_id: &str) -> (r: Result<ObjectId, CustomError>)
    ensures
        is_object_id_hex(board_id@) ==> (r matches Ok(id) && id.value() == hex_value(board_id@)),
        !is_object_id_hex(board_id@) ==> (r matches Err(CustomError::NotFound(m)) && m@
            == "Invalid board ID"@),
{
    crate::services::permission::board_object_id(board_id)
}

} // verus!
