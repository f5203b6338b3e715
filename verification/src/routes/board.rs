use vstd::prelude::*;
use crate::models::cards::Board;

verus! {

#[derive(Debug)]
pub struct CreateBoardPayload {
    pub team: String,
    pub board_name: String,
}

#[derive(Debug)]
pub struct UpdateBoardQuery {
    pub board: Board,
}

} // verus!
