use vstd::prelude::*;
use crate::oid::ObjectId;
use crate::text::text;

verus! {

#[derive(Debug)]
pub struct Board {
    pub id: Option<ObjectId>,
    pub team: String,
    pub iteration: Option<String>,
    pub columns: Vec<Column>,
}

#[derive(Debug)]
pub struct Card {
    pub id: Option<ObjectId>,
    pub title: String,
    pub description: Option<String>,
    pub assignee: Option<String>,
    pub story_point: Option<u8>,
    pub priority: Option<String>,
}

#[derive(Debug)]
pub struct Column {
    pub title: String,
    pub cards: Vec<Card>,
}

pub struct GetTeamPayload {
    pub team: String,
}

#[derive(Debug)]
pub struct AddCardPayload {
    pub title: String,
    pub description: Option<String>,
    pub column_name: String,
    pub story_point: Option<u8>,
    pub team: String,
    pub assignee: Option<String>,
    pub priority: Option<String>,
}

#[derive(Debug)]
pub struct DeleteCardPayload {
    pub card_id: String,
    pub column_name: String,
    pub team: String,
}

#[derive(Debug)]
pub struct EditCardPayload {
    pub card_id: String,
    pub title: String,
    pub description: String,
    pub column_name: String,
    pub story_point: Option<u8>,
    pub assignee: String,
    pub team: String,
    pub priority: Option<String>,
}

pub struct TeamQuery {
    pub team: String,
}

/// A copy of an optional text.
pub fn clone_opt_text(s: &Option<String>) -> (r: Option<String>)
    ensures
        r == *s,
{
    match s {
        Some(x) => Some(x.clone()),
        None => None,
    }
}

impl Clone for Card {
    fn clone(&self) -> (r: Self)
        ensures
            r == *self,
    {
        Card {
            id: self.id,
            title: self.title.clone(),
            description: clone_opt_text(&self.description),
            assignee: clone_opt_text(&self.assignee),
            story_point: self.story_point,
            priority: clone_opt_text(&self.priority),
        }
    }
}

impl Column {
    /// An empty column with the given title.
    pub open spec fn is_empty_titled(self, title: Seq<char>) -> bool {
        self.title@ == title && self.cards@.len() == 0
    }
}

/// A new board of the team with the empty columns "To Do", "In Progress" and "Done".
pub open spec fn is_default_board(b: Board, team: String) -> bool {
    &&& b.id is None
    &&& b.team == team
    &&& b.iteration is None
    &&& b.columns@.len() == 3
    &&& b.columns@[0].is_empty_titled("To Do"@)
    &&& b.columns@[1].is_empty_titled("In Progress"@)
    &&& b.columns@[2].is_empty_titled("Done"@)
}

impl Board {
    /// A board of the team with no columns.
    pub fn new(team: String) -> (b: Board)
        ensures
            b.id is None,
            b.team == team,
            b.iteration is None,
            b.columns@.len() == 0,
    {
        Board { id: None, team, iteration: None, columns: Vec::new() }
    }

    /// A board of the team with the empty columns "To Do", "In Progress" and "Done".
    pub fn create_default(team: String) -> (b: Board)
        ensures
            is_default_board(b, team),
    {
        let mut columns = Vec::new();
        columns.push(Column { title: text("To Do"), cards: Vec::new() });
        columns.push(Column { title: text("In Progress"), cards: Vec::new() });
        columns.push(Column { title: text("Done"), cards: Vec::new() });
        Board { id: None, team, iteration: None, columns }
    }
}

} // verus!
