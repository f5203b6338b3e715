use vstd::prelude::*;
use vstd::string::*;
use crate::models::cards::{clone_opt_text, AddCardPayload, Board, Card, Column, DeleteCardPayload, EditCardPayload};
use crate::oid::{hex_value, is_object_id_hex, ObjectId};
use crate::text::{opt_text, text, text_eq, texts};
use crate::utils::errors::CustomError;

verus! {

broadcast use vstd::seq_lib::group_seq_properties;

/// `k` is the first column with the title.
pub open spec fn is_first_column(cols: Seq<Column>, title: Seq<char>, k: int) -> bool {
    &&& 0 <= k < cols.len()
    &&& cols[k].title@ == title
    &&& forall|j: int| 0 <= j < k ==> (#[trigger] cols[j]).title@ != title
}

/// No column has the title.
pub open spec fn no_column(cols: Seq<Column>, title: Seq<char>) -> bool {
    forall|j: int| 0 <= j < cols.len() ==> (#[trigger] cols[j]).title@ != title
}

/// `k` is the first card with the id.
pub open spec fn is_first_card(cards: Seq<Card>, id: ObjectId, k: int) -> bool {
    &&& 0 <= k < cards.len()
    &&& cards[k].id == Some(id)
    &&& forall|j: int| 0 <= j < k ==> (#[trigger] cards[j]).id != Some(id)
}

/// No card has the id.
pub open spec fn no_card(cards: Seq<Card>, id: ObjectId) -> bool {
    forall|j: int| 0 <= j < cards.len() ==> (#[trigger] cards[j]).id != Some(id)
}

/// `after` is `before` with column `k`'s cards replaced by `cards`, all else unchanged.
pub open spec fn column_cards_set(before: Board, after: Board, k: int, cards: Seq<Card>) -> bool {
    &&& after.id == before.id
    &&& after.team == before.team
    &&& after.iteration == before.iteration
    &&& after.columns@.len() == before.columns@.len()
    &&& forall|j: int|
        0 <= j < before.columns@.len() && j != k ==> #[trigger] after.columns@[j]
            == before.columns@[j]
    &&& after.columns@[k].title == before.columns@[k].title
    &&& after.columns@[k].cards@ == cards
}

/// The card holds what the payload asks for.
pub open spec fn card_from_payload(card: Card, payload: AddCardPayload) -> bool {
    &&& card.id is Some
    &&& card.title == payload.title
    &&& card.description == payload.description
    &&& card.assignee == payload.assignee
    &&& card.story_point == payload.story_point
    &&& card.priority == payload.priority
}

/// The first of the team's boards, or "Board not found".
pub fn first_board(boards: Vec<Board>) -> (r: Result<Board, CustomError>)
    ensures
        boards@.len() > 0 ==> r == Ok::<Board, CustomError>(boards@[0]),
        boards@.len() == 0 ==> (r matches Err(CustomError::NotFound(m)) && m@ == "Board not found"@),
{
    let mut boards = boards;
    if boards.len() == 0 {
        return Err(CustomError::NotFound(text("Board not found")));
    }
    Ok(boards.remove(0))
}

/// The index of the first column with the title.
fn find_column(cols: &Vec<Column>, title: &str) -> (r: Option<usize>)
    ensures
        match r {
            Some(k) => is_first_column(cols@, title@, k as int),
            None => no_column(cols@, title@),
        },
{
    let n = cols.len();
    for i in 0..n
        invariant
            n == cols@.len(),
            forall|j: int| 0 <= j < i ==> (#[trigger] cols@[j]).title@ != title@,
    {
        if text_eq(cols[i].title.as_str(), title) {
            return Some(i);
        }
    }
    None
}

/// The index of the first card with the id.
fn find_card(cards: &Vec<Card>, id: &ObjectId) -> (r: Option<usize>)
    ensures
        match r {
            Some(k) => is_first_card(cards@, *id, k as int),
            None => no_card(cards@, *id),
        },
{
    let n = cards.len();
    for i in 0..n
        invariant
            n == cards@.len(),
            forall|j: int| 0 <= j < i ==> (#[trigger] cards@[j]).id != Some(*id),
    {
        if cards[i].id == Some(*id) {
            return Some(i);
        }
    }
    None
}

/// Replaces the cards of column `k`.
fn set_column_cards(board: &mut Board, k: usize, cards: Vec<Card>)
    requires
        k < old(board).columns@.len(),
    ensures
        column_cards_set(*old(board), *final(board), k as int, cards@),
{
    let mut col = Column { title: String::new(), cards: Vec::new() };
    board.columns.set_and_swap(k, &mut col);
    col.cards = cards;
    board.columns.set_and_swap(k, &mut col);
}

/// Takes out the cards of column `k`, leaving it empty.
fn take_column_cards(board: &mut Board, k: usize) -> (r: Vec<Card>)
    requires
        k < old(board).columns@.len(),
    ensures
        r@ == old(board).columns@[k as int].cards@,
        column_cards_set(*old(board), *final(board), k as int, Seq::empty()),
{
    let mut col = Column { title: String::new(), cards: Vec::new() };
    board.columns.set_and_swap(k, &mut col);
    let mut cards = Vec::new();
    std::mem::swap(&mut cards, &mut col.cards);
    board.columns.set_and_swap(k, &mut col);
    cards
}

/// The outcome of adding a card: the new card, and the assignee to tell about it (the card's
/// assignee, when it has one).
#[derive(Debug)]
pub struct CardAdded {
    pub card: Card,
    pub assignee_to_notify: Option<String>,
}

/// Adds a new card, with a fresh id, at the end of the first column with the asked-for
/// title; "Column not found" (board unchanged) when there is none. The card's assignee, if
/// any, is to be told.
pub fn add_card(board: &mut Board, payload: &AddCardPayload) -> (r: Result<CardAdded, CustomError>)
    ensures
        match r {
            Ok(added) => added.assignee_to_notify == payload.assignee && ({
                let card = added.card;
                card_from_payload(card, *payload) && exists|k: int|
                is_first_column(old(board).columns@, payload.column_name@, k) && column_cards_set(
                    *old(board),
                    *final(board),
                    k,
                    old(board).columns@[k].cards@.push(card),
                )
            }),
            Err(e) => no_column(old(board).columns@, payload.column_name@) && *final(board)
                == *old(board) && (e matches CustomError::NotFound(m) && m@ == "Column not found"@),
        },
{
    let k = match find_column(&board.columns, payload.column_name.as_str()) {
        Some(k) => k,
        None => return Err(CustomError::NotFound(text("Column not found"))),
    };
    let card = Card {
        id: Some(ObjectId::new()),
        title: payload.title.clone(),
        description: clone_opt_text(&payload.description),
        assignee: clone_opt_text(&payload.assignee),
        story_point: payload.story_point,
        priority: clone_opt_text(&payload.priority),
    };
    let ghost before = *board;
    let mut cards = take_column_cards(board, k);
    cards.push(card.clone());
    set_column_cards(board, k, cards);
    proof {
        assert(is_first_column(before.columns@, payload.column_name@, k as int));
    }
    Ok(CardAdded { card, assignee_to_notify: clone_opt_text(&payload.assignee) })
}

/// The titles of the columns of the team's first board; "Board not found" when the team has
/// no board.
pub fn get_columns(boards: &Vec<Board>) -> (r: Result<Vec<String>, CustomError>)
    ensures
        boards@.len() > 0 ==> (r matches Ok(titles) && titles@.len() == boards@[0].columns@.len()
            && forall|i: int|
            0 <= i < titles@.len() ==> #[trigger] titles@[i] == boards@[0].columns@[i].title),
        boards@.len() == 0 ==> (r matches Err(CustomError::NotFound(m)) && m@ == "Board not found"@),
{
    if boards.len() == 0 {
        return Err(CustomError::NotFound(text("Board not found")));
    }
    let cols = &boards[0].columns;
    let mut titles: Vec<String> = Vec::new();
    let n = cols.len();
    for i in 0..n
        invariant
            n == cols@.len(),
            cols == boards@[0].columns,
            titles@.len() == i,
            forall|j: int| 0 <= j < i ==> #[trigger] titles@[j] == cols@[j].title,
    {
        titles.push(cols[i].title.clone());
    }
    Ok(titles)
}

/// The id of the card that a text names; other texts are answered "Invalid card ID".
pub fn card_object_id(card_id: &str) -> (r: Result<ObjectId, CustomError>)
    ensures
        is_object_id_hex(card_id@) ==> (r matches Ok(id) && id.value() == hex_value(card_id@)),
        !is_object_id_hex(card_id@) ==> (r matches Err(CustomError::NotFound(m)) && m@
            == "Invalid card ID"@),
{
    match ObjectId::parse_str(card_id) {
        Ok(id) => Ok(id),
        Err(_) => Err(CustomError::NotFound(text("Invalid card ID"))),
    }
}

/// Holds of the cards other than the one with the id.
pub open spec fn card_other_than(id: ObjectId) -> spec_fn(Card) -> bool {
    |c: Card| c.id != Some(id)
}

/// Removes every card with the id from the first column with the asked-for title, and gives
/// the board's id to store it under.
pub fn delete_card(board: &mut Board, payload: &DeleteCardPayload) -> (r: Result<ObjectId, CustomError>)
    ensures
        !is_object_id_hex(payload.card_id@) ==> (r matches Err(CustomError::NotFound(m)) && m@
            == "Invalid card ID"@ && *final(board) == *old(board)),
        is_object_id_hex(payload.card_id@) && no_column(old(board).columns@, payload.column_name@)
            ==> (r matches Err(CustomError::NotFound(m)) && m@ == "Column not found"@ && *final(board)
            == *old(board)),
        is_object_id_hex(payload.card_id@) && !no_column(old(board).columns@, payload.column_name@)
            ==> exists|k: int, id: ObjectId|
            id.value() == hex_value(payload.card_id@) && is_first_column(
                old(board).columns@,
                payload.column_name@,
                k,
            ) && column_cards_set(
                *old(board),
                *final(board),
                k,
                old(board).columns@[k].cards@.filter(card_other_than(id)),
            ) && match old(board).id {
                Some(bid) => r == Ok::<ObjectId, CustomError>(bid),
                None => r matches Err(CustomError::NotFound(m)) && m@ == "Missing board ID"@,
            },
{
    let id = card_object_id(payload.card_id.as_str())?;
    let k = match find_column(&board.columns, payload.column_name.as_str()) {
        Some(k) => k,
        None => return Err(CustomError::NotFound(text("Column not found"))),
    };
    let ghost before = *board;
    let cards = take_column_cards(board, k);
    let ghost orig = cards@;
    let ghost pred = card_other_than(id);
    let mut rest = cards;
    let mut kept: Vec<Card> = Vec::new();
    let n = rest.len();
    let mut i: usize = 0;
    while i < n
        invariant
            n == orig.len(),
            0 <= i <= n,
            pred == card_other_than(id),
            rest@ == orig.skip(i as int),
            kept@ == orig.take(i as int).filter(pred),
        decreases n - i,
    {
        let c = rest.remove(0);
        proof {
            assert(c == orig[i as int]);
            orig.lemma_take_succ_push(i as int);
            orig.take(i as int).lemma_filter_push(c, pred);
            assert(rest@ =~= orig.skip(i + 1));
        }
        if c.id != Some(id) {
            kept.push(c);
        }
        i = i + 1;
    }
    proof {
        assert(orig.take(n as int) =~= orig);
    }
    set_column_cards(board, k, kept);
    proof {
        assert(is_first_column(before.columns@, payload.column_name@, k as int));
    }
    match board.id {
        Some(bid) => Ok(bid),
        None => Err(CustomError::NotFound(text("Missing board ID"))),
    }
}

/// Deleting the card that was just added, by its id, gives the board back as it was, when no
/// card of that column had the id before.
pub proof fn add_then_delete_restores(b0: Board, b1: Board, b2: Board, k: int, card: Card, id: ObjectId)
    requires
        0 <= k < b0.columns@.len(),
        card.id == Some(id),
        no_card(b0.columns@[k].cards@, id),
        column_cards_set(b0, b1, k, b0.columns@[k].cards@.push(card)),
        column_cards_set(b1, b2, k, b1.columns@[k].cards@.filter(card_other_than(id))),
    ensures
        b2.id == b0.id,
        b2.team == b0.team,
        b2.iteration == b0.iteration,
        b2.columns@.len() == b0.columns@.len(),
        forall|j: int|
            0 <= j < b0.columns@.len() ==> (#[trigger] b2.columns@[j]).title == b0.columns@[j].title
                && b2.columns@[j].cards@ == b0.columns@[j].cards@,
{
    let cards = b0.columns@[k].cards@;
    let pred = card_other_than(id);
    lemma_filter_keeps_all(cards, pred);
    cards.lemma_filter_push(card, pred);
    assert(b1.columns@[k].cards@.filter(pred) =~= cards);
    assert forall|j: int| 0 <= j < b0.columns@.len() implies (#[trigger] b2.columns@[j]).title
        == b0.columns@[j].title && b2.columns@[j].cards@ == b0.columns@[j].cards@ by {
        if j != k {
            assert(b2.columns@[j] == b1.columns@[j]);
        }
    }
}

/// Filtering by a predicate that every element meets keeps the sequence.
proof fn lemma_filter_keeps_all(s: Seq<Card>, pred: spec_fn(Card) -> bool)
    requires
        forall|i: int| 0 <= i < s.len() ==> pred(#[trigger] s[i]),
    ensures
        s.filter(pred) == s,
    decreases s.len(),
{
    reveal(Seq::filter);
    if s.len() > 0 {
        lemma_filter_keeps_all(s.drop_last(), pred);
        assert(s.drop_last().push(s.last()) =~= s);
    }
}

/// The card holds what the edit asks for, keeping its id.
pub open spec fn card_edited(before: Card, after: Card, payload: EditCardPayload) -> bool {
    &&& after.id == before.id
    &&& after.title == payload.title
    &&& after.description == Some(payload.description)
    &&& after.assignee == Some(payload.assignee)
    &&& after.story_point == payload.story_point
    &&& after.priority == payload.priority
}

/// Editing a card twice with the same request is editing it once, and the second edit
/// reports no change of assignee.
pub proof fn repeated_edit_changes_nothing(before: Card, once: Card, twice: Card, payload: EditCardPayload)
    requires
        card_edited(before, once, payload),
        card_edited(once, twice, payload),
    ensures
        twice == once,
        opt_text(once.assignee) == Some(payload.assignee@),
{
}

/// Whether a card's assignee changes to the new one (a card with no assignee gets one).
pub fn assignee_changed(old_assignee: &Option<String>, new_assignee: &String) -> (r: bool)
    ensures
        r == (opt_text(*old_assignee) != Some(new_assignee@)),
{
    match old_assignee {
        Some(a) => !text_eq(a.as_str(), new_assignee.as_str()),
        None => true,
    }
}

/// The outcome of an edit: the edited card, and whether its assignee changed.
#[derive(Debug)]
pub struct CardEdit {
    pub card: Card,
    pub assignee_changed: bool,
}

/// Edits the first card with the id in the first column with the asked-for title.
pub fn edit_card(board: &mut Board, payload: &EditCardPayload) -> (r: Result<CardEdit, CustomError>)
    ensures
        !is_object_id_hex(payload.card_id@) ==> (r matches Err(CustomError::NotFound(m)) && m@
            == "Invalid card ID"@ && *final(board) == *old(board)),
        is_object_id_hex(payload.card_id@) && no_column(old(board).columns@, payload.column_name@)
            ==> (r matches Err(CustomError::NotFound(m)) && m@ == "Column not found"@ && *final(board)
            == *old(board)),
        is_object_id_hex(payload.card_id@) && !no_column(old(board).columns@, payload.column_name@)
            ==> exists|k: int, id: ObjectId|
            id.value() == hex_value(payload.card_id@) && is_first_column(
                old(board).columns@,
                payload.column_name@,
                k,
            ) && ({
                let cards = old(board).columns@[k].cards@;
                if no_card(cards, id) {
                    (r matches Err(CustomError::NotFound(m)) && m@ == "Card not found"@)
                        && *final(board) == *old(board)
                } else {
                    exists|c: int|
                        is_first_card(cards, id, c) && (r matches Ok(edit) && card_edited(
                            cards[c],
                            edit.card,
                            *payload,
                        ) && edit.assignee_changed == (opt_text(cards[c].assignee) != Some(
                            payload.assignee@,
                        )) && column_cards_set(
                            *old(board),
                            *final(board),
                            k,
                            cards.update(c, edit.card),
                        ))
                }
            }),
{
    let id = card_object_id(payload.card_id.as_str())?;
    let k = match find_column(&board.columns, payload.column_name.as_str()) {
        Some(k) => k,
        None => return Err(CustomError::NotFound(text("Column not found"))),
    };
    let c = match find_card(&board.columns[k].cards, &id) {
        Some(c) => c,
        None => return Err(CustomError::NotFound(text("Card not found"))),
    };
    let ghost before = *board;
    let mut cards = take_column_cards(board, k);
    let changed = assignee_changed(&cards[c].assignee, &payload.assignee);
    let edited = Card {
        id: cards[c].id,
        title: payload.title.clone(),
        description: Some(payload.description.clone()),
        assignee: Some(payload.assignee.clone()),
        story_point: payload.story_point,
        priority: clone_opt_text(&payload.priority),
    };
    cards.set(c, edited.clone());
    set_column_cards(board, k, cards);
    proof {
        assert(is_first_column(before.columns@, payload.column_name@, k as int));
        assert(is_first_card(before.columns@[k as int].cards@, id, c as int));
    }
    Ok(CardEdit { card: edited, assignee_changed: changed })
}

} // verus!
