use vstd::prelude::*;

verus! {

/// What a card-assignment notice says: who was assigned, and the card's title, description
/// and priority.
#[derive(Debug)]
pub struct SlackNotificationPayload<'a> {
    pub slack_user_id: String,
    pub card_title: &'a str,
    pub card_description: Option<&'a str>,
    pub priority: Option<&'a str>,
}

impl<'a> Clone for SlackNotificationPayload<'a> {
    fn clone(&self) -> (r: Self)
        ensures
            r == *self,
    {
        SlackNotificationPayload {
            slack_user_id: self.slack_user_id.clone(),
            card_title: self.card_title,
            card_description: self.card_description,
            priority: self.priority,
        }
    }
}

/// The text of an optional borrowed text, or the fallback.
pub open spec fn text_or(s: Option<&str>, fallback: Seq<char>) -> Seq<char> {
    match s {
        Some(t) => t@,
        None => fallback,
    }
}

} // verus!
