use vstd::prelude::*;
use crate::models::slack::{text_or, SlackNotificationPayload};
use crate::text::{json_escape, json_string, push_json_string, push_str, text};

verus! {

/// A card-assignment notice that owns its texts.
#[derive(Debug)]
pub struct SlackNotification {
    pub slack_user_id: String,
    pub card_title: String,
    pub card_description: Option<String>,
    pub priority: Option<String>,
}

/// The notifier that posts notices to a Slack incoming webhook.
pub struct SlackWebhookNotifier;

/// A Slack `section` block holding one markdown text.
pub open spec fn section_block(t: Seq<char>) -> Seq<char> {
    "{\"text\":{\"text\":"@ + json_string(t) + ",\"type\":\"mrkdwn\"},\"type\":\"section\"}"@
}

/// A markdown text object, as a field of a section.
pub open spec fn markdown_field(t: Seq<char>) -> Seq<char> {
    "{\"text\":"@ + json_string(t) + ",\"type\":\"mrkdwn\"}"@
}

/// The JSON body of the notice that a user was assigned to a card: a fallback text and four
/// blocks (who was assigned, a divider, the card title in bold, and a section with the
/// description and priority fields, "No description" and "Not set" where they are missing).
pub open spec fn slack_message(
    user: Seq<char>,
    title: Seq<char>,
    description: Seq<char>,
    priority: Seq<char>,
) -> Seq<char> {
    "{\"blocks\":["@
        + section_block("<@"@ + user + "> has been assigned to a card!"@)
        + ","@
        + "{\"type\":\"divider\"}"@
        + ","@
        + section_block("*"@ + title + "*"@)
        + ","@
        + "{\"fields\":["@
        + markdown_field("*Description:*\n"@ + description)
        + ","@
        + markdown_field("*Priority:*\n"@ + priority)
        + "],\"type\":\"section\"}"@
        + "],\"text\":"@
        + json_string("You have been assigned to a card"@)
        + "}"@
}

/// The notice's body for a payload.
pub open spec fn message_for(n: SlackNotificationPayload) -> Seq<char> {
    slack_message(
        n.slack_user_id@,
        n.card_title@,
        text_or(n.card_description, "No description"@),
        text_or(n.priority, "Not set"@),
    )
}

fn push_section_block(out: &mut String, t: &str)
    ensures
        final(out)@ == old(out)@ + section_block(t@),
{
    push_str(out, "{\"text\":{\"text\":");
    push_json_string(out, t);
    push_str(out, ",\"type\":\"mrkdwn\"},\"type\":\"section\"}");
    proof {
        assert(final(out)@ =~= old(out)@ + section_block(t@));
    }
}

fn push_markdown_field(out: &mut String, t: &str)
    ensures
        final(out)@ == old(out)@ + markdown_field(t@),
{
    push_str(out, "{\"text\":");
    push_json_string(out, t);
    push_str(out, ",\"type\":\"mrkdwn\"}");
    proof {
        assert(final(out)@ =~= old(out)@ + markdown_field(t@));
    }
}

/// The JSON body of the Slack message that tells a user they were assigned to a card.
pub fn create_slack_message(notification: SlackNotificationPayload) -> (r: String)
    ensures
        r@ == message_for(notification),
{
    let mut out = text("{\"blocks\":[");

    let mut assigned = text("<@");
    push_str(&mut assigned, notification.slack_user_id.as_str());
    push_str(&mut assigned, "> has been assigned to a card!");
    push_section_block(&mut out, assigned.as_str());
    push_str(&mut out, ",");
    push_str(&mut out, "{\"type\":\"divider\"}");
    push_str(&mut out, ",");

    let mut title = text("*");
    push_str(&mut title, notification.card_title);
    push_str(&mut title, "*");
    push_section_block(&mut out, title.as_str());
    push_str(&mut out, ",");

    push_str(&mut out, "{\"fields\":[");
    let mut description = text("*Description:*\n");
    match notification.card_description {
        Some(d) => push_str(&mut description, d),
        None => push_str(&mut description, "No description"),
    }
    push_markdown_field(&mut out, description.as_str());
    push_str(&mut out, ",");
    let mut priority = text("*Priority:*\n");
    match notification.priority {
        Some(p) => push_str(&mut priority, p),
        None => push_str(&mut priority, "Not set"),
    }
    push_markdown_field(&mut out, priority.as_str());
    push_str(&mut out, "],\"type\":\"section\"}");

    push_str(&mut out, "],\"text\":");
    push_json_string(&mut out, "You have been assigned to a card");
    push_str(&mut out, "}");
    proof {
        assert(out@ =~= message_for(notification));
    }
    out
}

impl SlackWebhookNotifier {
    /// The message body for the payload.
    pub fn build_message(&self, payload: &SlackNotificationPayload) -> (r: String)
        ensures
            r@ == message_for(*payload),
    {
        create_slack_message(payload.clone())
    }
}

/// The notice to post when a card gets an assignee: the team's webhook and the message
/// body, when the team has a webhook and the assignee a Slack id; none otherwise.
pub fn assignment_notice(
    webhook_url: Option<String>,
    slack_user_id: Option<String>,
    card_title: &str,
    card_description: Option<&str>,
    priority: Option<&str>,
) -> (r: Option<(String, String)>)
    ensures
        match (webhook_url, slack_user_id) {
            (Some(w), Some(u)) => r matches Some((url, body)) && url == w && body@ == message_for(
                SlackNotificationPayload { slack_user_id: u, card_title, card_description, priority },
            ),
            _ => r is None,
        },
{
    match (webhook_url, slack_user_id) {
        (Some(w), Some(u)) => {
            let body = create_slack_message(
                SlackNotificationPayload { slack_user_id: u, card_title, card_description, priority },
            );
            Some((w, body))
        },
        _ => None,
    }
}

/// The needle stands somewhere in the text.
pub open spec fn has_infix(text: Seq<char>, needle: Seq<char>) -> bool {
    exists|i: int| 0 <= i <= text.len() - needle.len() && #[trigger] text.subrange(i, i + needle.len()) == needle
}

proof fn lemma_infix_of_concat(a: Seq<char>, b: Seq<char>, c: Seq<char>)
    ensures
        has_infix(a + b + c, b),
{
    assert((a + b + c).subrange(a.len() as int, (a.len() + b.len()) as int) =~= b);
}

proof fn lemma_assignee_shown(user: Seq<char>, title: Seq<char>, d: Seq<char>, p: Seq<char>)
    ensures
        has_infix(slack_message(user, title, d, p), json_escape("<@"@ + user + "> has been assigned to a card!"@)),
{
    let assigned = "<@"@ + user + "> has been assigned to a card!"@;
    let head = "{\"blocks\":["@ + "{\"text\":{\"text\":"@ + seq!['"'];
    let rest = seq!['"'] + ",\"type\":\"mrkdwn\"},\"type\":\"section\"}"@ + ","@
        + "{\"type\":\"divider\"}"@ + ","@ + section_block("*"@ + title + "*"@) + ","@
        + "{\"fields\":["@ + markdown_field("*Description:*\n"@ + d) + ","@
        + markdown_field("*Priority:*\n"@ + p) + "],\"type\":\"section\"}"@ + "],\"text\":"@
        + json_string("You have been assigned to a card"@) + "}"@;
    assert(slack_message(user, title, d, p) =~= head + json_escape(assigned) + rest);
    lemma_infix_of_concat(head, json_escape(assigned), rest);
}

proof fn lemma_title_shown(user: Seq<char>, title: Seq<char>, d: Seq<char>, p: Seq<char>)
    ensures
        has_infix(slack_message(user, title, d, p), "{\"text\":{\"text\":"@ + json_string("*"@ + title + "*"@)),
{
    let t = "{\"text\":{\"text\":"@ + json_string("*"@ + title + "*"@);
    let head = "{\"blocks\":["@ + section_block("<@"@ + user + "> has been assigned to a card!"@) + ","@
        + "{\"type\":\"divider\"}"@ + ","@;
    let rest = ",\"type\":\"mrkdwn\"},\"type\":\"section\"}"@ + ","@
        + "{\"fields\":["@ + markdown_field("*Description:*\n"@ + d) + ","@
        + markdown_field("*Priority:*\n"@ + p) + "],\"type\":\"section\"}"@ + "],\"text\":"@
        + json_string("You have been assigned to a card"@) + "}"@;
    assert(slack_message(user, title, d, p) =~= head + t + rest);
    lemma_infix_of_concat(head, t, rest);
}

proof fn lemma_fields_shown(user: Seq<char>, title: Seq<char>, d: Seq<char>, p: Seq<char>)
    ensures
        has_infix(slack_message(user, title, d, p), markdown_field("*Description:*\n"@ + d)),
        has_infix(slack_message(user, title, d, p), markdown_field("*Priority:*\n"@ + p)),
{
    let m = slack_message(user, title, d, p);
    let head = "{\"blocks\":["@ + section_block("<@"@ + user + "> has been assigned to a card!"@) + ","@
        + "{\"type\":\"divider\"}"@ + ","@ + section_block("*"@ + title + "*"@) + ","@ + "{\"fields\":["@;
    let df = markdown_field("*Description:*\n"@ + d);
    let pf = markdown_field("*Priority:*\n"@ + p);
    let tail = "],\"type\":\"section\"}"@ + "],\"text\":"@
        + json_string("You have been assigned to a card"@) + "}"@;
    assert(m =~= head + df + (","@ + pf + tail));
    lemma_infix_of_concat(head, df, ","@ + pf + tail);
    let head2 = head + df + ","@;
    assert(m =~= head2 + pf + tail);
    lemma_infix_of_concat(head2, pf, tail);
}

/// The notice tells the assignee what the card is: it mentions the assignee's Slack id (as JSON
/// escapes it), shows the title in bold, and holds a markdown field "*Description:*\n" with the
/// card's description ("No description" only when it has none) and a markdown field
/// "*Priority:*\n" with the card's priority ("Not set" only when it has none).
pub proof fn notice_shows_the_card(n: SlackNotificationPayload)
    ensures
        has_infix(message_for(n), json_escape("<@"@ + n.slack_user_id@ + "> has been assigned to a card!"@)),
        has_infix(message_for(n), "{\"text\":{\"text\":"@ + json_string("*"@ + n.card_title@ + "*"@)),
        match n.card_description {
            Some(d) => has_infix(message_for(n), "{\"text\":"@ + json_string("*Description:*\n"@ + d@)
                + ",\"type\":\"mrkdwn\"}"@),
            None => has_infix(message_for(n), "{\"text\":"@ + json_string("*Description:*\nNo description"@)
                + ",\"type\":\"mrkdwn\"}"@),
        },
        match n.priority {
            Some(p) => has_infix(message_for(n), "{\"text\":"@ + json_string("*Priority:*\n"@ + p@)
                + ",\"type\":\"mrkdwn\"}"@),
            None => has_infix(message_for(n), "{\"text\":"@ + json_string("*Priority:*\nNot set"@)
                + ",\"type\":\"mrkdwn\"}"@),
        },
{
    let user = n.slack_user_id@;
    let title = n.card_title@;
    let d = text_or(n.card_description, "No description"@);
    let p = text_or(n.priority, "Not set"@);
    lemma_assignee_shown(user, title, d, p);
    lemma_title_shown(user, title, d, p);
    lemma_fields_shown(user, title, d, p);
    reveal_strlit("*Description:*\n");
    reveal_strlit("No description");
    reveal_strlit("*Description:*\nNo description");
    reveal_strlit("*Priority:*\n");
    reveal_strlit("Not set");
    reveal_strlit("*Priority:*\nNot set");
    assert("*Description:*\n"@ + "No description"@ =~= "*Description:*\nNo description"@);
    assert("*Priority:*\n"@ + "Not set"@ =~= "*Priority:*\nNot set"@);
}

} // verus!
