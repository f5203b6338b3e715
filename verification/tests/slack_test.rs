use kanban_backend::models::slack::SlackNotificationPayload;
use kanban_backend::services::slack::{assignment_notice, create_slack_message, SlackNotification, SlackWebhookNotifier};
use std::collections::HashMap;

fn parse(body: &str) -> HashMap<String, serde_json::Value> {
    serde_json::from_str(body).expect("the message is a JSON object")
}

#[test]
fn test_create_slack_message_with_all_fields() {
    let notification = SlackNotificationPayload {
        slack_user_id: "U01ABC2DEF3".to_string(),
        card_title: "Test Card",
        card_description: Some("Test description"),
        priority: Some("High"),
    };

    let message = parse(&create_slack_message(notification));

    assert!(message.contains_key("text"));
    assert!(message.contains_key("blocks"));

    let blocks = message.get("blocks").unwrap().as_array().unwrap();
    assert_eq!(blocks.len(), 4);

    // First block: user assignment message
    let first_block = &blocks[0];
    assert_eq!(first_block["type"], "section");
    let text_content = first_block["text"]["text"].as_str().unwrap();
    assert!(text_content.contains("U01ABC2DEF3"));
    assert!(text_content.contains("has been assigned to a card"));

    // Second block: divider
    let second_block = &blocks[1];
    assert_eq!(second_block["type"], "divider");

    // Third block: card title
    let third_block = &blocks[2];
    assert_eq!(third_block["type"], "section");
    let title_content = third_block["text"]["text"].as_str().unwrap();
    assert!(title_content.contains("Test Card"));
}

#[test]
fn test_create_slack_message_with_minimal_fields() {
    let notification = SlackNotificationPayload {
        slack_user_id: "U01XYZ789".to_string(),
        card_title: "Minimal Card",
        card_description: None,
        priority: None,
    };

    let message = parse(&create_slack_message(notification));

    assert!(message.contains_key("text"));
    assert!(message.contains_key("blocks"));

    let blocks = message.get("blocks").unwrap().as_array().unwrap();
    assert_eq!(blocks.len(), 4);

    // Fourth block: description and priority fields
    let fourth_block = &blocks[3];
    assert_eq!(fourth_block["type"], "section");
    let fields = fourth_block["fields"].as_array().unwrap();

    let description_field = &fields[0];
    assert!(description_field["text"]
        .as_str()
        .unwrap()
        .contains("No description"));

    let priority_field = &fields[1];
    assert!(priority_field["text"].as_str().unwrap().contains("Not set"));
}

#[test]
fn test_build_message_has_blocks() {
    let payload = SlackNotificationPayload {
        slack_user_id: "U01ABC2DEF3".to_string(),
        card_title: "Test Card",
        card_description: Some("Test description"),
        priority: Some("High"),
    };

    let message = parse(&SlackWebhookNotifier.build_message(&payload));

    assert!(message.contains_key("text"));
    assert!(message.contains_key("blocks"));

    let blocks = message.get("blocks").unwrap().as_array().unwrap();
    assert_eq!(blocks.len(), 4);
}

#[test]
fn test_slack_notification_creation() {
    let notification = SlackNotification {
        slack_user_id: "U01ABC2DEF3".to_string(),
        card_title: "Test Card".to_string(),
        card_description: Some("Test description".to_string()),
        priority: Some("High".to_string()),
    };

    assert_eq!(notification.slack_user_id, "U01ABC2DEF3");
    assert_eq!(notification.card_title, "Test Card");
    assert_eq!(
        notification.card_description,
        Some("Test description".to_string())
    );
    assert_eq!(notification.priority, Some("High".to_string()));
}

#[test]
fn slack_message_matches_serde_json_layout() {
    let payload = SlackNotificationPayload {
        slack_user_id: "U1".to_string(),
        card_title: "Fix \"login\"\\ bug\n\ttoday",
        card_description: Some("line\u{1}break"),
        priority: None,
    };
    let body = create_slack_message(payload);
    let expected = r#"{"blocks":[{"text":{"text":"<@U1> has been assigned to a card!","type":"mrkdwn"},"type":"section"},{"type":"divider"},{"text":{"text":"*Fix \"login\"\\ bug\n\ttoday*","type":"mrkdwn"},"type":"section"},{"fields":[{"text":"*Description:*\nline\u0001break","type":"mrkdwn"},{"text":"*Priority:*\nNot set","type":"mrkdwn"}],"type":"section"}],"text":"You have been assigned to a card"}"#;
    assert_eq!(body, expected);
    // serde_json writes object keys in sorted order, as the library does: a parse and a
    // re-serialisation give back the same bytes.
    let value: serde_json::Value = serde_json::from_str(&body).unwrap();
    assert_eq!(body, serde_json::to_string(&value).unwrap());
}

#[test]
fn assignment_notice_needs_webhook_and_slack_id() {
    let (url, body) = assignment_notice(
        Some("https://hooks.example/x".to_string()),
        Some("U1".to_string()),
        "Card",
        None,
        Some("High"),
    )
    .unwrap();
    assert_eq!(url, "https://hooks.example/x");
    let expected = create_slack_message(SlackNotificationPayload {
        slack_user_id: "U1".to_string(),
        card_title: "Card",
        card_description: None,
        priority: Some("High"),
    });
    assert_eq!(body, expected);
    assert!(assignment_notice(None, Some("U1".to_string()), "Card", None, None).is_none());
    assert!(assignment_notice(Some("w".to_string()), None, "Card", None, None).is_none());
}
