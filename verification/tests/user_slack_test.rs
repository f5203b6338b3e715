use kanban_backend::models::users::{UpdateSlackIdPayload, User, UserPublic};
use kanban_backend::oid::ObjectId;

#[test]
fn test_user_create_with_slack_id_field() {
    let user = User::create(
        "testuser".to_string(),
        "test@example.com".to_string(),
        "hashed_password".to_string(),
        vec!["team1".to_string()],
    );

    assert_eq!(user.username, "testuser");
    assert_eq!(user.email, "test@example.com");
    assert_eq!(user.password_hash, "hashed_password");
    assert_eq!(user.teams, vec!["team1"]);
    assert_eq!(user.slack_user_id, None);
    assert_eq!(user.group.len(), 0);
    assert_eq!(user.permissions.len(), 0);
}

#[test]
fn test_update_slack_id_payload_creation() {
    let payload = UpdateSlackIdPayload {
        slack_user_id: "U01ABC2DEF3".to_string(),
    };

    assert_eq!(payload.slack_user_id, "U01ABC2DEF3");
}

#[test]
fn user_public_shows_hex_id_and_email() {
    let mut user = User::create(
        "ann".to_string(),
        "ann@example.com".to_string(),
        "h".to_string(),
        vec![],
    );
    user.id = Some(ObjectId::parse_str("507f1f77bcf86cd799439011").unwrap());
    let public = UserPublic::from_user(user);
    assert_eq!(public.id, "507f1f77bcf86cd799439011");
    assert_eq!(public.username, "ann");
    assert_eq!(public.email, Some("ann@example.com".to_string()));
    assert!(public.is_active);
}
