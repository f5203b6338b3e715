use kanban_backend::models::cards::{AddCardPayload, Board, Card, Column, DeleteCardPayload, EditCardPayload};
use kanban_backend::models::company::{Company, CompanyRole, CreateCompanyPayload, UpdateCompanyPayload};
use kanban_backend::models::teams::{CreateTeamPayload, Team, TeamRole, UpdateTeamPayload};
use kanban_backend::models::users::User;
use kanban_backend::oid::ObjectId;
use kanban_backend::services::{board, cards, company, permission, teams, user_info, users};
use kanban_backend::utils::errors::CustomError;

fn oid(n: u32) -> ObjectId {
    ObjectId { hi: 3, lo: n }
}

fn user(name: &str, id: u32) -> User {
    let mut u = User::create(name.to_string(), format!("{name}@x.io"), "h".to_string(), vec![]);
    u.id = Some(oid(id));
    u
}

fn message(e: &CustomError) -> String {
    match e {
        CustomError::Database(m)
        | CustomError::Authentication(m)
        | CustomError::Forbidden(m)
        | CustomError::Server(m)
        | CustomError::NotFound(m)
        | CustomError::Conflict(m)
        | CustomError::MongoError(m)
        | CustomError::OIDParseError(m) => m.clone(),
    }
}

#[test]
fn membership_checks_follow_the_team() {
    let leader = user("lead", 1);
    let outsider = user("out", 2);
    let team = Team::new("Core".to_string(), None, oid(1));
    assert_eq!(permission::check_team_membership(&leader, &team).unwrap(), true);
    assert_eq!(permission::check_team_membership(&outsider, &team).unwrap(), false);
    assert!(permission::require_team_membership(&leader, &team, "Core").is_ok());
    let e = permission::require_team_membership(&outsider, &team, "Core").unwrap_err();
    assert!(matches!(e, CustomError::Forbidden(_)));
    assert_eq!(message(&e), "You are not a member of team 'Core'");
    let mut no_id = user("x", 3);
    no_id.id = None;
    let e = permission::check_team_membership(&no_id, &team).unwrap_err();
    assert!(matches!(e, CustomError::Server(_)));
    assert_eq!(message(&e), "User ID not found");
}

#[test]
fn permission_checks_follow_the_role() {
    let mut team = Team::new("Core".to_string(), None, oid(1));
    team.add_member(oid(2), TeamRole::Collaborator);
    let collaborator = user("c", 2);
    assert!(permission::check_team_permission(&collaborator, &team, "write").unwrap());
    assert!(!permission::check_team_permission(&collaborator, &team, "delete").unwrap());
    let e = permission::require_team_permission(&collaborator, &team, "Core", "delete").unwrap_err();
    assert_eq!(message(&e), "You don't have 'delete' permission for team 'Core'");
    assert!(permission::require_team_leader(&user("l", 1), &team).is_ok());
    let e = permission::require_team_leader(&collaborator, &team).unwrap_err();
    assert_eq!(message(&e), "Only team leader can perform this action");
}

#[test]
fn board_access_needs_board_and_membership() {
    let team = Team::new("Core".to_string(), None, oid(1));
    let board = Board::create_default("Core".to_string());
    let e = permission::found_board(None).unwrap_err();
    assert_eq!(message(&e), "Board not found");
    assert!(permission::check_board_access(board, &user("l", 1), &team).is_ok());
    let board = Board::create_default("Core".to_string());
    let e = permission::check_board_access(board, &user("o", 9), &team).unwrap_err();
    assert_eq!(message(&e), "You are not a member of team 'Core'");
    let e = permission::board_object_id("nope").unwrap_err();
    assert_eq!(message(&e), "Invalid board ID");
    let board = Board::create_default("Core".to_string());
    assert!(permission::require_board_write_permission(board, &user("l", 1), &team).is_ok());
    let board = Board::create_default("Core".to_string());
    let e = permission::require_board_write_permission(board, &user("o", 9), &team).unwrap_err();
    assert_eq!(message(&e), "You don't have 'write' permission for team 'Core'");
}

#[test]
fn team_service_decisions() {
    let leader = user("lead", 1);
    let created = teams::create_team(&leader, CreateTeamPayload { name: "Ops".to_string(), description: None }, false).unwrap();
    assert!(created.is_leader(&oid(1)));
    let e = teams::create_team(&leader, CreateTeamPayload { name: "Ops".to_string(), description: None }, true).unwrap_err();
    assert!(matches!(e, CustomError::Conflict(_)));
    assert_eq!(message(&e), "Team name already exists");

    let e = teams::add_user_to_team(None, "Ghosts", oid(2), TeamRole::Collaborator).unwrap_err();
    assert_eq!(message(&e), "Team Ghosts not found");
    let ljy = Team::new("LJY Members".to_string(), None, oid(1));
    let ljy = teams::add_user_to_ljy_team(Some(ljy), oid(4)).unwrap();
    assert_eq!(ljy.get_member_role(&oid(4)), Some(TeamRole::Collaborator));

    let team = Team::new("Ops".to_string(), None, oid(1));
    let payload = UpdateTeamPayload { name: Some("Dev".to_string()), description: Some("d".to_string()), slack_webhook_url: None };
    assert_eq!(teams::name_to_check(&payload, "Ops"), Some("Dev".to_string()));
    let updated = teams::update_team(&leader, team, "Ops", payload, false).unwrap();
    assert_eq!(updated.name, "Dev");
    assert_eq!(updated.description, Some("d".to_string()));

    let team = Team::new("Ops".to_string(), None, oid(1));
    let payload = UpdateTeamPayload { name: Some("Dev".to_string()), description: None, slack_webhook_url: None };
    assert!(matches!(teams::update_team(&leader, team, "Ops", payload, true), Err(CustomError::Conflict(_))));
    let team = Team::new("Ops".to_string(), None, oid(1));
    let payload = UpdateTeamPayload { name: Some("Ops".to_string()), description: None, slack_webhook_url: None };
    assert_eq!(teams::name_to_check(&payload, "Ops"), None);
    assert!(teams::update_team(&leader, team, "Ops", payload, true).is_ok());
    let team = Team::new("Ops".to_string(), None, oid(1));
    let payload = UpdateTeamPayload { name: None, description: None, slack_webhook_url: None };
    let e = teams::update_team(&user("x", 2), team, "Ops", payload, false).unwrap_err();
    assert!(matches!(e, CustomError::Authentication(_)));
    assert_eq!(message(&e), "Only team leader can update team");
}

#[test]
fn team_member_services() {
    let leader = user("lead", 1);
    let member = user("mem", 2);
    let team = Team::new("Ops".to_string(), None, oid(1));
    let team = teams::add_member(&leader, team, &member, TeamRole::Collaborator).unwrap();
    assert!(team.is_member(&oid(2)));
    let e = teams::add_member(&leader, team, &member, TeamRole::Collaborator).unwrap_err();
    assert_eq!(message(&e), "User is already a member of this team");
    let team = Team::new("Ops".to_string(), None, oid(1));
    let e = teams::add_member(&member, team, &leader, TeamRole::Collaborator).unwrap_err();
    assert_eq!(message(&e), "Only team leader can add members");

    let mut team = Team::new("Ops".to_string(), None, oid(1));
    team.add_member(oid(2), TeamRole::Collaborator);
    let e = teams::remove_member(&leader, Team::new("Ops".to_string(), None, oid(1)), &member).unwrap_err();
    assert_eq!(message(&e), "User is not a member of this team");
    let e = teams::remove_member(&leader, Team::new("Ops".to_string(), None, oid(1)), &leader).unwrap_err();
    assert_eq!(message(&e), "Cannot remove team leader");
    let team = teams::remove_member(&leader, team, &member).unwrap();
    assert!(!team.is_member(&oid(2)));

    let mut team = Team::new("Ops".to_string(), None, oid(1));
    team.add_member(oid(2), TeamRole::Collaborator);
    let e = teams::leave_team(&leader, Team::new("Ops".to_string(), None, oid(1))).unwrap_err();
    assert_eq!(message(&e), "Team leader cannot leave team. Transfer leadership or delete team instead");
    let e = teams::leave_team(&user("z", 8), Team::new("Ops".to_string(), None, oid(1))).unwrap_err();
    assert_eq!(message(&e), "User is not a member of this team");
    let team = teams::leave_team(&member, team).unwrap();
    assert!(!team.is_member(&oid(2)));

    let team = Team::new("Ops".to_string(), None, oid(1));
    assert!(teams::delete_team(&leader, &team).is_ok());
    let e = teams::delete_team(&member, &team).unwrap_err();
    assert_eq!(message(&e), "Only team leader can delete team");
}

#[test]
fn team_lists_of_a_user() {
    let names = vec!["a".to_string(), "b".to_string()];
    assert_eq!(teams::with_team(names.clone(), "c".to_string()), vec!["a", "b", "c"]);
    assert_eq!(teams::with_team_once(names.clone(), "a"), None);
    assert_eq!(teams::with_team_once(names.clone(), "c"), Some(vec!["a".to_string(), "b".to_string(), "c".to_string()]));
    assert_eq!(teams::without_team(vec!["a".to_string(), "b".to_string(), "a".to_string()], "a"), vec!["b"]);
    let found = vec![Some(Team::new("x".to_string(), None, oid(1))), None, Some(Team::new("y".to_string(), None, oid(1)))];
    let got = teams::get_user_teams(found);
    assert_eq!(got.iter().map(|t| t.name.clone()).collect::<Vec<_>>(), vec!["x", "y"]);
    let e = teams::member_object_id("bad").unwrap_err();
    assert!(message(&e).starts_with("Invalid user_id format: "));
    let e = teams::found_new_member(None, "abc").unwrap_err();
    assert_eq!(message(&e), "User with id 'abc' not found");
}

#[test]
fn team_with_usernames_joins_members_and_users() {
    let mut team = Team::new("Ops".to_string(), None, oid(1));
    team.add_member(oid(2), TeamRole::Collaborator);
    team.add_member(oid(3), TeamRole::Collaborator);
    team.id = Some(ObjectId { hi: 0, lo: 255 });
    let mut renamed = user("old", 2);
    renamed.username = "old".to_string();
    let users = vec![user("lead", 1), renamed, user("mem", 2)];
    let view = teams::get_team_with_usernames(team, &users, "2024-01-01T00:00:00+00:00".to_string());
    assert_eq!(view._id, Some("0000000000000000000000ff".to_string()));
    assert_eq!(view.members.len(), 2);
    assert_eq!(view.members[0].username, "lead");
    assert_eq!(view.members[0].role, "Leader");
    assert_eq!(view.members[1].username, "mem");
    assert_eq!(view.members[1].role, "Collaborator");
    assert_eq!(view.members[1].permissions, vec!["read", "write"]);
    assert_eq!(view.leader_id, ObjectId { hi: 3, lo: 1 }.to_hex());
    assert!(view.is_active);
}

#[test]
fn company_service_decisions() {
    let tony = user("Tony", 1);
    let other = user("bob", 2);
    assert!(company::user_is_tony(&tony));
    assert!(!company::user_is_tony(&other));
    let e = company::create_company(&other, CreateCompanyPayload { name: "A".to_string(), description: None }, false).unwrap_err();
    assert_eq!(message(&e), "Only Tony can create companies");
    let e = company::create_company(&tony, CreateCompanyPayload { name: "A".to_string(), description: None }, true).unwrap_err();
    assert_eq!(message(&e), "Company name already exists");
    let c = company::create_company(&tony, CreateCompanyPayload { name: "A".to_string(), description: None }, false).unwrap();
    assert!(c.is_owner(&oid(1)));

    let c = Company::new("A".to_string(), None, oid(5));
    let payload = UpdateCompanyPayload { name: Some("B".to_string()), description: None };
    assert_eq!(company::company_name_to_check(&payload, &c), Some("B".to_string()));
    let e = company::update_company(&other, c, payload, false).unwrap_err();
    assert_eq!(message(&e), "Only company owner can update company");
    let c = Company::new("A".to_string(), None, oid(5));
    let payload = UpdateCompanyPayload { name: Some("B".to_string()), description: Some("d".to_string()) };
    let updated = company::update_company(&tony, c, payload, false).unwrap();
    assert_eq!(updated.name, "B");

    let c = Company::new("A".to_string(), None, oid(1));
    let c = company::add_member(&tony, c, oid(2)).unwrap();
    assert!(c.is_member(&oid(2)));
    let e = company::add_member(&tony, c, oid(2)).unwrap_err();
    assert_eq!(message(&e), "User is already a member of this company");

    let mut c = Company::new("A".to_string(), None, oid(1));
    c.add_member(oid(2));
    let e = company::remove_member(&tony, Company::new("A".to_string(), None, oid(1)), oid(1)).unwrap_err();
    assert_eq!(message(&e), "Cannot remove the company owner");
    let e = company::remove_member(&tony, Company::new("A".to_string(), None, oid(1)), oid(7)).unwrap_err();
    assert_eq!(message(&e), "User is not a member of this company");
    let c = company::remove_member(&tony, c, oid(2)).unwrap();
    assert!(!c.is_member(&oid(2)));
    let e = company::delete_company(&other, &c).unwrap_err();
    assert_eq!(message(&e), "Only company owner can delete company");
    assert!(company::delete_company(&tony, &c).is_ok());
    assert_eq!(message(&company::company_object_id("x").unwrap_err()), "Invalid company ID");
    assert_eq!(message(&company::company_member_id("x").unwrap_err()), "Invalid user_id format");
}

#[test]
fn user_companies_merge_without_duplicates() {
    let me = user("me", 9);
    let mut a = Company::new("A".to_string(), None, oid(1));
    a.id = Some(oid(100));
    let mut b = Company::new("B".to_string(), None, oid(1));
    b.id = Some(oid(101));
    b.add_member(oid(9));
    let mut c = Company::new("C".to_string(), None, oid(1));
    c.id = Some(oid(102));
    let mut a_again = Company::new("A".to_string(), None, oid(1));
    a_again.id = Some(oid(100));
    a_again.add_member(oid(9));
    let listed = vec![Some(a), None];
    let got = company::get_user_companies(&me, listed, vec![a_again, b, c]);
    assert_eq!(got.iter().map(|c| c.name.clone()).collect::<Vec<_>>(), vec!["A", "B"]);
}

#[test]
fn company_with_usernames_lists_found_members() {
    let mut c = Company::new("A".to_string(), None, oid(1));
    c.add_member(oid(2));
    c.add_member(oid(3));
    let owner = user("tony", 1);
    let shown = company::get_company_with_usernames(c, &owner, vec![Some(user("tony", 1)), None, Some(user("zoe", 3))]);
    assert_eq!(shown.owner_username, "tony");
    assert_eq!(shown.members.len(), 2);
    assert_eq!(shown.members[0].role, "Owner");
    assert_eq!(shown.members[1].username, "zoe");
    assert_eq!(shown.members[1].email, "zoe@x.io");
    assert_eq!(shown.members[1].role, "Member");
    assert_eq!(shown._id, None);
    let _ = CompanyRole::Leader;
}

fn sample_board() -> Board {
    let mut b = Board::create_default("Core".to_string());
    b.id = Some(oid(50));
    b
}

#[test]
fn cards_are_added_edited_and_deleted() {
    let mut b = sample_board();
    let payload = AddCardPayload {
        title: "T".to_string(),
        description: None,
        column_name: "In Progress".to_string(),
        story_point: Some(2),
        team: "Core".to_string(),
        assignee: Some("ann".to_string()),
        priority: Some("High".to_string()),
    };
    let added = cards::add_card(&mut b, &payload).unwrap();
    assert_eq!(added.assignee_to_notify, Some("ann".to_string()));
    let card = added.card;
    assert_eq!(b.columns[1].cards.len(), 1);
    assert_eq!(b.columns[1].cards[0].id, card.id);
    assert_eq!(card.assignee, Some("ann".to_string()));
    let bad = AddCardPayload { column_name: "Nope".to_string(), ..payload };
    let e = cards::add_card(&mut b, &bad).unwrap_err();
    assert_eq!(message(&e), "Column not found");

    let id = card.id.unwrap().to_hex();
    let edit = EditCardPayload {
        card_id: id.clone(),
        title: "T2".to_string(),
        description: "d".to_string(),
        column_name: "In Progress".to_string(),
        story_point: None,
        assignee: "bob".to_string(),
        team: "Core".to_string(),
        priority: None,
    };
    let out = cards::edit_card(&mut b, &edit).unwrap();
    assert!(out.assignee_changed);
    assert_eq!(out.card.title, "T2");
    assert_eq!(b.columns[1].cards[0].description, Some("d".to_string()));
    let again = cards::edit_card(&mut b, &edit).unwrap();
    assert!(!again.assignee_changed);
    let missing = EditCardPayload { card_id: ObjectId { hi: 1, lo: 1 }.to_hex(), ..edit };
    assert_eq!(message(&cards::edit_card(&mut b, &missing).unwrap_err()), "Card not found");

    let del = DeleteCardPayload { card_id: "xyz".to_string(), column_name: "In Progress".to_string(), team: "Core".to_string() };
    assert_eq!(message(&cards::delete_card(&mut b, &del).unwrap_err()), "Invalid card ID");
    let del = DeleteCardPayload { card_id: id, column_name: "In Progress".to_string(), team: "Core".to_string() };
    assert_eq!(cards::delete_card(&mut b, &del).unwrap(), oid(50));
    assert_eq!(b.columns[1].cards.len(), 0);
}

#[test]
fn columns_and_boards() {
    assert_eq!(message(&cards::get_columns(&vec![]).unwrap_err()), "Board not found");
    let titles = cards::get_columns(&vec![sample_board()]).unwrap();
    assert_eq!(titles, vec!["To Do", "In Progress", "Done"]);
    assert_eq!(message(&cards::first_board(vec![]).unwrap_err()), "Board not found");
    let (b, created) = board::get_board_by_team(vec![], "Core".to_string());
    assert!(created);
    assert_eq!(b.team, "Core");
    let (b, created) = board::get_board_by_team(vec![sample_board()], "Core".to_string());
    assert!(!created);
    assert_eq!(b.id, Some(oid(50)));
    assert_eq!(message(&board::update_board(&Board::new("x".to_string())).unwrap_err()), "Missing board ID");
    assert_eq!(board::update_board(&sample_board()).unwrap(), oid(50));
    assert!(board::delete_board("zz").is_err());
    assert!(board::get_board_by_id(&oid(50).to_hex()).is_ok());
    let empty = Board::new("x".to_string());
    assert_eq!(empty.columns.len(), 0);
    let col = Column { title: "c".to_string(), cards: vec![] };
    assert_eq!(col.cards.len(), 0);
    let _: Option<Card> = None;
}

#[test]
fn user_lookups() {
    let e = user_info::update_user_slack_id("abc").unwrap_err();
    assert_eq!(message(&e), "Invalid user ID format: 'abc'. Expected MongoDB ObjectId format.");
    assert!(user_info::update_user_slack_id("507f1f77bcf86cd799439011").is_ok());
    assert_eq!(message(&user_info::slack_id_updated(None).unwrap_err()), "User not found");
    assert_eq!(message(&user_info::get_user_by_username(None).unwrap_err()), "User not found");
    assert_eq!(user_info::get_user_by_email(None).unwrap_err(), "User not found");
    assert_eq!(users::get_user_by_id("abc").unwrap_err(), "Invalid ID format");
    assert_eq!(permission::get_user_by_email(None).map(|_| ()).map_err(|e| message(&e)), Err("User not found".to_string()));
    assert_eq!(permission::get_team_by_name(None).map(|_| ()).map_err(|e| message(&e)), Err("Team not found".to_string()));
}

#[test]
fn adding_then_deleting_a_card_restores_the_board() {
    let mut b = sample_board();
    let keep = AddCardPayload {
        title: "Keep".to_string(),
        description: Some("stays".to_string()),
        column_name: "To Do".to_string(),
        story_point: None,
        team: "Core".to_string(),
        assignee: None,
        priority: None,
    };
    let kept = cards::add_card(&mut b, &keep).unwrap();
    assert_eq!(kept.assignee_to_notify, None);
    let before: Vec<(String, Vec<String>)> = b
        .columns
        .iter()
        .map(|c| (c.title.clone(), c.cards.iter().map(|k| k.title.clone()).collect()))
        .collect();

    let added = cards::add_card(&mut b, &AddCardPayload { title: "Temp".to_string(), ..keep }).unwrap().card;
    assert_eq!(b.columns[0].cards.len(), 2);
    let del = DeleteCardPayload {
        card_id: added.id.unwrap().to_hex(),
        column_name: "To Do".to_string(),
        team: "Core".to_string(),
    };
    cards::delete_card(&mut b, &del).unwrap();
    let after: Vec<(String, Vec<String>)> = b
        .columns
        .iter()
        .map(|c| (c.title.clone(), c.cards.iter().map(|k| k.title.clone()).collect()))
        .collect();
    assert_eq!(before, after);
    assert_eq!(b.id, Some(oid(50)));
}
