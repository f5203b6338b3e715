use kanban_backend::models::company::{Company, CompanyRole};
use kanban_backend::models::teams::{Team, TeamRole};
use kanban_backend::oid::ObjectId;

fn oid(n: u32) -> ObjectId {
    ObjectId { hi: 7, lo: n }
}

#[test]
fn new_team_is_led_by_its_creator() {
    let leader = oid(1);
    let team = Team::new("Kanban Crew".to_string(), Some("desc".to_string()), leader);
    assert_eq!(team.id, None);
    assert_eq!(team.name, "Kanban Crew");
    assert_eq!(team.leader_id, leader);
    assert_eq!(team.members.len(), 1);
    assert_eq!(team.members[0].user_id, leader);
    assert_eq!(team.members[0].role, TeamRole::Leader);
    assert_eq!(
        team.members[0].permissions,
        vec!["read", "write", "delete", "manage_members"]
    );
    assert_eq!(team.next_card_number, Some(1));
    assert_eq!(team.card_prefix, Some("KANB".to_string()));
    assert!(team.is_leader(&leader));
    assert!(team.is_member(&leader));
    assert!(team.can_edit(&leader));
    assert!(team.can_manage_members(&leader));
    assert_eq!(team.get_member_role(&leader), Some(TeamRole::Leader));
}

#[test]
fn card_prefix_skips_symbols_and_keeps_short_names() {
    assert_eq!(Team::new("a-b c!".to_string(), None, oid(1)).card_prefix, Some("ABC".to_string()));
    assert_eq!(Team::new("".to_string(), None, oid(1)).card_prefix, Some("".to_string()));
    assert_eq!(Team::new("x1y2z3".to_string(), None, oid(1)).card_prefix, Some("X1Y2".to_string()));
    assert_eq!(Team::new("LJY Members".to_string(), None, oid(1)).card_prefix, Some("LJYM".to_string()));
}

#[test]
fn collaborator_can_edit_but_not_manage() {
    let mut team = Team::new("T".to_string(), None, oid(1));
    let user = oid(2);
    assert!(!team.is_member(&user));
    assert!(!team.can_edit(&user));
    team.add_member(user, TeamRole::Collaborator);
    assert!(team.is_member(&user));
    assert_eq!(team.get_member_role(&user), Some(TeamRole::Collaborator));
    assert_eq!(team.members[1].permissions, vec!["read", "write"]);
    assert!(team.can_edit(&user));
    assert!(!team.can_manage_members(&user));
    assert!(!team.is_leader(&user));
}

#[test]
fn added_leader_can_manage_members() {
    let mut team = Team::new("T".to_string(), None, oid(1));
    team.add_member(oid(3), TeamRole::Leader);
    assert!(team.can_manage_members(&oid(3)));
    assert!(team.has_permission(&oid(3), "delete"));
}

#[test]
fn add_member_keeps_existing_entry_first() {
    let mut team = Team::new("T".to_string(), None, oid(1));
    team.add_member(oid(2), TeamRole::Collaborator);
    team.add_member(oid(2), TeamRole::Leader);
    assert_eq!(team.members.len(), 3);
    assert_eq!(team.get_member_role(&oid(2)), Some(TeamRole::Collaborator));
    assert!(!team.can_manage_members(&oid(2)));
}

#[test]
fn remove_member_drops_only_that_user() {
    let mut team = Team::new("T".to_string(), None, oid(1));
    team.add_member(oid(2), TeamRole::Collaborator);
    team.add_member(oid(3), TeamRole::Leader);
    team.add_member(oid(2), TeamRole::Leader);
    team.remove_member(&oid(2));
    assert_eq!(team.members.len(), 2);
    assert!(!team.is_member(&oid(2)));
    assert_eq!(team.get_member_role(&oid(3)), Some(TeamRole::Leader));
    assert_eq!(team.get_member_role(&oid(1)), Some(TeamRole::Leader));
}

#[test]
fn add_then_remove_gives_back_the_members() {
    let mut team = Team::new("T".to_string(), None, oid(1));
    team.add_member(oid(5), TeamRole::Collaborator);
    let before: Vec<ObjectId> = team.members.iter().map(|m| m.user_id).collect();
    team.add_member(oid(9), TeamRole::Leader);
    team.remove_member(&oid(9));
    let after: Vec<ObjectId> = team.members.iter().map(|m| m.user_id).collect();
    assert_eq!(before, after);
}

#[test]
fn new_company_is_owned_by_its_creator() {
    let owner = oid(1);
    let company = Company::new("Acme".to_string(), None, owner);
    assert_eq!(company.id, None);
    assert_eq!(company.name, "Acme");
    assert_eq!(company.members.len(), 1);
    assert_eq!(company.members[0].role, CompanyRole::Owner);
    assert!(company.is_active);
    assert!(company.is_owner(&owner));
    assert!(company.is_member(&owner));
    assert!(!company.is_owner(&oid(2)));
    assert_eq!(company.slack_webhook_url, None);
    assert_eq!(company.next_card_number, None);
    assert_eq!(company.card_prefix, None);
}

#[test]
fn company_add_member_is_idempotent() {
    let mut company = Company::new("Acme".to_string(), None, oid(1));
    company.add_member(oid(2));
    assert_eq!(company.members.len(), 2);
    assert_eq!(company.members[1].role, CompanyRole::Member);
    company.add_member(oid(2));
    assert_eq!(company.members.len(), 2);
    company.add_member(oid(1));
    assert_eq!(company.members.len(), 2);
}

#[test]
fn company_remove_member_then_not_member() {
    let mut company = Company::new("Acme".to_string(), None, oid(1));
    company.add_member(oid(2));
    company.add_member(oid(3));
    company.remove_member(&oid(2));
    assert!(!company.is_member(&oid(2)));
    assert!(company.is_member(&oid(3)));
    assert_eq!(company.members.len(), 2);
}
