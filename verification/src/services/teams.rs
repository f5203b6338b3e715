use vstd::prelude::*;
use vstd::string::*;
use crate::models::teams::{
    has_member, is_member_added, is_new_team, without_member, CreateTeamPayload, Team,
    TeamMember, TeamMemberWithUsername, TeamRole, TeamWithUsernames, UpdateTeamPayload,
};
use crate::models::users::User;
use crate::oid::{hex_value, is_lower_object_id_hex, is_object_id_hex, object_id_parse_error, ObjectId};
use crate::text::{contains_text, opt_text, text, text_eq, texts};
use crate::utils::errors::{concat3, CustomError};

verus! {

broadcast use vstd::seq_lib::group_seq_properties;

/// The team that everyone joins when they sign up.
pub const LJY_TEAM: &'static str = "LJY Members";

/// A new team for its creator, unless a team of that name exists ("Team name already
/// exists").
pub fn create_team(user: &User, payload: CreateTeamPayload, name_taken: bool) -> (r: Result<
    Team,
    CustomError,
>)
    requires
        user.id is Some,
    ensures
        name_taken ==> (r matches Err(CustomError::Conflict(m)) && m@ == "Team name already exists"@),
        !name_taken ==> (r matches Ok(t) && is_new_team(
            t,
            payload.name@,
            payload.description,
            user.id.unwrap(),
        )),
{
    if name_taken {
        return Err(CustomError::Conflict(text("Team name already exists")));
    }
    let leader = match user.id {
        Some(id) => id,
        None => ObjectId { hi: 0, lo: 0 },
    };
    Ok(Team::new(payload.name, payload.description, leader))
}

/// The team, with the user added under the role; "Team <name> not found" when there is no
/// such team.
pub fn add_user_to_team(found: Option<Team>, team_name: &str, user_id: ObjectId, role: TeamRole) -> (r:
    Result<Team, CustomError>)
    ensures
        match found {
            None => r matches Err(CustomError::NotFound(m)) && m@ == "Team "@ + team_name@
                + " not found"@,
            Some(t) => r matches Ok(after) && is_member_added(t, after, user_id, role),
        },
{
    match found {
        None => Err(CustomError::NotFound(concat3("Team ", team_name, " not found"))),
        Some(mut team) => {
            team.add_member(user_id, role);
            Ok(team)
        },
    }
}

/// The sign-up team, with the new user added as a collaborator.
pub fn add_user_to_ljy_team(found: Option<Team>, user_id: ObjectId) -> (r: Result<
    Team,
    CustomError,
>)
    ensures
        match found {
            None => r matches Err(CustomError::NotFound(m)) && m@ == "Team "@ + LJY_TEAM@
                + " not found"@,
            Some(t) => r matches Ok(after) && is_member_added(
                t,
                after,
                user_id,
                TeamRole::Collaborator,
            ),
        },
{
    add_user_to_team(found, LJY_TEAM, user_id, TeamRole::Collaborator)
}

/// The values that are present, in order.
pub open spec fn present<T>(s: Seq<Option<T>>) -> Seq<T>
    decreases s.len(),
{
    if s.len() == 0 {
        Seq::empty()
    } else {
        match s.last() {
            Some(x) => present(s.drop_last()).push(x),
            None => present(s.drop_last()),
        }
    }
}

/// The teams that were found, in the order of the user's team list.
pub fn get_user_teams(found: Vec<Option<Team>>) -> (r: Vec<Team>)
    ensures
        r@ == present(found@),
{
    let ghost orig = found@;
    let mut found = found;
    let mut rev: Vec<Team> = Vec::new();
    let n = found.len();
    let mut k: usize = n;
    while k > 0
        invariant
            k <= n == orig.len(),
            found@ == orig.take(k as int),
            present(orig) == present(orig.take(k as int)) + rev@.reverse(),
        decreases k,
    {
        let item = found.pop().unwrap();
        proof {
            assert(orig.take(k as int).drop_last() =~= orig.take(k - 1));
            assert(orig.take(k as int).last() == item);
        }
        match item {
            Some(t) => {
                proof {
                    assert(rev@.push(t).reverse() =~= seq![t] + rev@.reverse());
                }
                rev.push(t);
            },
            None => {},
        }
        k = k - 1;
    }
    let mut r: Vec<Team> = Vec::new();
    let m = rev.len();
    let ghost revs = rev@;
    while rev.len() > 0
        invariant
            rev@ == revs.take(rev@.len() as int),
            r@ == revs.skip(rev@.len() as int).reverse(),
            rev@.len() <= m == revs.len(),
        decreases rev@.len(),
    {
        let t = rev.pop().unwrap();
        proof {
            let l = rev@.len() as int;
            assert(revs.skip(l).reverse() =~= revs.skip(l + 1).reverse().push(revs[l]));
            assert(revs.take(l + 1).last() == revs[l]);
            assert(revs.take(l + 1).drop_last() =~= revs.take(l));
        }
        r.push(t);
    }
    proof {
        assert(revs.skip(0) =~= revs);
        assert(orig.take(0) =~= Seq::<Option<Team>>::empty());
        assert(present(Seq::<Option<Team>>::empty()) =~= Seq::<Team>::empty());
        assert(present(orig) =~= revs.reverse());
    }
    r
}

/// Nothing, when the user leads the team; else an authentication error with the message.
pub fn require_leader(user: &User, team: &Team, message: &str) -> (r: Result<(), CustomError>)
    requires
        user.id is Some,
    ensures
        team.leader_id == user.id.unwrap() ==> r is Ok,
        team.leader_id != user.id.unwrap() ==> (r matches Err(CustomError::Authentication(m)) && m@
            == message@),
{
    let ok = match &user.id {
        Some(id) => team.is_leader(id),
        None => false,
    };
    if !ok {
        return Err(CustomError::Authentication(text(message)));
    }
    Ok(())
}

/// The update asks for a new name that another team already has.
pub open spec fn renames_to_taken(name: Option<String>, current: Seq<char>, name_taken: bool) -> bool {
    name matches Some(n) && n@ != current && name_taken
}

/// The new name whose use must be checked: the asked-for name, when it differs from the
/// team's current name.
pub fn name_to_check(payload: &UpdateTeamPayload, team_name: &str) -> (r: Option<String>)
    ensures
        match payload.name {
            Some(n) => if n@ != team_name@ {
                r == Some(n)
            } else {
                r is None
            },
            None => r is None,
        },
{
    match &payload.name {
        Some(n) => if !text_eq(n.as_str(), team_name) {
            Some(n.clone())
        } else {
            None
        },
        None => None,
    }
}

/// The team with the asked-for name and description, when the user leads it and the new
/// name is free (`name_taken` tells whether a team already has the new name).
pub fn update_team(user: &User, team: Team, team_name: &str, payload: UpdateTeamPayload, name_taken: bool) -> (r:
    Result<Team, CustomError>)
    requires
        user.id is Some,
    ensures
        team.leader_id != user.id.unwrap() ==> (r matches Err(CustomError::Authentication(m)) && m@
            == "Only team leader can update team"@),
        team.leader_id == user.id.unwrap() && renames_to_taken(payload.name, team_name@, name_taken)
            ==> (r matches Err(CustomError::Conflict(m)) && m@ == "Team name already exists"@),
        team.leader_id == user.id.unwrap() && !renames_to_taken(payload.name, team_name@, name_taken)
            ==> (r matches Ok(t) && t == (Team {
            name: match payload.name {
                Some(n) => n,
                None => team.name,
            },
            description: match payload.description {
                Some(d) => Some(d),
                None => team.description,
            },
            ..team
        })),
{
    require_leader(user, &team, "Only team leader can update team")?;
    let mut team = team;
    match payload.name {
        Some(new_name) => {
            if !text_eq(new_name.as_str(), team_name) && name_taken {
                return Err(CustomError::Conflict(text("Team name already exists")));
            }
            team.name = new_name;
        },
        None => {},
    }
    match payload.description {
        Some(description) => {
            team.description = Some(description);
        },
        None => {},
    }
    Ok(team)
}

/// The id that a user-id text names; other texts are refused with the parser's message.
pub fn member_object_id(user_id: &str) -> (r: Result<ObjectId, CustomError>)
    ensures
        is_object_id_hex(user_id@) ==> (r matches Ok(id) && id.value() == hex_value(user_id@)),
        !is_object_id_hex(user_id@) ==> (r matches Err(CustomError::Server(m)) && m@
            == "Invalid user_id format: "@ + object_id_parse_error(user_id@)),
{
    match ObjectId::parse_str(user_id) {
        Ok(id) => Ok(id),
        Err(e) => {
            let mut m = text("Invalid user_id format: ");
            m.append(e.as_str());
            Err(CustomError::Server(m))
        },
    }
}

/// The user with the given id text, or "User with id '<id>' not found".
pub fn found_new_member(found: Option<User>, user_id: &str) -> (r: Result<User, CustomError>)
    ensures
        match found {
            Some(u) => r == Ok::<User, CustomError>(u),
            None => r matches Err(CustomError::Server(m)) && m@ == "User with id '"@ + user_id@
                + "' not found"@,
        },
{
    match found {
        Some(u) => Ok(u),
        None => Err(CustomError::Server(concat3("User with id '", user_id, "' not found"))),
    }
}

/// The team with the new member added under the role, when the requester leads it and the
/// user is not a member yet.
pub fn add_member(leader: &User, team: Team, new_member: &User, role: TeamRole) -> (r: Result<
    Team,
    CustomError,
>)
    requires
        leader.id is Some,
        new_member.id is Some,
    ensures
        team.leader_id != leader.id.unwrap() ==> (r matches Err(CustomError::Authentication(m))
            && m@ == "Only team leader can add members"@),
        team.leader_id == leader.id.unwrap() && has_member(team.members@, new_member.id.unwrap())
            ==> (r matches Err(CustomError::Conflict(m)) && m@
            == "User is already a member of this team"@),
        team.leader_id == leader.id.unwrap() && !has_member(team.members@, new_member.id.unwrap())
            ==> (r matches Ok(t) && is_member_added(team, t, new_member.id.unwrap(), role)),
{
    require_leader(leader, &team, "Only team leader can add members")?;
    let id = match new_member.id {
        Some(id) => id,
        None => ObjectId { hi: 0, lo: 0 },
    };
    if team.is_member(&id) {
        return Err(CustomError::Conflict(text("User is already a member of this team")));
    }
    let mut team = team;
    team.add_member(id, role);
    Ok(team)
}

/// The team without the member, when the requester leads it, the user is a member, and the
/// user is not the leader.
pub fn remove_member(leader: &User, team: Team, member: &User) -> (r: Result<Team, CustomError>)
    requires
        leader.id is Some,
        member.id is Some,
    ensures
        team.leader_id != leader.id.unwrap() ==> (r matches Err(CustomError::Authentication(m))
            && m@ == "Only team leader can remove members"@),
        team.leader_id == leader.id.unwrap() && !has_member(team.members@, member.id.unwrap())
            ==> (r matches Err(CustomError::NotFound(m)) && m@
            == "User is not a member of this team"@),
        team.leader_id == leader.id.unwrap() && has_member(team.members@, member.id.unwrap())
            && team.leader_id == member.id.unwrap() ==> (r matches Err(CustomError::Conflict(m))
            && m@ == "Cannot remove team leader"@),
        team.leader_id == leader.id.unwrap() && has_member(team.members@, member.id.unwrap())
            && team.leader_id != member.id.unwrap() ==> (r matches Ok(t) && t.members@
            == without_member(team.members@, member.id.unwrap()) && t == (Team {
            members: t.members,
            ..team
        })),
{
    require_leader(leader, &team, "Only team leader can remove members")?;
    let id = match member.id {
        Some(id) => id,
        None => ObjectId { hi: 0, lo: 0 },
    };
    if !team.is_member(&id) {
        return Err(CustomError::NotFound(text("User is not a member of this team")));
    }
    if team.is_leader(&id) {
        return Err(CustomError::Conflict(text("Cannot remove team leader")));
    }
    let mut team = team;
    team.remove_member(&id);
    Ok(team)
}

/// The team without the user, when the user is a member and not its leader.
pub fn leave_team(user: &User, team: Team) -> (r: Result<Team, CustomError>)
    requires
        user.id is Some,
    ensures
        !has_member(team.members@, user.id.unwrap()) ==> (r matches Err(CustomError::NotFound(m))
            && m@ == "User is not a member of this team"@),
        has_member(team.members@, user.id.unwrap()) && team.leader_id == user.id.unwrap() ==> (r matches Err(
            CustomError::Conflict(m),
        ) && m@ == "Team leader cannot leave team. Transfer leadership or delete team instead"@),
        has_member(team.members@, user.id.unwrap()) && team.leader_id != user.id.unwrap() ==> (r matches Ok(t)
            && t.members@ == without_member(team.members@, user.id.unwrap()) && t == (Team {
            members: t.members,
            ..team
        })),
{
    let id = match user.id {
        Some(id) => id,
        None => ObjectId { hi: 0, lo: 0 },
    };
    if !team.is_member(&id) {
        return Err(CustomError::NotFound(text("User is not a member of this team")));
    }
    if team.is_leader(&id) {
        return Err(
            CustomError::Conflict(
                text("Team leader cannot leave team. Transfer leadership or delete team instead"),
            ),
        );
    }
    let mut team = team;
    team.remove_member(&id);
    Ok(team)
}

/// Nothing, when the user leads the team (which may then be deleted).
pub fn delete_team(user: &User, team: &Team) -> (r: Result<(), CustomError>)
    requires
        user.id is Some,
    ensures
        team.leader_id == user.id.unwrap() ==> r is Ok,
        team.leader_id != user.id.unwrap() ==> (r matches Err(CustomError::Authentication(m)) && m@
            == "Only team leader can delete team"@),
{
    require_leader(user, team, "Only team leader can delete team")
}

/// A user's team list with the team appended.
pub fn with_team(teams: Vec<String>, team_name: String) -> (r: Vec<String>)
    ensures
        r@ == teams@.push(team_name),
{
    let mut teams = teams;
    teams.push(team_name);
    teams
}

/// A user's team list with the team appended, or `None` when it is listed already.
pub fn with_team_once(teams: Vec<String>, team_name: &str) -> (r: Option<Vec<String>>)
    ensures
        texts(teams@).contains(team_name@) ==> r is None,
        !texts(teams@).contains(team_name@) ==> (r matches Some(v) && texts(v@) == texts(
            teams@,
        ).push(team_name@)),
{
    if contains_text(&teams, team_name) {
        return None;
    }
    let mut teams = teams;
    let ghost before = teams@;
    teams.push(text(team_name));
    proof {
        assert(texts(teams@) =~= texts(before).push(team_name@));
    }
    Some(teams)
}

/// Holds of the texts other than the given one.
pub open spec fn text_other_than(name: Seq<char>) -> spec_fn(Seq<char>) -> bool {
    |t: Seq<char>| t != name
}

/// A user's team list without the team.
pub fn without_team(teams: Vec<String>, team_name: &str) -> (r: Vec<String>)
    ensures
        texts(r@) == texts(teams@).filter(text_other_than(team_name@)),
{
    let ghost pred = text_other_than(team_name@);
    let mut kept: Vec<String> = Vec::new();
    let n = teams.len();
    for i in 0..n
        invariant
            n == teams@.len(),
            pred == text_other_than(team_name@),
            texts(kept@) == texts(teams@).take(i as int).filter(pred),
    {
        proof {
            texts(teams@).lemma_take_succ_push(i as int);
            texts(teams@).take(i as int).lemma_filter_push(teams@[i as int]@, pred);
            assert(texts(teams@).take(i + 1) =~= texts(teams@).take(i as int).push(teams@[i as int]@));
        }
        if !text_eq(teams[i].as_str(), team_name) {
            let ghost before = kept@;
            kept.push(teams[i].clone());
            proof {
                assert(texts(kept@) =~= texts(before).push(teams@[i as int]@));
            }
        }
    }
    proof {
        assert(texts(teams@).take(n as int) =~= texts(teams@));
    }
    kept
}


/// The last user in the list with the given id (later entries override earlier ones).
pub open spec fn last_user_with(us: Seq<User>, id: ObjectId) -> Option<User>
    decreases us.len(),
{
    if us.len() == 0 {
        None
    } else if us.last().id == Some(id) {
        Some(us.last())
    } else {
        last_user_with(us.drop_last(), id)
    }
}

/// Holds of the member entries whose user is in the list.
pub open spec fn known_to(us: Seq<User>) -> spec_fn(TeamMember) -> bool {
    |m: TeamMember| last_user_with(us, m.user_id) is Some
}

/// The name of a role, as its variant is written.
pub open spec fn role_name(r: TeamRole) -> Seq<char> {
    match r {
        TeamRole::Leader => "Leader"@,
        TeamRole::Collaborator => "Collaborator"@,
    }
}

/// The API entry shows the member entry with the user's name.
pub open spec fn shows_member(e: TeamMemberWithUsername, m: TeamMember, u: User) -> bool {
    &&& is_lower_object_id_hex(e.user_id@)
    &&& hex_value(e.user_id@) == m.user_id.value()
    &&& e.username == u.username
    &&& e.role@ == role_name(m.role)
    &&& e.joined_at == m.joined_at
    &&& texts(e.permissions@) == texts(m.permissions@)
}

/// Each API entry shows the corresponding member entry.
pub open spec fn shows_all(es: Seq<TeamMemberWithUsername>, ms: Seq<TeamMember>, us: Seq<User>) -> bool {
    &&& es.len() == ms.len()
    &&& forall|k: int|
        0 <= k < es.len() ==> shows_member(
            #[trigger] es[k],
            ms[k],
            last_user_with(us, ms[k].user_id).unwrap(),
        )
}

proof fn lemma_shows_all_push(
    es: Seq<TeamMemberWithUsername>,
    ms: Seq<TeamMember>,
    us: Seq<User>,
    e: TeamMemberWithUsername,
    m: TeamMember,
)
    requires
        shows_all(es, ms, us),
        shows_member(e, m, last_user_with(us, m.user_id).unwrap()),
    ensures
        shows_all(es.push(e), ms.push(m), us),
{
    assert forall|k: int| 0 <= k < es.push(e).len() implies shows_member(
        #[trigger] es.push(e)[k],
        ms.push(m)[k],
        last_user_with(us, ms.push(m)[k].user_id).unwrap(),
    ) by {
        if k < es.len() {
            assert(es.push(e)[k] == es[k]);
            assert(ms.push(m)[k] == ms[k]);
        }
    }
}

/// The index of the last user with the id.
fn lookup_user(users: &Vec<User>, id: &ObjectId) -> (r: Option<usize>)
    ensures
        match r {
            Some(j) => j < users@.len() && last_user_with(users@, *id) == Some(users@[j as int]),
            None => last_user_with(users@, *id) is None,
        },
{
    let mut j = users.len();
    while j > 0
        invariant
            j <= users@.len(),
            last_user_with(users@, *id) == last_user_with(users@.take(j as int), *id),
        decreases j,
    {
        let matches = match users[j - 1].id {
            Some(uid) => uid == *id,
            None => false,
        };
        proof {
            assert(users@.take(j as int).last() == users@[j - 1]);
            assert(users@.take(j as int).drop_last() =~= users@.take(j - 1));
        }
        if matches {
            return Some(j - 1);
        }
        j = j - 1;
    }
    proof {
        assert(users@.take(0) =~= Seq::<User>::empty());
    }
    None
}

fn role_text(r: TeamRole) -> (t: String)
    ensures
        t@ == role_name(r),
{
    match r {
        TeamRole::Leader => text("Leader"),
        TeamRole::Collaborator => text("Collaborator"),
    }
}

/// The team as the API shows it: each member whose user was found, in order, with the
/// user's name; ids in hex; both times set to the given time; active.
pub fn get_team_with_usernames(team: Team, users: &Vec<User>, now: String) -> (r: TeamWithUsernames)
    ensures
        shows_all(r.members@, team.members@.filter(known_to(users@)), users@),
        match team.id {
            Some(id) => r._id matches Some(h) && is_lower_object_id_hex(h@) && hex_value(h@)
                == id.value(),
            None => r._id is None,
        },
        r.name == team.name,
        r.description == team.description,
        is_lower_object_id_hex(r.leader_id@),
        hex_value(r.leader_id@) == team.leader_id.value(),
        r.created_at == now,
        r.updated_at@ == now@,
        r.is_active,
{
    let ghost pred = known_to(users@);
    let ghost ms = team.members@;
    let mut members: Vec<TeamMemberWithUsername> = Vec::new();
    let n = team.members.len();
    for i in 0..n
        invariant
            n == ms.len(),
            ms == team.members@,
            pred == known_to(users@),
            shows_all(members@, ms.take(i as int).filter(pred), users@),
    {
        let member = &team.members[i];
        proof {
            ms.lemma_take_succ_push(i as int);
            ms.take(i as int).lemma_filter_push(ms[i as int], pred);
        }
        let ghost before = members@;
        match lookup_user(users, &member.user_id) {
            Some(j) => {
                let user = &users[j];
                let entry = TeamMemberWithUsername {
                    user_id: member.user_id.to_hex(),
                    username: user.username.clone(),
                    role: role_text(member.role),
                    joined_at: member.joined_at.clone(),
                    permissions: crate::models::teams::clone_texts(&member.permissions),
                };
                proof {
                    lemma_shows_all_push(before, ms.take(i as int).filter(pred), users@, entry, ms[i as int]);
                }
                members.push(entry);
            },
            None => {},
        }
    }
    proof {
        assert(ms.take(n as int) =~= ms);
    }
    let id = match &team.id {
        Some(id) => Some(id.to_hex()),
        None => None,
    };
    TeamWithUsernames {
        _id: id,
        name: team.name,
        description: team.description,
        leader_id: team.leader_id.to_hex(),
        members,
        created_at: now.clone(),
        updated_at: now,
        is_active: true,
    }
}

} // verus!
