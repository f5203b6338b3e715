use vstd::prelude::*;
use crate::oid::ObjectId;
use vstd::string::*;
use crate::text::{
    char_is_alphanumeric, contains_text, is_alphanumeric, push_char, text, texts, to_uppercase,
    uppercase,
};
use crate::utils::time::now_rfc3339;

verus! {

broadcast use vstd::seq_lib::group_seq_properties;

#[derive(Clone, Copy, Debug, PartialEq, Eq, Structural)]
pub enum TeamRole {
    Leader,
    Collaborator,
}

#[derive(Clone, Debug)]
pub struct TeamMember {
    pub user_id: ObjectId,
    pub role: TeamRole,
    /// When the member joined, as RFC 3339 text.
    pub joined_at: String,
    pub permissions: Vec<String>,
}

#[derive(Clone, Debug)]
pub struct Team {
    pub id: Option<ObjectId>,
    pub name: String,
    pub description: Option<String>,
    pub leader_id: ObjectId,
    pub members: Vec<TeamMember>,
    pub slack_webhook_url: Option<String>,
    pub next_card_number: Option<u32>,
    pub card_prefix: Option<String>,
}

/// The permissions that a role grants, in the order they are stored.
pub open spec fn role_permissions(role: TeamRole) -> Seq<Seq<char>> {
    match role {
        TeamRole::Leader => seq!["read"@, "write"@, "delete"@, "manage_members"@],
        TeamRole::Collaborator => seq!["read"@, "write"@],
    }
}

/// The first member entry of the user, if any.
pub open spec fn first_member(ms: Seq<TeamMember>, id: ObjectId) -> Option<TeamMember>
    decreases ms.len(),
{
    if ms.len() == 0 {
        None
    } else if ms[0].user_id == id {
        Some(ms[0])
    } else {
        first_member(ms.drop_first(), id)
    }
}

/// Whether the user has a member entry.
pub open spec fn has_member(ms: Seq<TeamMember>, id: ObjectId) -> bool {
    exists|i: int| 0 <= i < ms.len() && (#[trigger] ms[i]).user_id == id
}

/// Whether the user's first member entry grants the permission.
pub open spec fn grants(ms: Seq<TeamMember>, id: ObjectId, permission: Seq<char>) -> bool {
    first_member(ms, id) matches Some(m) && texts(m.permissions@).contains(permission)
}

/// The member entries of everyone but the user, in their order.
pub open spec fn without_member(ms: Seq<TeamMember>, id: ObjectId) -> Seq<TeamMember> {
    ms.filter(not_of(id))
}

/// Holds of the member entries of anyone but the user.
pub open spec fn not_of(id: ObjectId) -> spec_fn(TeamMember) -> bool {
    |m: TeamMember| m.user_id != id
}

/// Holds of the alphanumeric characters.
pub open spec fn alnum() -> spec_fn(char) -> bool {
    |c: char| char_is_alphanumeric(c)
}

/// The characters that the card prefix is made of: the first four alphanumeric characters
/// of the team name.
pub open spec fn card_prefix_source(name: Seq<char>) -> Seq<char> {
    let alnum = name.filter(alnum());
    if alnum.len() <= 4 {
        alnum
    } else {
        alnum.take(4)
    }
}

/// A member entry of the user with the role, granting what the role grants.
pub open spec fn is_entry_for(m: TeamMember, id: ObjectId, role: TeamRole) -> bool {
    &&& m.user_id == id
    &&& m.role == role
    &&& texts(m.permissions@) == role_permissions(role)
}

/// What a freshly created team is: led by its creator, who is its only member.
pub open spec fn is_new_team(
    t: Team,
    name: Seq<char>,
    description: Option<String>,
    leader_id: ObjectId,
) -> bool {
    &&& t.id is None
    &&& t.name@ == name
    &&& t.description == description
    &&& t.leader_id == leader_id
    &&& t.members@.len() == 1
    &&& is_entry_for(t.members@[0], leader_id, TeamRole::Leader)
    &&& t.slack_webhook_url is None
    &&& t.next_card_number == Some(1u32)
    &&& t.card_prefix matches Some(p) && p@ == uppercase(card_prefix_source(name))
}

/// `after` is `before` with one entry of the user appended, all else unchanged.
pub open spec fn is_member_added(before: Team, after: Team, id: ObjectId, role: TeamRole) -> bool {
    &&& after.members@.len() == before.members@.len() + 1
    &&& after.members@.drop_last() == before.members@
    &&& is_entry_for(after.members@.last(), id, role)
    &&& after == Team { members: after.members, ..before }
}

proof fn lemma_first_member_skip(ms: Seq<TeamMember>, id: ObjectId, i: int)
    requires
        0 <= i <= ms.len(),
        forall|j: int| 0 <= j < i ==> ms[j].user_id != id,
    ensures
        first_member(ms, id) == first_member(ms.skip(i), id),
    decreases i,
{
    if i > 0 {
        assert(ms.drop_first().skip(i - 1) =~= ms.skip(i));
        lemma_first_member_skip(ms.drop_first(), id, i - 1);
    } else {
        assert(ms.skip(0) =~= ms);
    }
}

proof fn lemma_first_member_found(ms: Seq<TeamMember>, id: ObjectId, i: int)
    requires
        0 <= i < ms.len(),
        ms[i].user_id == id,
        forall|j: int| 0 <= j < i ==> ms[j].user_id != id,
    ensures
        first_member(ms, id) == Some(ms[i]),
{
    lemma_first_member_skip(ms, id, i);
}

/// The user has an entry exactly when a first entry exists.
pub proof fn lemma_first_member_some(ms: Seq<TeamMember>, id: ObjectId)
    ensures
        first_member(ms, id) is Some <==> has_member(ms, id),
        first_member(ms, id) matches Some(m) ==> m.user_id == id && ms.contains(m),
    decreases ms.len(),
{
    if ms.len() > 0 {
        lemma_first_member_some(ms.drop_first(), id);
        if has_member(ms, id) && ms[0].user_id != id {
            let i = choose|i: int| 0 <= i < ms.len() && (#[trigger] ms[i]).user_id == id;
            assert(ms.drop_first()[i - 1].user_id == id);
        }
        if has_member(ms.drop_first(), id) {
            let i = choose|i: int|
                0 <= i < ms.drop_first().len() && (#[trigger] ms.drop_first()[i]).user_id == id;
            assert(ms[i + 1].user_id == id);
        }
        if first_member(ms.drop_first(), id) is Some && ms[0].user_id != id {
            let m = first_member(ms.drop_first(), id).unwrap();
            let k = choose|k: int| 0 <= k < ms.drop_first().len() && ms.drop_first()[k] == m;
            assert(ms[k + 1] == m);
        }
        if ms[0].user_id == id {
            assert(ms[0] == ms[0]);
            assert(ms.contains(ms[0]));
        }
    }
}

/// Finds the index of the first entry of the user.
fn find_member(members: &Vec<TeamMember>, user_id: &ObjectId) -> (r: Option<usize>)
    ensures
        match r {
            Some(i) => i < members@.len() && first_member(members@, *user_id) == Some(
                members@[i as int],
            ),
            None => first_member(members@, *user_id) is None,
        },
{
    let n = members.len();
    for i in 0..n
        invariant
            n == members@.len(),
            forall|j: int| 0 <= j < i ==> members@[j].user_id != *user_id,
    {
        if members[i].user_id == *user_id {
            proof {
                lemma_first_member_found(members@, *user_id, i as int);
            }
            return Some(i);
        }
    }
    proof {
        lemma_first_member_skip(members@, *user_id, n as int);
        assert(members@.skip(n as int).len() == 0);
    }
    None
}

/// A copy of a list of texts.
pub fn clone_texts(v: &Vec<String>) -> (r: Vec<String>)
    ensures
        r@ == v@,
{
    let mut r: Vec<String> = Vec::new();
    let n = v.len();
    for i in 0..n
        invariant
            n == v@.len(),
            r@ == v@.take(i as int),
    {
        r.push(v[i].clone());
        proof {
            v@.lemma_take_succ_push(i as int);
        }
    }
    proof {
        assert(v@.take(n as int) =~= v@);
    }
    r
}

/// The permission texts that a role grants.
fn permissions_for(role: TeamRole) -> (r: Vec<String>)
    ensures
        texts(r@) == role_permissions(role),
{
    let mut r = Vec::new();
    r.push(text("read"));
    r.push(text("write"));
    match role {
        TeamRole::Leader => {
            r.push(text("delete"));
            r.push(text("manage_members"));
        },
        TeamRole::Collaborator => {},
    }
    proof {
        assert(texts(r@) =~= role_permissions(role));
    }
    r
}

/// The first four alphanumeric characters of a name.
fn card_prefix_chars(name: &str) -> (r: String)
    ensures
        r@ == card_prefix_source(name@),
{
    let ghost p = alnum();
    let mut r = String::new();
    let mut count: usize = 0;
    let n = name.unicode_len();
    let mut i: usize = 0;
    while i < n
        invariant
            n == name@.len(),
            0 <= i <= n,
            p == alnum(),
            count == r@.len(),
            r@ == (if name@.take(i as int).filter(p).len() <= 4 {
                name@.take(i as int).filter(p)
            } else {
                name@.take(i as int).filter(p).take(4)
            }),
        decreases n - i,
    {
        let c = name.get_char(i);
        let ghost before = name@.take(i as int).filter(p);
        let ghost after = name@.take(i + 1).filter(p);
        proof {
            name@.lemma_take_succ_push(i as int);
            name@.take(i as int).lemma_filter_push(c, p);
            assert(after == if p(c) { before.push(c) } else { before });
            if before.len() > 4 {
                assert(r@.len() == 4);
            }
        }
        let keep = is_alphanumeric(c);
        assert(keep == p(c));
        if keep && count < 4 {
            push_char(&mut r, c);
            count = count + 1;
            proof {
                assert(before.len() <= 4);
                assert(r@ =~= before.push(c));
                if after.len() > 4 {
                    assert(false);
                }
            }
        } else if keep {
            proof {
                assert(before.len() >= 4);
                assert(after =~= before.push(c));
                assert(after.take(4) =~= before.take(4));
                if before.len() == 4 {
                    assert(before.take(4) =~= before);
                }
            }
        }
        i = i + 1;
    }
    proof {
        assert(name@.take(n as int) =~= name@);
    }
    r
}

impl Team {
    /// A new team led by its creator, who joins it now as its only member with every
    /// permission; its card numbers start at 1 and its card prefix is the upper-cased first
    /// four alphanumeric characters of its name.
    pub fn new(name: String, description: Option<String>, leader_id: ObjectId) -> (t: Team)
        ensures
            is_new_team(t, name@, description, leader_id),
    {
        let leader_member = TeamMember {
            user_id: leader_id,
            role: TeamRole::Leader,
            joined_at: now_rfc3339(),
            permissions: permissions_for(TeamRole::Leader),
        };
        let prefix = card_prefix_chars(name.as_str());
        let card_prefix = to_uppercase(prefix.as_str());
        let mut members = Vec::new();
        members.push(leader_member);
        Team {
            id: None,
            name,
            description,
            leader_id,
            members,
            slack_webhook_url: None,
            next_card_number: Some(1),
            card_prefix: Some(card_prefix),
        }
    }

    /// Appends an entry for the user with the role, joining now, granting what the role
    /// grants. An existing entry of the user is kept.
    pub fn add_member(&mut self, user_id: ObjectId, role: TeamRole)
        ensures
            is_member_added(*old(self), *final(self), user_id, role),
    {
        self.add_member_at(user_id, role, now_rfc3339());
    }

    /// Appends an entry for the user with the role, joining at the given time, granting what
    /// the role grants. An existing entry of the user is kept.
    pub fn add_member_at(&mut self, user_id: ObjectId, role: TeamRole, joined_at: String)
        ensures
            is_member_added(*old(self), *final(self), user_id, role),
            final(self).members@.last().joined_at == joined_at,
    {
        let member = TeamMember {
            user_id,
            role,
            joined_at,
            permissions: permissions_for(role),
        };
        self.members.push(member);
        proof {
            assert(self.members@.drop_last() =~= old(self).members@);
        }
    }

    /// Drops every entry of the user, keeping the others in order.
    pub fn remove_member(&mut self, user_id: &ObjectId)
        ensures
            final(self).members@ == without_member(old(self).members@, *user_id),
            *final(self) == (Team { members: final(self).members, ..*old(self) }),
    {
        let ghost pred = not_of(*user_id);
        let ghost orig = self.members@;
        let mut rest: Vec<TeamMember> = Vec::new();
        std::mem::swap(&mut rest, &mut self.members);
        let mut kept: Vec<TeamMember> = Vec::new();
        let n = rest.len();
        let mut k: usize = 0;
        while k < n
            invariant
                n == orig.len(),
                0 <= k <= n,
                pred == not_of(*user_id),
                rest@ == orig.skip(k as int),
                kept@ == orig.take(k as int).filter(pred),
            decreases n - k,
        {
            let m = rest.remove(0);
            proof {
                assert(m == orig[k as int]);
                orig.lemma_take_succ_push(k as int);
                orig.take(k as int).lemma_filter_push(m, pred);
                assert(rest@ =~= orig.skip(k + 1));
            }
            if m.user_id != *user_id {
                kept.push(m);
            }
            k = k + 1;
        }
        proof {
            assert(orig.take(n as int) =~= orig);
        }
        self.members = kept;
    }

    /// Whether the user leads the team.
    pub fn is_leader(&self, user_id: &ObjectId) -> (r: bool)
        ensures
            r == (self.leader_id == *user_id),
    {
        self.leader_id == *user_id
    }

    /// Whether the user has an entry among the members.
    pub fn is_member(&self, user_id: &ObjectId) -> (r: bool)
        ensures
            r == has_member(self.members@, *user_id),
    {
        let found = find_member(&self.members, user_id);
        proof {
            lemma_first_member_some(self.members@, *user_id);
        }
        found.is_some()
    }

    /// The role of the user's first entry.
    pub fn get_member_role(&self, user_id: &ObjectId) -> (r: Option<TeamRole>)
        ensures
            r == (match first_member(self.members@, *user_id) {
                Some(m) => Some(m.role),
                None => None,
            }),
    {
        match find_member(&self.members, user_id) {
            Some(i) => Some(self.members[i].role),
            None => None,
        }
    }

    /// Whether the user's first entry grants the permission.
    pub fn has_permission(&self, user_id: &ObjectId, permission: &str) -> (r: bool)
        ensures
            r == grants(self.members@, *user_id, permission@),
    {
        match find_member(&self.members, user_id) {
            Some(i) => contains_text(&self.members[i].permissions, permission),
            None => false,
        }
    }

    /// Whether the user's first entry grants "write".
    pub fn can_edit(&self, user_id: &ObjectId) -> (r: bool)
        ensures
            r == grants(self.members@, *user_id, "write"@),
    {
        self.has_permission(user_id, "write")
    }

    /// Whether the user's first entry grants "manage_members".
    pub fn can_manage_members(&self, user_id: &ObjectId) -> (r: bool)
        ensures
            r == grants(self.members@, *user_id, "manage_members"@),
    {
        self.has_permission(user_id, "manage_members")
    }
}


proof fn lemma_first_member_push(ms: Seq<TeamMember>, m: TeamMember, x: ObjectId)
    ensures
        first_member(ms.push(m), x) == (if has_member(ms, x) {
            first_member(ms, x)
        } else if m.user_id == x {
            Some(m)
        } else {
            None
        }),
    decreases ms.len(),
{
    lemma_first_member_some(ms, x);
    if ms.len() > 0 {
        assert(ms.push(m).drop_first() =~= ms.drop_first().push(m));
        lemma_first_member_push(ms.drop_first(), m, x);
        lemma_first_member_some(ms.drop_first(), x);
        if ms[0].user_id != x {
            if has_member(ms, x) {
                let i = choose|i: int| 0 <= i < ms.len() && (#[trigger] ms[i]).user_id == x;
                assert(ms.drop_first()[i - 1].user_id == x);
            }
            if has_member(ms.drop_first(), x) {
                let i = choose|i: int|
                    0 <= i < ms.drop_first().len() && (#[trigger] ms.drop_first()[i]).user_id == x;
                assert(ms[i + 1].user_id == x);
            }
        } else {
            assert(ms.push(m)[0] == ms[0]);
            assert(has_member(ms, x));
        }
    } else {
        assert(ms.push(m).drop_first() =~= Seq::<TeamMember>::empty());
        assert(ms.push(m)[0] == m);
    }
}

proof fn lemma_first_member_without(ms: Seq<TeamMember>, id: ObjectId, x: ObjectId)
    requires
        x != id,
    ensures
        first_member(without_member(ms, id), x) == first_member(ms, x),
    decreases ms.len(),
{
    if ms.len() > 0 {
        let tail = ms.drop_first();
        assert(ms =~= seq![ms[0]] + tail);
        tail.lemma_filter_prepend(ms[0], not_of(id));
        lemma_first_member_without(tail, id, x);
        let f = without_member(ms, id);
        if ms[0].user_id != id {
            assert(f =~= seq![ms[0]] + without_member(tail, id));
            assert(f.drop_first() =~= without_member(tail, id));
        } else {
            assert(f =~= without_member(tail, id));
        }
    }
}

proof fn lemma_without_absent(ms: Seq<TeamMember>, id: ObjectId)
    requires
        !has_member(ms, id),
    ensures
        without_member(ms, id) == ms,
    decreases ms.len(),
{
    if ms.len() > 0 {
        let init = ms.drop_last();
        assert(init.push(ms.last()) =~= ms);
        init.lemma_filter_push(ms.last(), not_of(id));
        assert(ms[ms.len() - 1].user_id != id);
        if has_member(init, id) {
            let i = choose|i: int| 0 <= i < init.len() && (#[trigger] init[i]).user_id == id;
            assert(ms[i].user_id == id);
        }
        lemma_without_absent(init, id);
    }
}

/// The creator of a team leads it, is its member, and holds each of the permissions
/// read, write, delete and manage_members.
pub proof fn creator_leads_new_team(
    t: Team,
    name: Seq<char>,
    description: Option<String>,
    leader: ObjectId,
)
    requires
        is_new_team(t, name, description, leader),
    ensures
        t.leader_id == leader,
        has_member(t.members@, leader),
        first_member(t.members@, leader) matches Some(m) && m.role == TeamRole::Leader,
        grants(t.members@, leader, "read"@),
        grants(t.members@, leader, "write"@),
        grants(t.members@, leader, "delete"@),
        grants(t.members@, leader, "manage_members"@),
{
    lemma_first_member_found(t.members@, leader, 0);
    lemma_first_member_some(t.members@, leader);
    let p = texts(t.members@[0].permissions@);
    assert(p[0] == "read"@ && p[1] == "write"@ && p[2] == "delete"@ && p[3] == "manage_members"@);
}


/// Holding any permission in a team means being its member: the users who may write to a
/// team's boards are among those who may see them.
pub proof fn permission_implies_membership(ms: Seq<TeamMember>, id: ObjectId, permission: Seq<char>)
    requires
        grants(ms, id, permission),
    ensures
        has_member(ms, id),
{
    lemma_first_member_some(ms, id);
}

/// A user added to a team they were not in gets the role asked for: a collaborator may
/// read and write but not manage members, a leader may do all four. Nobody else's entry
/// changes.
pub proof fn added_member_gets_role(before: Team, after: Team, id: ObjectId, role: TeamRole)
    requires
        is_member_added(before, after, id, role),
        !has_member(before.members@, id),
    ensures
        has_member(after.members@, id),
        first_member(after.members@, id) == Some(after.members@.last()),
        after.members@.last().role == role,
        grants(after.members@, id, "read"@),
        grants(after.members@, id, "write"@),
        grants(after.members@, id, "manage_members"@) <==> role == TeamRole::Leader,
        grants(after.members@, id, "delete"@) <==> role == TeamRole::Leader,
        forall|x: ObjectId|
            x != id ==> #[trigger] first_member(after.members@, x) == first_member(
                before.members@,
                x,
            ),
{
    let ms = before.members@;
    let m = after.members@.last();
    assert(ms.push(m) =~= after.members@);
    lemma_first_member_push(ms, m, id);
    lemma_first_member_some(after.members@, id);
    assert forall|x: ObjectId| x != id implies #[trigger] first_member(after.members@, x)
        == first_member(before.members@, x) by {
        lemma_first_member_push(ms, m, x);
        lemma_first_member_some(ms, x);
    }
    reveal_strlit("read");
    reveal_strlit("write");
    reveal_strlit("delete");
    reveal_strlit("manage_members");
    let p = texts(m.permissions@);
    if role == TeamRole::Collaborator {
        assert(p =~= seq!["read"@, "write"@]);
        assert(p[0] == "read"@ && p[1] == "write"@);
        assert(!p.contains("manage_members"@)) by {
            if p.contains("manage_members"@) {
                let k = choose|k: int| 0 <= k < p.len() && p[k] == "manage_members"@;
                assert(p[k].len() != 14);
            }
        }
        assert(!p.contains("delete"@)) by {
            if p.contains("delete"@) {
                let k = choose|k: int| 0 <= k < p.len() && p[k] == "delete"@;
                assert(p[k].len() != 6);
            }
        }
    } else {
        assert(p[0] == "read"@ && p[1] == "write"@ && p[2] == "delete"@ && p[3]
            == "manage_members"@);
    }
}

/// After a user is removed, they are no longer a member, and every other member keeps the
/// entry (role and permissions) they had.
pub proof fn removed_member_is_gone(members: Seq<TeamMember>, id: ObjectId)
    ensures
        !has_member(without_member(members, id), id),
        forall|x: ObjectId|
            x != id ==> #[trigger] first_member(without_member(members, id), x) == first_member(
                members,
                x,
            ),
{
    let f = without_member(members, id);
    if has_member(f, id) {
        let i = choose|i: int| 0 <= i < f.len() && (#[trigger] f[i]).user_id == id;
        members.lemma_filter_pred(not_of(id), i);
    }
    assert forall|x: ObjectId| x != id implies #[trigger] first_member(
        without_member(members, id),
        x,
    ) == first_member(members, x) by {
        lemma_first_member_without(members, id, x);
    }
}

/// Removing a user who was just added to a team they were not in gives back the
/// members the team had.
pub proof fn add_then_remove_restores(before: Team, after: Team, id: ObjectId, role: TeamRole)
    requires
        is_member_added(before, after, id, role),
        !has_member(before.members@, id),
    ensures
        without_member(after.members@, id) == before.members@,
{
    let ms = before.members@;
    let m = after.members@.last();
    assert(ms.push(m) =~= after.members@);
    ms.lemma_filter_push(m, not_of(id));
    lemma_without_absent(ms, id);
}

} // verus!

verus! {

#[derive(Debug)]
pub struct CreateTeamPayload {
    pub name: String,
    pub description: Option<String>,
}

#[derive(Debug)]
pub struct UpdateTeamPayload {
    pub name: Option<String>,
    pub description: Option<String>,
    pub slack_webhook_url: Option<String>,
}

#[derive(Debug)]
pub struct AddMemberPayload {
    pub user_id: String,
    pub role: TeamRole,
}

#[derive(Debug)]
pub struct RemoveMemberPayload {
    pub user_email: String,
}

#[derive(Debug)]
pub struct TeamResponse {
    pub success: bool,
    pub team: Option<Team>,
    pub message: Option<String>,
}

#[derive(Debug)]
pub struct TeamsResponse {
    pub success: bool,
    pub teams: Vec<Team>,
    pub message: Option<String>,
}

/// A member entry as the API shows it, with the member's user name.
#[derive(Debug)]
pub struct TeamMemberWithUsername {
    pub user_id: String,
    pub username: String,
    pub role: String,
    pub joined_at: String,
    pub permissions: Vec<String>,
}

#[derive(Debug)]
pub struct TeamWithUsernames {
    pub _id: Option<String>,
    pub name: String,
    pub description: Option<String>,
    pub leader_id: String,
    pub members: Vec<TeamMemberWithUsername>,
    pub created_at: String,
    pub updated_at: String,
    pub is_active: bool,
}

#[derive(Debug)]
pub struct TeamWithUsernamesResponse {
    pub success: bool,
    pub team: Option<TeamWithUsernames>,
    pub message: Option<String>,
}

} // verus!
