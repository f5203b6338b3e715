use vstd::prelude::*;
use crate::oid::ObjectId;
use crate::utils::time::now_rfc3339;

verus! {

broadcast use vstd::seq_lib::group_seq_properties;

#[derive(Clone, Copy, Debug, PartialEq, Eq, Structural)]
pub enum CompanyRole {
    Owner,
    Member,
    Leader,
}

#[derive(Clone, Debug)]
pub struct CompanyMember {
    pub user_id: ObjectId,
    pub role: CompanyRole,
    /// When the member joined, as RFC 3339 text.
    pub joined_at: String,
}

#[derive(Clone, Debug)]
pub struct Company {
    pub id: Option<ObjectId>,
    pub name: String,
    pub description: Option<String>,
    pub leader_id: ObjectId,
    pub members: Vec<CompanyMember>,
    pub created_at: String,
    pub updated_at: String,
    pub is_active: bool,
    pub slack_webhook_url: Option<String>,
    pub next_card_number: Option<i32>,
    pub card_prefix: Option<String>,
}

/// Whether the user has a member entry.
pub open spec fn in_company(ms: Seq<CompanyMember>, id: ObjectId) -> bool {
    exists|i: int| 0 <= i < ms.len() && (#[trigger] ms[i]).user_id == id
}

/// No user has two member entries.
pub open spec fn unique_members(ms: Seq<CompanyMember>) -> bool {
    forall|i: int, j: int|
        0 <= i < j < ms.len() ==> (#[trigger] ms[i]).user_id != (#[trigger] ms[j]).user_id
}

/// Holds of the member entries of anyone but the user.
pub open spec fn other_than(id: ObjectId) -> spec_fn(CompanyMember) -> bool {
    |m: CompanyMember| m.user_id != id
}

/// The member entries of everyone but the user, in their order.
pub open spec fn company_without(ms: Seq<CompanyMember>, id: ObjectId) -> Seq<CompanyMember> {
    ms.filter(other_than(id))
}

/// What a freshly created company is: active, owned by its creator, who is its only member.
pub open spec fn is_new_company(
    c: Company,
    name: String,
    description: Option<String>,
    leader_id: ObjectId,
) -> bool {
    &&& c.id is None
    &&& c.name == name
    &&& c.description == description
    &&& c.leader_id == leader_id
    &&& c.members@.len() == 1
    &&& c.members@[0].user_id == leader_id
    &&& c.members@[0].role == CompanyRole::Owner
    &&& c.is_active
    &&& c.slack_webhook_url is None
    &&& c.next_card_number is None
    &&& c.card_prefix is None
}

/// What adding a user does: nothing when they are a member already, else one `Member`
/// entry of theirs is appended and all else stays.
pub open spec fn is_company_member_added(before: Company, after: Company, id: ObjectId) -> bool {
    if in_company(before.members@, id) {
        after == before
    } else {
        &&& after.members@.len() == before.members@.len() + 1
        &&& after.members@.drop_last() == before.members@
        &&& after.members@.last().user_id == id
        &&& after.members@.last().role == CompanyRole::Member
        &&& after == Company { members: after.members, ..before }
    }
}

impl Company {
    /// A new active company owned by its creator, who joins it now as its only member.
    pub fn new(name: String, description: Option<String>, leader_id: ObjectId) -> (c: Company)
        ensures
            is_new_company(c, name, description, leader_id),
    {
        let owner_member = CompanyMember {
            user_id: leader_id,
            role: CompanyRole::Owner,
            joined_at: now_rfc3339(),
        };
        let mut members = Vec::new();
        members.push(owner_member);
        Company {
            id: None,
            name,
            description,
            leader_id,
            members,
            created_at: now_rfc3339(),
            updated_at: now_rfc3339(),
            is_active: true,
            slack_webhook_url: None,
            next_card_number: None,
            card_prefix: None,
        }
    }

    /// Adds the user as a `Member` joining now, unless they are a member already.
    pub fn add_member(&mut self, user_id: ObjectId)
        ensures
            is_company_member_added(*old(self), *final(self), user_id),
    {
        let member = CompanyMember {
            user_id,
            role: CompanyRole::Member,
            joined_at: now_rfc3339(),
        };
        if !self.is_member(&user_id) {
            self.members.push(member);
            proof {
                assert(self.members@.drop_last() =~= old(self).members@);
            }
        }
    }

    /// Drops every entry of the user, keeping the others in order.
    pub fn remove_member(&mut self, user_id: &ObjectId)
        ensures
            final(self).members@ == company_without(old(self).members@, *user_id),
            *final(self) == (Company { members: final(self).members, ..*old(self) }),
    {
        let ghost pred = other_than(*user_id);
        let ghost orig = self.members@;
        let mut rest: Vec<CompanyMember> = Vec::new();
        std::mem::swap(&mut rest, &mut self.members);
        let mut kept: Vec<CompanyMember> = Vec::new();
        let n = rest.len();
        let mut k: usize = 0;
        while k < n
            invariant
                n == orig.len(),
                0 <= k <= n,
                pred == other_than(*user_id),
                rest@ == orig.skip(k as int),
                kept@ == orig.take(k as int).filter(pred),
            decreases n - k,
        {
            let m = rest.remove(0);
            proof {
                assert(m == orig[k as int]);
                orig.lemma_take_succ_push(k as int);
                orig.take(k as int).lemma_filter_push(m, pred);
                assert(rest@ =~= orig.skip(k + 1));
            }
            if m.user_id != *user_id {
                kept.push(m);
            }
            k = k + 1;
        }
        proof {
            assert(orig.take(n as int) =~= orig);
        }
        self.members = kept;
    }

    /// Whether the user owns the company.
    pub fn is_owner(&self, user_id: &ObjectId) -> (r: bool)
        ensures
            r == (self.leader_id == *user_id),
    {
        self.leader_id == *user_id
    }

    /// Whether the user has an entry among the members.
    pub fn is_member(&self, user_id: &ObjectId) -> (r: bool)
        ensures
            r == in_company(self.members@, *user_id),
    {
        let n = self.members.len();
        for i in 0..n
            invariant
                n == self.members@.len(),
                forall|j: int| 0 <= j < i ==> self.members@[j].user_id != *user_id,
        {
            if self.members[i].user_id == *user_id {
                return true;
            }
        }
        false
    }
}

/// Adding the same user twice changes nothing the second time.
pub proof fn add_member_idempotent(c0: Company, c1: Company, c2: Company, id: ObjectId)
    requires
        is_company_member_added(c0, c1, id),
        is_company_member_added(c1, c2, id),
    ensures
        c2 == c1,
        in_company(c1.members@, id),
{
    if !in_company(c0.members@, id) {
        assert(c1.members@[c1.members@.len() - 1].user_id == id);
    }
}

/// No user ever has two entries: a new company has one entry, and adding or removing a
/// user keeps the entries unique.
pub proof fn members_stay_unique(
    c: Company,
    name: String,
    description: Option<String>,
    leader: ObjectId,
    before: Company,
    after_add: Company,
    id: ObjectId,
)
    requires
        is_new_company(c, name, description, leader),
        unique_members(before.members@),
        is_company_member_added(before, after_add, id),
    ensures
        unique_members(c.members@),
        unique_members(after_add.members@),
        unique_members(company_without(before.members@, id)),
        in_company(after_add.members@, id),
{
    let ms = before.members@;
    if !in_company(ms, id) {
        let after = after_add.members@;
        assert forall|i: int, j: int| 0 <= i < j < after.len() implies (#[trigger] after[i]).user_id
            != (#[trigger] after[j]).user_id by {
            if j == after.len() - 1 {
                assert(after[i] == ms[i]);
            } else {
                assert(after[i] == ms[i] && after[j] == ms[j]);
            }
        }
        assert(after[after.len() - 1].user_id == id);
    }
    lemma_filter_unique(ms, other_than(id));
}

proof fn lemma_filter_unique(ms: Seq<CompanyMember>, p: spec_fn(CompanyMember) -> bool)
    requires
        unique_members(ms),
    ensures
        unique_members(ms.filter(p)),
    decreases ms.len(),
{
    if ms.len() > 0 {
        let init = ms.drop_last();
        assert(init.push(ms.last()) =~= ms);
        init.lemma_filter_push(ms.last(), p);
        lemma_filter_unique(init, p);
        let f = init.filter(p);
        if p(ms.last()) {
            let g = f.push(ms.last());
            assert forall|i: int, j: int| 0 <= i < j < g.len() implies (#[trigger] g[i]).user_id
                != (#[trigger] g[j]).user_id by {
                if j == g.len() - 1 {
                    init.lemma_filter_pred(p, i);
                    assert(f.contains(f[i]));
                    lemma_filter_subset(init, p, i);
                    let k = choose|k: int| 0 <= k < init.len() && init[k] == f[i];
                    assert(ms[k] == init[k]);
                    assert(ms[ms.len() - 1] == ms.last());
                }
            }
        }
    }
}

proof fn lemma_filter_subset(s: Seq<CompanyMember>, p: spec_fn(CompanyMember) -> bool, i: int)
    requires
        0 <= i < s.filter(p).len(),
    ensures
        exists|k: int| 0 <= k < s.len() && s[k] == s.filter(p)[i],
{
    let f = s.filter(p);
    s.lemma_filter_contains_rev(p, f[i]);
    assert(f.contains(f[i]));
}

/// Removing a user who was just added to a company they were not in gives back the
/// members the company had.
pub proof fn company_add_then_remove_restores(before: Company, after: Company, id: ObjectId)
    requires
        is_company_member_added(before, after, id),
        !in_company(before.members@, id),
    ensures
        company_without(after.members@, id) == before.members@,
{
    let ms = before.members@;
    assert(ms.push(after.members@.last()) =~= after.members@);
    ms.lemma_filter_push(after.members@.last(), other_than(id));
    lemma_company_without_absent(ms, id);
}

proof fn lemma_company_without_absent(ms: Seq<CompanyMember>, id: ObjectId)
    requires
        !in_company(ms, id),
    ensures
        company_without(ms, id) == ms,
    decreases ms.len(),
{
    if ms.len() > 0 {
        let init = ms.drop_last();
        assert(init.push(ms.last()) =~= ms);
        init.lemma_filter_push(ms.last(), other_than(id));
        assert(ms[ms.len() - 1].user_id != id);
        if in_company(init, id) {
            let i = choose|i: int| 0 <= i < init.len() && (#[trigger] init[i]).user_id == id;
            assert(ms[i].user_id == id);
        }
        lemma_company_without_absent(init, id);
    }
}

/// After a user is removed from a company, they are no longer a member.
pub proof fn removed_company_member_is_gone(members: Seq<CompanyMember>, id: ObjectId)
    ensures
        !in_company(company_without(members, id), id),
{
    let f = company_without(members, id);
    if in_company(f, id) {
        let i = choose|i: int| 0 <= i < f.len() && (#[trigger] f[i]).user_id == id;
        members.lemma_filter_pred(other_than(id), i);
    }
}

} // verus!

verus! {

#[derive(Debug)]
pub struct CreateCompanyPayload {
    pub name: String,
    pub description: Option<String>,
}

#[derive(Debug)]
pub struct UpdateCompanyPayload {
    pub name: Option<String>,
    pub description: Option<String>,
}

#[derive(Debug)]
pub struct AddMemberPayload {
    pub user_id: String,
}

#[derive(Debug)]
pub struct RemoveMemberPayload {
    pub user_id: String,
}

#[derive(Debug)]
pub struct CompanyResponse {
    pub success: bool,
    pub company: Option<Company>,
    pub message: Option<String>,
}

#[derive(Debug)]
pub struct CompaniesResponse {
    pub success: bool,
    pub companies: Vec<Company>,
    pub message: Option<String>,
}

#[derive(Debug)]
pub struct CompanyMemberWithUsername {
    pub user_id: String,
    pub username: String,
    pub email: String,
    pub role: String,
    pub joined_at: String,
}

#[derive(Debug)]
pub struct CompanyWithUsernames {
    pub _id: Option<String>,
    pub name: String,
    pub description: Option<String>,
    pub owner_id: String,
    pub owner_username: String,
    pub members: Vec<CompanyMemberWithUsername>,
    pub created_at: String,
    pub updated_at: String,
    pub is_active: bool,
}

#[derive(Debug)]
pub struct CompanyWithUsernamesResponse {
    pub success: bool,
    pub company: Option<CompanyWithUsernames>,
    pub message: Option<String>,
}

} // verus!
