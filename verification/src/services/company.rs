use vstd::prelude::*;
use vstd::string::*;
use crate::models::company::{
    company_without, in_company, is_company_member_added, is_new_company, Company, CompanyMember,
    CompanyMemberWithUsername, CompanyRole, CompanyWithUsernames, CreateCompanyPayload,
    UpdateCompanyPayload,
};
use crate::models::users::User;
use crate::oid::{hex_value, is_lower_object_id_hex, is_object_id_hex, ObjectId};
use crate::text::{lowercase, text, text_eq, to_lowercase};
use crate::utils::errors::CustomError;
use crate::utils::time::now_rfc3339;

verus! {

broadcast use vstd::seq_lib::group_seq_properties;

/// The user whose lower-cased name is "tony" may manage every company.
pub open spec fn is_tony(user: User) -> bool {
    lowercase(user.username@) == "tony"@
}

/// The user may manage the company: they own it, or they are Tony.
pub open spec fn may_manage(user: User, company: Company) -> bool {
    company.leader_id == user.id.unwrap() || is_tony(user)
}

/// Whether the user's lower-cased name is "tony".
pub fn user_is_tony(user: &User) -> (r: bool)
    ensures
        r == is_tony(*user),
{
    let lower = to_lowercase(user.username.as_str());
    text_eq(lower.as_str(), "tony")
}

/// Nothing, when the user is Tony, who alone may create companies.
pub fn require_company_creator(user: &User) -> (r: Result<(), CustomError>)
    ensures
        is_tony(*user) ==> r is Ok,
        !is_tony(*user) ==> (r matches Err(CustomError::Authentication(m)) && m@
            == "Only Tony can create companies"@),
{
    if !user_is_tony(user) {
        return Err(CustomError::Authentication(text("Only Tony can create companies")));
    }
    Ok(())
}

/// A new company owned by Tony, unless a company of that name exists.
pub fn create_company(user: &User, payload: CreateCompanyPayload, name_taken: bool) -> (r: Result<
    Company,
    CustomError,
>)
    requires
        user.id is Some,
    ensures
        !is_tony(*user) ==> (r matches Err(CustomError::Authentication(m)) && m@
            == "Only Tony can create companies"@),
        is_tony(*user) && name_taken ==> (r matches Err(CustomError::Conflict(m)) && m@
            == "Company name already exists"@),
        is_tony(*user) && !name_taken ==> (r matches Ok(c) && is_new_company(
            c,
            payload.name,
            payload.description,
            user.id.unwrap(),
        )),
{
    require_company_creator(user)?;
    if name_taken {
        return Err(CustomError::Conflict(text("Company name already exists")));
    }
    let owner = match user.id {
        Some(id) => id,
        None => ObjectId { hi: 0, lo: 0 },
    };
    Ok(Company::new(payload.name, payload.description, owner))
}

/// The id that a company-id text names; other texts are answered "Invalid company ID".
pub fn company_object_id(company_id: &str) -> (r: Result<ObjectId, CustomError>)
    ensures
        is_object_id_hex(company_id@) ==> (r matches Ok(id) && id.value() == hex_value(
            company_id@,
        )),
        !is_object_id_hex(company_id@) ==> (r matches Err(CustomError::NotFound(m)) && m@
            == "Invalid company ID"@),
{
    match ObjectId::parse_str(company_id) {
        Ok(id) => Ok(id),
        Err(_) => Err(CustomError::NotFound(text("Invalid company ID"))),
    }
}

/// The id that a member's user-id text names; other texts are answered
/// "Invalid user_id format".
pub fn company_member_id(user_id: &str) -> (r: Result<ObjectId, CustomError>)
    ensures
        is_object_id_hex(user_id@) ==> (r matches Ok(id) && id.value() == hex_value(user_id@)),
        !is_object_id_hex(user_id@) ==> (r matches Err(CustomError::NotFound(m)) && m@
            == "Invalid user_id format"@),
{
    match ObjectId::parse_str(user_id) {
        Ok(id) => Ok(id),
        Err(_) => Err(CustomError::NotFound(text("Invalid user_id format"))),
    }
}

/// Nothing, when the user owns the company or is Tony; else an authentication error with
/// the message.
pub fn require_company_owner(user: &User, company: &Company, message: &str) -> (r: Result<
    (),
    CustomError,
>)
    requires
        user.id is Some,
    ensures
        may_manage(*user, *company) ==> r is Ok,
        !may_manage(*user, *company) ==> (r matches Err(CustomError::Authentication(m)) && m@
            == message@),
{
    let owner = match &user.id {
        Some(id) => company.is_owner(id),
        None => false,
    };
    if !owner && !user_is_tony(user) {
        return Err(CustomError::Authentication(text(message)));
    }
    Ok(())
}

/// The companies of the user: first those named in the user's group list that were found,
/// in order; then every other company that lists the user as a member.
pub open spec fn user_companies(listed: Seq<Company>, all: Seq<Company>, id: ObjectId) -> Seq<Company>
    decreases all.len(),
{
    if all.len() == 0 {
        listed
    } else {
        let c = all[0];
        let next = if in_company(c.members@, id) && !has_company_id(listed, c.id) {
            listed.push(c)
        } else {
            listed
        };
        user_companies(next, all.drop_first(), id)
    }
}

/// Some company in the list has the id.
pub open spec fn has_company_id(cs: Seq<Company>, id: Option<ObjectId>) -> bool {
    exists|i: int| 0 <= i < cs.len() && (#[trigger] cs[i]).id == id
}

fn contains_company_id(cs: &Vec<Company>, id: &Option<ObjectId>) -> (r: bool)
    ensures
        r == has_company_id(cs@, *id),
{
    let n = cs.len();
    for i in 0..n
        invariant
            n == cs@.len(),
            forall|j: int| 0 <= j < i ==> cs@[j].id != *id,
    {
        if cs[i].id == *id {
            return true;
        }
    }
    false
}

/// The companies of the user (see `user_companies`), from the companies found for the
/// user's group list and all companies.
pub fn get_user_companies(user: &User, listed: Vec<Option<Company>>, all: Vec<Company>) -> (r: Vec<
    Company,
>)
    requires
        user.id is Some,
    ensures
        r@ == user_companies(crate::services::teams::present(listed@), all@, user.id.unwrap()),
{
    let id = match user.id {
        Some(id) => id,
        None => ObjectId { hi: 0, lo: 0 },
    };
    let mut result = crate::services::company::present_companies(listed);
    let ghost start = result@;
    let ghost orig = all@;
    let mut all = all;
    let n = all.len();
    let mut k: usize = 0;
    while k < n
        invariant
            n == orig.len(),
            0 <= k <= n,
            all@ == orig.skip(k as int),
            user_companies(start, orig, id) == user_companies(result@, orig.skip(k as int), id),
        decreases n - k,
    {
        let c = all.remove(0);
        proof {
            assert(c == orig.skip(k as int)[0]);
            assert(orig.skip(k as int).drop_first() =~= orig.skip(k + 1));
            assert(all@ =~= orig.skip(k + 1));
        }
        if c.is_member(&id) && !contains_company_id(&result, &c.id) {
            result.push(c);
        }
        k = k + 1;
    }
    proof {
        assert(orig.skip(n as int) =~= Seq::<Company>::empty());
    }
    result
}

/// The companies that were found, in order.
pub fn present_companies(found: Vec<Option<Company>>) -> (r: Vec<Company>)
    ensures
        r@ == crate::services::teams::present(found@),
{
    let ghost orig = found@;
    let mut found = found;
    let mut r: Vec<Company> = Vec::new();
    let n = found.len();
    let mut k: usize = 0;
    while k < n
        invariant
            n == orig.len(),
            0 <= k <= n,
            found@ == orig.skip(k as int),
            r@ == crate::services::teams::present(orig.take(k as int)),
        decreases n - k,
    {
        let item = found.remove(0);
        proof {
            assert(item == orig[k as int]);
            assert(orig.take(k + 1).drop_last() =~= orig.take(k as int));
            assert(orig.take(k + 1).last() == orig[k as int]);
            assert(found@ =~= orig.skip(k + 1));
        }
        match item {
            Some(c) => r.push(c),
            None => {},
        }
        k = k + 1;
    }
    proof {
        assert(orig.take(n as int) =~= orig);
    }
    r
}

/// The update asks for a new name that another company already has.
pub open spec fn renames_company_to_taken(name: Option<String>, current: Seq<char>, name_taken: bool) -> bool {
    name matches Some(n) && n@ != current && name_taken
}

/// The new name whose use must be checked: the asked-for name, when it differs from the
/// company's current name.
pub fn company_name_to_check(payload: &UpdateCompanyPayload, company: &Company) -> (r: Option<
    String,
>)
    ensures
        match payload.name {
            Some(n) => if n@ != company.name@ {
                r == Some(n)
            } else {
                r is None
            },
            None => r is None,
        },
{
    match &payload.name {
        Some(n) => if !text_eq(n.as_str(), company.name.as_str()) {
            Some(n.clone())
        } else {
            None
        },
        None => None,
    }
}

/// The company with the asked-for name and description, updated now, when the user may
/// manage it and the new name is free.
pub fn update_company(user: &User, company: Company, payload: UpdateCompanyPayload, name_taken: bool) -> (r:
    Result<Company, CustomError>)
    requires
        user.id is Some,
    ensures
        !may_manage(*user, company) ==> (r matches Err(CustomError::Authentication(m)) && m@
            == "Only company owner can update company"@),
        may_manage(*user, company) && renames_company_to_taken(payload.name, company.name@, name_taken)
            ==> (r matches Err(CustomError::Conflict(m)) && m@ == "Company name already exists"@),
        may_manage(*user, company) && !renames_company_to_taken(payload.name, company.name@, name_taken)
            ==> (r matches Ok(c) && c == (Company {
            name: match payload.name {
                Some(n) => n,
                None => company.name,
            },
            description: match payload.description {
                Some(d) => Some(d),
                None => company.description,
            },
            updated_at: c.updated_at,
            ..company
        })),
{
    update_company_at(user, company, payload, name_taken, now_rfc3339())
}

/// The company with the asked-for name and description, updated at the given time, when the
/// user may manage it and the new name is free.
pub fn update_company_at(user: &User, company: Company, payload: UpdateCompanyPayload, name_taken: bool, now: String) -> (r:
    Result<Company, CustomError>)
    requires
        user.id is Some,
    ensures
        !may_manage(*user, company) ==> (r matches Err(CustomError::Authentication(m)) && m@
            == "Only company owner can update company"@),
        may_manage(*user, company) && renames_company_to_taken(payload.name, company.name@, name_taken)
            ==> (r matches Err(CustomError::Conflict(m)) && m@ == "Company name already exists"@),
        may_manage(*user, company) && !renames_company_to_taken(payload.name, company.name@, name_taken)
            ==> (r matches Ok(c) && c == (Company {
            name: match payload.name {
                Some(n) => n,
                None => company.name,
            },
            description: match payload.description {
                Some(d) => Some(d),
                None => company.description,
            },
            updated_at: now,
            ..company
        })),
{
    require_company_owner(user, &company, "Only company owner can update company")?;
    let mut company = company;
    match payload.name {
        Some(new_name) => {
            if !text_eq(new_name.as_str(), company.name.as_str()) && name_taken {
                return Err(CustomError::Conflict(text("Company name already exists")));
            }
            company.name = new_name;
        },
        None => {},
    }
    match payload.description {
        Some(description) => {
            company.description = Some(description);
        },
        None => {},
    }
    company.updated_at = now;
    Ok(company)
}

/// The company with the user added as a member and updated now, when the requester may
/// manage it and the user is not a member yet.
pub fn add_member(requester: &User, company: Company, new_member_id: ObjectId) -> (r: Result<
    Company,
    CustomError,
>)
    requires
        requester.id is Some,
    ensures
        !may_manage(*requester, company) ==> (r matches Err(CustomError::Authentication(m)) && m@
            == "Only company owner can add members"@),
        may_manage(*requester, company) && in_company(company.members@, new_member_id) ==> (r matches Err(
            CustomError::Conflict(m),
        ) && m@ == "User is already a member of this company"@),
        may_manage(*requester, company) && !in_company(company.members@, new_member_id) ==> (r matches Ok(
            c,
        ) && is_company_member_added(
            company,
            Company { updated_at: company.updated_at, ..c },
            new_member_id,
        )),
{
    require_company_owner(requester, &company, "Only company owner can add members")?;
    if company.is_member(&new_member_id) {
        return Err(CustomError::Conflict(text("User is already a member of this company")));
    }
    let mut company = company;
    company.add_member(new_member_id);
    company.updated_at = now_rfc3339();
    Ok(company)
}

/// The company without the member and updated now, when the requester may manage it, the
/// member is not its owner, and the member belongs to it.
pub fn remove_member(requester: &User, company: Company, member_id: ObjectId) -> (r: Result<
    Company,
    CustomError,
>)
    requires
        requester.id is Some,
    ensures
        !may_manage(*requester, company) ==> (r matches Err(CustomError::Authentication(m)) && m@
            == "Only company owner can remove members"@),
        may_manage(*requester, company) && company.leader_id == member_id ==> (r matches Err(
            CustomError::Authentication(m),
        ) && m@ == "Cannot remove the company owner"@),
        may_manage(*requester, company) && company.leader_id != member_id && !in_company(
            company.members@,
            member_id,
        ) ==> (r matches Err(CustomError::NotFound(m)) && m@
            == "User is not a member of this company"@),
        may_manage(*requester, company) && company.leader_id != member_id && in_company(
            company.members@,
            member_id,
        ) ==> (r matches Ok(c) && c.members@ == company_without(company.members@, member_id) && c
            == (Company { members: c.members, updated_at: c.updated_at, ..company })),
{
    require_company_owner(requester, &company, "Only company owner can remove members")?;
    if company.is_owner(&member_id) {
        return Err(CustomError::Authentication(text("Cannot remove the company owner")));
    }
    if !company.is_member(&member_id) {
        return Err(CustomError::NotFound(text("User is not a member of this company")));
    }
    let mut company = company;
    company.remove_member(&member_id);
    company.updated_at = now_rfc3339();
    Ok(company)
}

/// Nothing, when the user may manage (and so delete) the company.
pub fn delete_company(user: &User, company: &Company) -> (r: Result<(), CustomError>)
    requires
        user.id is Some,
    ensures
        may_manage(*user, *company) ==> r is Ok,
        !may_manage(*user, *company) ==> (r matches Err(CustomError::Authentication(m)) && m@
            == "Only company owner can delete company"@),
{
    require_company_owner(user, company, "Only company owner can delete company")
}

/// The name of a company role, as written in the API.
pub open spec fn company_role_name(r: CompanyRole) -> Seq<char> {
    match r {
        CompanyRole::Owner => "Owner"@,
        CompanyRole::Member => "Member"@,
        CompanyRole::Leader => "Leader"@,
    }
}

/// The API entry shows the member entry with the user's name and e-mail.
pub open spec fn shows_company_member(e: CompanyMemberWithUsername, m: CompanyMember, u: User) -> bool {
    &&& is_lower_object_id_hex(e.user_id@)
    &&& hex_value(e.user_id@) == m.user_id.value()
    &&& e.username == u.username
    &&& e.email == u.email
    &&& e.role@ == company_role_name(m.role)
    &&& e.joined_at == m.joined_at
}

/// Pairs each member entry with the user that was found for it, dropping those not found.
pub open spec fn found_members(ms: Seq<CompanyMember>, us: Seq<Option<User>>) -> Seq<(CompanyMember, User)>
    decreases ms.len(),
{
    if ms.len() == 0 || us.len() == 0 {
        Seq::empty()
    } else {
        let rest = found_members(ms.drop_last(), us.drop_last());
        match us.last() {
            Some(u) => rest.push((ms.last(), u)),
            None => rest,
        }
    }
}

/// Each API entry shows the corresponding found member.
pub open spec fn shows_all_company(es: Seq<CompanyMemberWithUsername>, ps: Seq<(CompanyMember, User)>) -> bool {
    &&& es.len() == ps.len()
    &&& forall|k: int| 0 <= k < es.len() ==> shows_company_member(#[trigger] es[k], ps[k].0, ps[k].1)
}

proof fn lemma_shows_all_company_push(
    es: Seq<CompanyMemberWithUsername>,
    ps: Seq<(CompanyMember, User)>,
    e: CompanyMemberWithUsername,
    p: (CompanyMember, User),
)
    requires
        shows_all_company(es, ps),
        shows_company_member(e, p.0, p.1),
    ensures
        shows_all_company(es.push(e), ps.push(p)),
{
    assert forall|k: int| 0 <= k < es.push(e).len() implies shows_company_member(
        #[trigger] es.push(e)[k],
        ps.push(p)[k].0,
        ps.push(p)[k].1,
    ) by {
        if k < es.len() {
            assert(es.push(e)[k] == es[k]);
            assert(ps.push(p)[k] == ps[k]);
        }
    }
}

fn company_role_text(r: CompanyRole) -> (t: String)
    ensures
        t@ == company_role_name(r),
{
    match r {
        CompanyRole::Owner => text("Owner"),
        CompanyRole::Member => text("Member"),
        CompanyRole::Leader => text("Leader"),
    }
}

/// The company as the API shows it: the owner's name, and each member whose user was found
/// (`member_users[i]` is what was found for the i-th member), with the user's name and
/// e-mail; ids in hex.
pub fn get_company_with_usernames(company: Company, owner: &User, member_users: Vec<Option<User>>) -> (r:
    CompanyWithUsernames)
    requires
        member_users@.len() == company.members@.len(),
    ensures
        shows_all_company(r.members@, found_members(company.members@, member_users@)),
        match company.id {
            Some(id) => r._id matches Some(h) && is_lower_object_id_hex(h@) && hex_value(h@)
                == id.value(),
            None => r._id is None,
        },
        r.name == company.name,
        r.description == company.description,
        is_lower_object_id_hex(r.owner_id@),
        hex_value(r.owner_id@) == company.leader_id.value(),
        r.owner_username == owner.username,
        r.created_at == company.created_at,
        r.updated_at == company.updated_at,
        r.is_active == company.is_active,
{
    let ghost ms = company.members@;
    let ghost us = member_users@;
    let mut members: Vec<CompanyMemberWithUsername> = Vec::new();
    let n = company.members.len();
    for i in 0..n
        invariant
            n == ms.len() == us.len(),
            ms == company.members@,
            us == member_users@,
            shows_all_company(members@, found_members(ms.take(i as int), us.take(i as int))),
    {
        let ghost before = found_members(ms.take(i as int), us.take(i as int));
        proof {
            assert(ms.take(i + 1).drop_last() =~= ms.take(i as int));
            assert(us.take(i + 1).drop_last() =~= us.take(i as int));
            assert(ms.take(i + 1).last() == ms[i as int]);
            assert(us.take(i + 1).last() == us[i as int]);
        }
        let member = &company.members[i];
        match &member_users[i] {
            Some(user) => {
                let entry = CompanyMemberWithUsername {
                    user_id: member.user_id.to_hex(),
                    username: user.username.clone(),
                    email: user.email.clone(),
                    role: company_role_text(member.role),
                    joined_at: member.joined_at.clone(),
                };
                proof {
                    lemma_shows_all_company_push(members@, before, entry, (ms[i as int], *user));
                }
                members.push(entry);
            },
            None => {},
        }
    }
    proof {
        assert(ms.take(n as int) =~= ms);
        assert(us.take(n as int) =~= us);
    }
    let id = match &company.id {
        Some(id) => Some(id.to_hex()),
        None => None,
    };
    CompanyWithUsernames {
        _id: id,
        name: company.name,
        description: company.description,
        owner_id: company.leader_id.to_hex(),
        owner_username: owner.username.clone(),
        members,
        created_at: company.created_at,
        updated_at: company.updated_at,
        is_active: company.is_active,
    }
}


proof fn lemma_user_companies_keeps(listed: Seq<Company>, all: Seq<Company>, id: ObjectId)
    ensures
        user_companies(listed, all, id).len() >= listed.len(),
        forall|i: int| 0 <= i < listed.len() ==> #[trigger] user_companies(listed, all, id)[i] == listed[i],
    decreases all.len(),
{
    if all.len() > 0 {
        let c = all[0];
        let next = if in_company(c.members@, id) && !has_company_id(listed, c.id) {
            listed.push(c)
        } else {
            listed
        };
        lemma_user_companies_keeps(next, all.drop_first(), id);
        assert forall|i: int| 0 <= i < listed.len() implies #[trigger] user_companies(listed, all, id)[i]
            == listed[i] by {
            assert(next[i] == listed[i]);
        }
    }
}

/// Every company that lists the user as a member is among the user's companies (under its
/// id), and a company found through the user's groups is never added a second time.
pub proof fn user_companies_complete(listed: Seq<Company>, all: Seq<Company>, id: ObjectId)
    ensures
        forall|j: int|
            0 <= j < all.len() && in_company((#[trigger] all[j]).members@, id) ==> has_company_id(
                user_companies(listed, all, id),
                all[j].id,
            ),
        forall|i: int|
            0 <= i < listed.len() ==> #[trigger] user_companies(listed, all, id)[i] == listed[i],
    decreases all.len(),
{
    lemma_user_companies_keeps(listed, all, id);
    if all.len() > 0 {
        let c = all[0];
        let next = if in_company(c.members@, id) && !has_company_id(listed, c.id) {
            listed.push(c)
        } else {
            listed
        };
        user_companies_complete(next, all.drop_first(), id);
        lemma_user_companies_keeps(next, all.drop_first(), id);
        let result = user_companies(listed, all, id);
        assert forall|j: int| 0 <= j < all.len() && in_company((#[trigger] all[j]).members@, id)
            implies has_company_id(result, all[j].id) by {
            if j == 0 {
                if has_company_id(listed, c.id) {
                    let k = choose|k: int| 0 <= k < listed.len() && (#[trigger] listed[k]).id == c.id;
                    assert(result[k] == listed[k]);
                } else {
                    assert(next[listed.len() as int] == c);
                    assert(result[listed.len() as int] == next[listed.len() as int]);
                }
            } else {
                assert(all.drop_first()[j - 1] == all[j]);
            }
        }
    }
}

} // verus!
