use vstd::prelude::*;
use vstd::string::*;
use crate::text::{contains_text, text, texts};

verus! {

broadcast use vstd::seq_lib::group_seq_properties;

/// An ascending index over the fields, in order; `what` names it in error messages.
pub struct IndexPlan {
    pub fields: Vec<String>,
    pub what: String,
}

/// The name MongoDB gives an ascending index: each field followed by "_1", joined by "_".
pub open spec fn index_name_of(fields: Seq<Seq<char>>) -> Seq<char>
    decreases fields.len(),
{
    if fields.len() == 0 {
        Seq::empty()
    } else if fields.len() == 1 {
        fields[0] + "_1"@
    } else {
        index_name_of(fields.drop_last()) + "_"@ + fields.last() + "_1"@
    }
}

impl IndexPlan {
    pub open spec fn spec_name(self) -> Seq<char> {
        index_name_of(texts(self.fields@))
    }

    /// The name of the index.
    pub fn name(&self) -> (r: String)
        ensures
            r@ == self.spec_name(),
    {
        let mut r = String::new();
        let n = self.fields.len();
        for i in 0..n
            invariant
                n == self.fields@.len(),
                r@ == index_name_of(texts(self.fields@).take(i as int)),
        {
            proof {
                let t = texts(self.fields@).take(i + 1);
                assert(t.drop_last() =~= texts(self.fields@).take(i as int));
                assert(t.last() == self.fields@[i as int]@);
                if i == 0 {
                    assert(texts(self.fields@).take(0) =~= Seq::<Seq<char>>::empty());
                }
            }
            if i > 0 {
                r.append("_");
            }
            r.append(self.fields[i].as_str());
            r.append("_1");
            proof {
                let t = texts(self.fields@).take(i + 1);
                assert(r@ =~= index_name_of(t));
            }
        }
        proof {
            assert(texts(self.fields@).take(n as int) =~= texts(self.fields@));
        }
        r
    }
}

fn plan(fields: Vec<String>, what: &str) -> (r: IndexPlan)
    ensures
        r.fields == fields,
        r.what@ == what@,
{
    IndexPlan { fields, what: text(what) }
}

/// The indexes the users collection needs: by user name, by e-mail, and by both.
pub fn user_indexes() -> (r: Vec<IndexPlan>)
    ensures
        r@.len() == 3,
        texts(r@[0].fields@) == seq!["username"@],
        texts(r@[1].fields@) == seq!["email"@],
        texts(r@[2].fields@) == seq!["username"@, "email"@],
{
    let mut by_name = Vec::new();
    by_name.push(text("username"));
    let mut by_email = Vec::new();
    by_email.push(text("email"));
    let mut by_both = Vec::new();
    by_both.push(text("username"));
    by_both.push(text("email"));
    let mut r = Vec::new();
    r.push(plan(by_name, "username index"));
    r.push(plan(by_email, "email index"));
    r.push(plan(by_both, "compound index"));
    proof {
        assert(texts(r@[0].fields@) =~= seq!["username"@]);
        assert(texts(r@[1].fields@) =~= seq!["email"@]);
        assert(texts(r@[2].fields@) =~= seq!["username"@, "email"@]);
    }
    r
}

/// The indexes the refresh-token collection needs: by owner and expiry, and by hash.
pub fn refresh_token_indexes() -> (r: Vec<IndexPlan>)
    ensures
        r@.len() == 2,
        texts(r@[0].fields@) == seq!["user_email"@, "expires_at"@],
        texts(r@[1].fields@) == seq!["token_hash"@],
{
    let mut by_owner = Vec::new();
    by_owner.push(text("user_email"));
    by_owner.push(text("expires_at"));
    let mut by_hash = Vec::new();
    by_hash.push(text("token_hash"));
    let mut r = Vec::new();
    r.push(plan(by_owner, "user_email_expires index"));
    r.push(plan(by_hash, "token_hash index"));
    proof {
        assert(texts(r@[0].fields@) =~= seq!["user_email"@, "expires_at"@]);
        assert(texts(r@[1].fields@) =~= seq!["token_hash"@]);
    }
    r
}

/// Holds of the plans whose index does not exist yet.
pub open spec fn not_existing(existing: Seq<Seq<char>>) -> spec_fn(IndexPlan) -> bool {
    |p: IndexPlan| !existing.contains(p.spec_name())
}

/// The wanted indexes that do not exist yet, in order.
pub fn create_performance_indexes(existing: &Vec<String>, wanted: Vec<IndexPlan>) -> (r: Vec<IndexPlan>)
    ensures
        r@ == wanted@.filter(not_existing(texts(existing@))),
{
    let ghost pred = not_existing(texts(existing@));
    let ghost orig = wanted@;
    let mut rest = wanted;
    let mut kept: Vec<IndexPlan> = Vec::new();
    let n = rest.len();
    let mut i: usize = 0;
    while i < n
        invariant
            n == orig.len(),
            0 <= i <= n,
            pred == not_existing(texts(existing@)),
            rest@ == orig.skip(i as int),
            kept@ == orig.take(i as int).filter(pred),
        decreases n - i,
    {
        let p = rest.remove(0);
        proof {
            assert(p == orig[i as int]);
            orig.lemma_take_succ_push(i as int);
            orig.take(i as int).lemma_filter_push(p, pred);
            assert(rest@ =~= orig.skip(i + 1));
        }
        let name = p.name();
        if !contains_text(existing, name.as_str()) {
            kept.push(p);
        }
        i = i + 1;
    }
    proof {
        assert(orig.take(n as int) =~= orig);
    }
    kept
}


/// The names of the planned indexes.
pub open spec fn plan_names(ps: Seq<IndexPlan>) -> Seq<Seq<char>> {
    ps.map_values(|p: IndexPlan| p.spec_name())
}

/// Planning is idempotent: once the missing indexes are created, planning again over the
/// grown list of existing indexes finds nothing left to create.
pub proof fn planning_again_finds_nothing(existing: Seq<Seq<char>>, wanted: Seq<IndexPlan>)
    ensures
        wanted.filter(
            not_existing(existing + plan_names(wanted.filter(not_existing(existing)))),
        ).len() == 0,
{
    let missing = wanted.filter(not_existing(existing));
    let after = existing + plan_names(missing);
    assert forall|i: int| 0 <= i < wanted.len() implies after.contains(
        (#[trigger] wanted[i]).spec_name(),
    ) by {
        let name = wanted[i].spec_name();
        if existing.contains(name) {
            let k = choose|k: int| 0 <= k < existing.len() && existing[k] == name;
            assert(after[k] == name);
        } else {
            wanted.lemma_filter_contains(not_existing(existing), i);
            let k = choose|k: int| 0 <= k < missing.len() && missing[k] == wanted[i];
            assert(plan_names(missing)[k] == name);
            assert(after[existing.len() + k] == name);
        }
    }
    assert(wanted.all(|x: IndexPlan| !not_existing(after)(x))) by {
        assert forall|i: int| 0 <= i < wanted.len() implies !not_existing(after)(
            #[trigger] wanted[i],
        ) by {
            assert(after.contains(wanted[i].spec_name()));
        }
    }
    wanted.lemma_all_neg_filter_empty(not_existing(after));
}

} // verus!
