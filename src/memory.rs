use vstd::prelude::*;

use crate::error::{ErrorResponse, ErrorResponseType};
use crate::federation::{links_of, text_contains, LinkView, UserFederation, UNIQUE_MARKER};
use crate::model::{
    keeps,
    lemma_rows_where_len,
    lemma_rows_where_push,
    lemma_rows_where_unique,
    links_unique,
    rows_for_identity,
    rows_for_user,
    rows_where,
    rows_without_key,
    rows_without_user,
    violates_unique,
    collides,
    RowFilter,
};

verus! {

/// The message with which the in-memory engine refuses a row that breaks a constraint.
pub const UNIQUE_FAILURE_MESSAGE: &'static str = "UNIQUE constraint failed: user_federations";

/// The executable form of a `WHERE` condition.
enum Selector {
    User(String),
    Identity(String, String),
    OtherKey(String, String),
    OtherUser(String),
}

impl View for Selector {
    type V = RowFilter;

    closed spec fn view(&self) -> RowFilter {
        match self {
            Selector::User(u) => RowFilter::User(u@),
            Selector::Identity(p, f) => RowFilter::Identity(p@, f@),
            Selector::OtherKey(u, p) => RowFilter::OtherKey(u@, p@),
            Selector::OtherUser(u) => RowFilter::OtherUser(u@),
        }
    }
}

impl Selector {
    fn keeps(&self, l: &UserFederation) -> (r: bool)
        ensures
            r == keeps(self@, l@),
    {
        match self {
            Selector::User(u) => l.user_id == *u,
            Selector::Identity(p, f) => l.provider_id == *p && l.federation_uid == *f,
            Selector::OtherKey(u, p) => !(l.user_id == *u && l.provider_id == *p),
            Selector::OtherUser(u) => l.user_id != *u,
        }
    }
}

fn copy_link(l: &UserFederation) -> (r: UserFederation)
    ensures
        r@ == l@,
{
    UserFederation {
        user_id: l.user_id.clone(),
        provider_id: l.provider_id.clone(),
        federation_uid: l.federation_uid.clone(),
    }
}

/// The rows of `rows` that `sel` keeps, in their order.
fn select_rows(rows: &Vec<UserFederation>, sel: &Selector) -> (r: Vec<UserFederation>)
    ensures
        links_of(r@) == rows_where(links_of(rows@), sel@),
{
    let mut out: Vec<UserFederation> = Vec::new();
    let mut i: usize = 0;
    while i < rows.len()
        invariant
            i <= rows@.len(),
            links_of(out@) == rows_where(links_of(rows@).take(i as int), sel@),
        decreases rows@.len() - i,
    {
        proof {
            assert(links_of(rows@).take(i + 1) =~= links_of(rows@).take(i as int).push(rows@[i as int]@));
            lemma_rows_where_push(links_of(rows@).take(i as int), sel@, rows@[i as int]@);
        }
        if sel.keeps(&rows[i]) {
            let l = copy_link(&rows[i]);
            proof {
                assert(links_of(out@.push(l)) =~= links_of(out@).push(l@));
            }
            out.push(l);
        }
        i = i + 1;
    }
    proof {
        assert(links_of(rows@).take(rows@.len() as int) =~= links_of(rows@));
    }
    out
}

/// Whether a row of `rows` shares its identity, or its user and provider, with `link`.
fn has_collision(rows: &Vec<UserFederation>, link: &UserFederation) -> (r: bool)
    ensures
        r == violates_unique(links_of(rows@), link@),
{
    let mut i: usize = 0;
    while i < rows.len()
        invariant
            i <= rows@.len(),
            forall|j: int| 0 <= j < i ==> !collides(#[trigger] links_of(rows@)[j], link@),
        decreases rows@.len() - i,
    {
        let row = &rows[i];
        if (row.provider_id == link.provider_id && row.federation_uid == link.federation_uid)
            || (row.user_id == link.user_id && row.provider_id == link.provider_id) {
            assert(collides(links_of(rows@)[i as int], link@));
            return true;
        }
        i = i + 1;
    }
    false
}

/// A storage engine that holds the table in memory, with the same statements and
/// constraints as the persistent ones.
pub struct MemoryTable {
    rows: Vec<UserFederation>,
}

impl View for MemoryTable {
    type V = Seq<LinkView>;

    closed spec fn view(&self) -> Seq<LinkView> {
        links_of(self.rows@)
    }
}

impl MemoryTable {
    /// The table's constraints hold.
    pub open spec fn wf(&self) -> bool {
        links_unique(self@)
    }

    /// An empty table.
    pub fn new() -> (r: MemoryTable)
        ensures
            r@ == Seq::<LinkView>::empty(),
            r.wf(),
    {
        let r = MemoryTable { rows: Vec::new() };
        assert(r@ =~= Seq::<LinkView>::empty());
        r
    }

    /// Runs the insert statement: stores `link`, or refuses it with a uniqueness error
    /// where it shares its identity or its user and provider with a stored row.
    pub fn insert(&mut self, link: &UserFederation) -> (r: Result<usize, ErrorResponse>)
        requires
            old(self).wf(),
        ensures
            final(self).wf(),
            !violates_unique(old(self)@, link@) ==> r == Ok::<usize, ErrorResponse>(1)
                && final(self)@ == old(self)@.push(link@),
            violates_unique(old(self)@, link@) ==> r is Err && final(self)@ == old(self)@
                && r->Err_0.error == ErrorResponseType::Database && text_contains(
                r->Err_0.message@,
                UNIQUE_MARKER@,
            ),
    {
        if has_collision(&self.rows, link) {
            let e = ErrorResponse::new(ErrorResponseType::Database, UNIQUE_FAILURE_MESSAGE);
            proof {
                reveal_strlit("UNIQUE constraint failed: user_federations");
                reveal_strlit("UNIQUE");
                assert(UNIQUE_MARKER@ == "UNIQUE"@);
                assert(e.message@.subrange(0, 0 + UNIQUE_MARKER@.len() as int) =~= UNIQUE_MARKER@);
                assert(text_contains(e.message@, UNIQUE_MARKER@));
            }
            return Err(e);
        }
        let l = copy_link(link);
        proof {
            assert(links_of(self.rows@.push(l)) =~= self@.push(link@));
        }
        self.rows.push(l);
        proof {
            assert forall|a: int, b: int|
                0 <= a < self@.len() && 0 <= b < self@.len() && a != b implies !collides(
                #[trigger] self@[a],
                #[trigger] self@[b],
            ) by {
                if a < old(self)@.len() && b < old(self)@.len() {
                    assert(self@[a] == old(self)@[a] && self@[b] == old(self)@[b]);
                } else if a < old(self)@.len() {
                    assert(self@[a] == old(self)@[a]);
                } else {
                    assert(self@[b] == old(self)@[b]);
                }
            }
        }
        Ok(1)
    }

    /// Runs the select statement for the links of `user_id`.
    pub fn select_for_user(&self, user_id: &str) -> (r: Vec<UserFederation>)
        ensures
            links_of(r@) == rows_for_user(self@, user_id@),
    {
        select_rows(&self.rows, &Selector::User(user_id.to_owned()))
    }

    /// Runs the select statement for the links of one external identity.
    pub fn select_by_federation_id(&self, provider_id: &str, federation_uid: &str) -> (r: Vec<
        UserFederation,
    >)
        ensures
            links_of(r@) == rows_for_identity(self@, provider_id@, federation_uid@),
    {
        select_rows(
            &self.rows,
            &Selector::Identity(provider_id.to_owned(), federation_uid.to_owned()),
        )
    }

    /// Replaces the rows by those that `sel` keeps; returns how many were removed.
    fn retain(&mut self, sel: &Selector) -> (r: usize)
        requires
            old(self).wf(),
        ensures
            final(self).wf(),
            final(self)@ == rows_where(old(self)@, sel@),
            r == old(self)@.len() - final(self)@.len(),
    {
        let kept = select_rows(&self.rows, sel);
        proof {
            lemma_rows_where_unique(self@, sel@);
            lemma_rows_where_len(self@, sel@);
        }
        let removed = self.rows.len() - kept.len();
        self.rows = kept;
        removed
    }

    /// Runs the delete statement for the link of `user_id` with `provider_id`; returns
    /// how many rows it removed.
    pub fn delete(&mut self, user_id: &str, provider_id: &str) -> (r: usize)
        requires
            old(self).wf(),
        ensures
            final(self).wf(),
            final(self)@ == rows_without_key(old(self)@, user_id@, provider_id@),
            r == old(self)@.len() - final(self)@.len(),
    {
        self.retain(&Selector::OtherKey(user_id.to_owned(), provider_id.to_owned()))
    }

    /// Runs the delete statement for every link of `user_id`; returns how many rows it
    /// removed.
    pub fn delete_by_user_id(&mut self, user_id: &str) -> (r: usize)
        requires
            old(self).wf(),
        ensures
            final(self).wf(),
            final(self)@ == rows_without_user(old(self)@, user_id@),
            r == old(self)@.len() - final(self)@.len(),
    {
        self.retain(&Selector::OtherUser(user_id.to_owned()))
    }
}

} // verus!
