use vstd::prelude::*;

use crate::error::ErrorResponseType;
use crate::federation::{single_match, LinkView};
use crate::model::{
    collides,
    keeps,
    lemma_rows_where_all,
    lemma_rows_where_from,
    lemma_rows_where_none,
    lemma_rows_where_push,
    links_unique,
    rows_for_identity,
    rows_for_user,
    rows_without_key,
    rows_without_user,
    violates_unique,
    RowFilter,
};

verus! {

/// A link that was stored is what a lookup of its external identity returns: once
/// `l` is inserted into a table that accepts it, the identity of `l` matches `l`
/// alone.
pub proof fn lemma_create_then_find(t: Seq<LinkView>, l: LinkView)
    requires
        links_unique(t),
        !violates_unique(t, l),
    ensures
        single_match(rows_for_identity(t.push(l), l.provider_id, l.federation_uid)) == Ok::<
            LinkView,
            ErrorResponseType,
        >(l),
{
    let f = RowFilter::Identity(l.provider_id, l.federation_uid);
    assert forall|i: int| 0 <= i < t.len() implies !keeps(f, #[trigger] t[i]) by {
        assert(!collides(t[i], l));
    }
    lemma_rows_where_none(t, f);
    lemma_rows_where_push(t, f, l);
    assert(rows_for_identity(t.push(l), l.provider_id, l.federation_uid) =~= seq![l]);
}

/// Once a link is stored, a second link with the same external identity, or with the
/// same user and provider, is refused.
pub proof fn lemma_stored_link_refuses_collision(t: Seq<LinkView>, a: LinkView, b: LinkView)
    requires
        collides(a, b),
    ensures
        violates_unique(t.push(a), b),
{
    assert(t.push(a)[t.len() as int] == a);
}

/// After a stored link is deleted by its user and provider, a lookup of its external
/// identity finds nothing.
pub proof fn lemma_delete_then_find(t: Seq<LinkView>, l: LinkView)
    requires
        links_unique(t),
        !violates_unique(t, l),
    ensures
        single_match(
            rows_for_identity(
                rows_without_key(t.push(l), l.user_id, l.provider_id),
                l.provider_id,
                l.federation_uid,
            ),
        ) == Err::<LinkView, ErrorResponseType>(ErrorResponseType::NotFound),
{
    let s = t.push(l);
    let g = RowFilter::OtherKey(l.user_id, l.provider_id);
    let f = RowFilter::Identity(l.provider_id, l.federation_uid);
    let d = rows_without_key(s, l.user_id, l.provider_id);
    lemma_rows_where_from(s, g);
    assert forall|i: int| 0 <= i < d.len() implies !keeps(f, #[trigger] d[i]) by {
        let k = choose|k: int| 0 <= k < s.len() && s[k] == d[i];
        assert(keeps(g, d[i]));
        if k < t.len() {
            assert(s[k] == t[k]);
            assert(!collides(t[k], l));
        }
    }
    lemma_rows_where_none(d, f);
}

/// Deleting a link that is not stored leaves the table as it was.
pub proof fn lemma_delete_missing_is_noop(t: Seq<LinkView>, user_id: Seq<char>, provider_id: Seq<
    char,
>)
    requires
        forall|i: int|
            0 <= i < t.len() ==> !(#[trigger] t[i].user_id == user_id && t[i].provider_id
                == provider_id),
    ensures
        rows_without_key(t, user_id, provider_id) == t,
{
    let g = RowFilter::OtherKey(user_id, provider_id);
    assert forall|i: int| 0 <= i < t.len() implies keeps(g, #[trigger] t[i]) by {
        assert(!(t[i].user_id == user_id && t[i].provider_id == provider_id));
    }
    lemma_rows_where_all(t, g);
}

/// After every link of a user is deleted, the user has no links.
pub proof fn lemma_delete_by_user_then_find(t: Seq<LinkView>, user_id: Seq<char>)
    ensures
        rows_for_user(rows_without_user(t, user_id), user_id).len() == 0,
{
    let g = RowFilter::OtherUser(user_id);
    let f = RowFilter::User(user_id);
    let d = rows_without_user(t, user_id);
    lemma_rows_where_from(t, g);
    assert forall|i: int| 0 <= i < d.len() implies !keeps(f, #[trigger] d[i]) by {
        assert(keeps(g, d[i]));
    }
    lemma_rows_where_none(d, f);
}

} // verus!
