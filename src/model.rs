use vstd::prelude::*;

use crate::federation::LinkView;

verus! {

/// Two links name the same external identity.
pub open spec fn same_identity(a: LinkView, b: LinkView) -> bool {
    a.provider_id == b.provider_id && a.federation_uid == b.federation_uid
}

/// Two links bind the same user to the same provider.
pub open spec fn same_key(a: LinkView, b: LinkView) -> bool {
    a.user_id == b.user_id && a.provider_id == b.provider_id
}

/// Two links cannot both be stored.
pub open spec fn collides(a: LinkView, b: LinkView) -> bool {
    same_identity(a, b) || same_key(a, b)
}

/// The table's constraints: no two rows share an external identity, and no user is
/// linked twice to one provider.
pub open spec fn links_unique(t: Seq<LinkView>) -> bool {
    forall|i: int, j: int|
        0 <= i < t.len() && 0 <= j < t.len() && i != j ==> !collides(#[trigger] t[i], #[trigger] t[j])
}

/// Storing `l` beside the rows `t` would break the table's constraints.
pub open spec fn violates_unique(t: Seq<LinkView>, l: LinkView) -> bool {
    exists|i: int| 0 <= i < t.len() && collides(#[trigger] t[i], l)
}

/// The condition of a statement's `WHERE` clause.
pub ghost enum RowFilter {
    /// `user_id = u`
    User(Seq<char>),
    /// `provider_id = p AND federation_uid = f`
    Identity(Seq<char>, Seq<char>),
    /// `NOT (user_id = u AND provider_id = p)`
    OtherKey(Seq<char>, Seq<char>),
    /// `NOT (user_id = u)`
    OtherUser(Seq<char>),
}

/// The row `l` meets the condition `f`.
pub open spec fn keeps(f: RowFilter, l: LinkView) -> bool {
    match f {
        RowFilter::User(u) => l.user_id == u,
        RowFilter::Identity(p, fid) => l.provider_id == p && l.federation_uid == fid,
        RowFilter::OtherKey(u, p) => !(l.user_id == u && l.provider_id == p),
        RowFilter::OtherUser(u) => l.user_id != u,
    }
}

/// The rows of `t` that meet `f`, in their order.
pub open spec fn rows_where(t: Seq<LinkView>, f: RowFilter) -> Seq<LinkView> {
    t.filter(|l: LinkView| keeps(f, l))
}

/// What selecting the links of user `u` returns.
pub open spec fn rows_for_user(t: Seq<LinkView>, u: Seq<char>) -> Seq<LinkView> {
    rows_where(t, RowFilter::User(u))
}

/// What selecting the links of the identity `f` at provider `p` returns.
pub open spec fn rows_for_identity(t: Seq<LinkView>, p: Seq<char>, f: Seq<char>) -> Seq<LinkView> {
    rows_where(t, RowFilter::Identity(p, f))
}

/// The table after deleting the link of user `u` with provider `p`.
pub open spec fn rows_without_key(t: Seq<LinkView>, u: Seq<char>, p: Seq<char>) -> Seq<LinkView> {
    rows_where(t, RowFilter::OtherKey(u, p))
}

/// The table after deleting every link of user `u`.
pub open spec fn rows_without_user(t: Seq<LinkView>, u: Seq<char>) -> Seq<LinkView> {
    rows_where(t, RowFilter::OtherUser(u))
}

pub proof fn lemma_rows_where_push(t: Seq<LinkView>, f: RowFilter, x: LinkView)
    ensures
        rows_where(t.push(x), f) == (if keeps(f, x) {
            rows_where(t, f).push(x)
        } else {
            rows_where(t, f)
        }),
{
    reveal(Seq::filter);
    assert(t.push(x).drop_last() =~= t);
}

/// Filtering removes rows and adds none.
pub proof fn lemma_rows_where_len(t: Seq<LinkView>, f: RowFilter)
    ensures
        rows_where(t, f).len() <= t.len(),
    decreases t.len(),
{
    if t.len() > 0 {
        let s = t.drop_last();
        assert(s.push(t.last()) =~= t);
        lemma_rows_where_len(s, f);
        lemma_rows_where_push(s, f, t.last());
    } else {
        reveal(Seq::filter);
    }
}

/// Filtering keeps only rows of the table.
pub proof fn lemma_rows_where_from(t: Seq<LinkView>, f: RowFilter)
    ensures
        forall|i: int|
            0 <= i < rows_where(t, f).len() ==> {
                &&& keeps(f, #[trigger] rows_where(t, f)[i])
                &&& exists|k: int| 0 <= k < t.len() && t[k] == rows_where(t, f)[i]
            },
    decreases t.len(),
{
    if t.len() > 0 {
        let s = t.drop_last();
        lemma_rows_where_from(s, f);
        assert(s.push(t.last()) =~= t);
        lemma_rows_where_push(s, f, t.last());
        assert forall|i: int| 0 <= i < rows_where(t, f).len() implies {
            &&& keeps(f, #[trigger] rows_where(t, f)[i])
            &&& exists|k: int| 0 <= k < t.len() && t[k] == rows_where(t, f)[i]
        } by {
            if i < rows_where(s, f).len() {
                let k = choose|k: int| 0 <= k < s.len() && s[k] == rows_where(s, f)[i];
                assert(t[k] == s[k]);
            } else {
                assert(t[t.len() - 1] == rows_where(t, f)[i]);
            }
        }
    } else {
        reveal(Seq::filter);
    }
}

/// A filter that no row meets yields nothing.
pub proof fn lemma_rows_where_none(t: Seq<LinkView>, f: RowFilter)
    requires
        forall|i: int| 0 <= i < t.len() ==> !keeps(f, #[trigger] t[i]),
    ensures
        rows_where(t, f).len() == 0,
{
    lemma_rows_where_from(t, f);
    if rows_where(t, f).len() > 0 {
        assert(keeps(f, rows_where(t, f)[0]));
    }
}

/// A filter that every row meets yields the whole table.
pub proof fn lemma_rows_where_all(t: Seq<LinkView>, f: RowFilter)
    requires
        forall|i: int| 0 <= i < t.len() ==> keeps(f, #[trigger] t[i]),
    ensures
        rows_where(t, f) == t,
    decreases t.len(),
{
    if t.len() > 0 {
        let s = t.drop_last();
        assert(s.push(t.last()) =~= t);
        lemma_rows_where_all(s, f);
        lemma_rows_where_push(s, f, t.last());
    } else {
        reveal(Seq::filter);
    }
}

/// Removing rows keeps the table's constraints.
pub proof fn lemma_rows_where_unique(t: Seq<LinkView>, f: RowFilter)
    requires
        links_unique(t),
    ensures
        links_unique(rows_where(t, f)),
    decreases t.len(),
{
    if t.len() > 0 {
        let s = t.drop_last();
        let x = t.last();
        assert(s.push(x) =~= t);
        assert(links_unique(s)) by {
            assert forall|i: int, j: int|
                0 <= i < s.len() && 0 <= j < s.len() && i != j implies !collides(
                #[trigger] s[i],
                #[trigger] s[j],
            ) by {
                assert(s[i] == t[i] && s[j] == t[j]);
            }
        }
        lemma_rows_where_unique(s, f);
        lemma_rows_where_push(s, f, x);
        lemma_rows_where_from(s, f);
        let r = rows_where(s, f);
        if keeps(f, x) {
            let rt = r.push(x);
            assert forall|i: int, j: int|
                0 <= i < rt.len() && 0 <= j < rt.len() && i != j implies !collides(
                #[trigger] rt[i],
                #[trigger] rt[j],
            ) by {
                if i < r.len() && j < r.len() {
                    assert(rt[i] == r[i] && rt[j] == r[j]);
                } else if i < r.len() {
                    let k = choose|k: int| 0 <= k < s.len() && s[k] == r[i];
                    assert(t[k] == s[k]);
                    assert(!collides(t[k], t[t.len() - 1]));
                } else {
                    let k = choose|k: int| 0 <= k < s.len() && s[k] == r[j];
                    assert(t[k] == s[k]);
                    assert(!collides(t[t.len() - 1], t[k]));
                }
            }
        }
    } else {
        reveal(Seq::filter);
    }
}

} // verus!
