use vstd::prelude::*;

use crate::error::{ErrorResponse, ErrorResponseType};

verus! {

/// The substring by which a storage engine's message marks a uniqueness violation.
pub const UNIQUE_MARKER: &'static str = "UNIQUE";

/// The message that replaces a storage engine's report of a uniqueness violation.
pub const CONFLICT_MESSAGE: &'static str = "Upstream user id is already linked to another account";

/// The message of a lookup that matched no link.
pub const NOT_FOUND_MESSAGE: &'static str = "No federation link for this provider and subject";

/// The message of a lookup that matched several links for one external identity.
pub const AMBIGUOUS_MESSAGE: &'static str = "Several federation links for one provider and subject";

/// A link between a local account and a subject of an external identity provider.
#[derive(Clone, Debug)]
pub struct UserFederation {
    pub user_id: String,
    pub provider_id: String,
    pub federation_uid: String,
}

/// The mathematical value of a link: its three columns.
pub ghost struct LinkView {
    pub user_id: Seq<char>,
    pub provider_id: Seq<char>,
    pub federation_uid: Seq<char>,
}

impl View for UserFederation {
    type V = LinkView;

    open spec fn view(&self) -> LinkView {
        LinkView {
            user_id: self.user_id@,
            provider_id: self.provider_id@,
            federation_uid: self.federation_uid@,
        }
    }
}

/// The values of a sequence of links.
pub open spec fn links_of(v: Seq<UserFederation>) -> Seq<LinkView> {
    v.map_values(|l: UserFederation| l@)
}

/// `pat` occurs in `s` as a contiguous run.
pub open spec fn text_contains(s: Seq<char>, pat: Seq<char>) -> bool {
    exists|i: int|
        0 <= i && i + pat.len() <= s.len() && #[trigger] s.subrange(i, i + pat.len()) == pat
}

/// `r` is what the classifier makes of `err`: a conflict with the fixed message where
/// the message of `err` holds the uniqueness marker, else `err` itself.
pub open spec fn maps_unique_violation(err: ErrorResponse, r: ErrorResponse) -> bool {
    if text_contains(err.message@, UNIQUE_MARKER@) {
        r.error == ErrorResponseType::NotAccepted && r.message@ == CONFLICT_MESSAGE@
    } else {
        r.error == err.error && r.message@ == err.message@
    }
}

/// What a lookup of one external identity yields from the rows that matched it.
pub open spec fn single_match(rows: Seq<LinkView>) -> Result<LinkView, ErrorResponseType> {
    if rows.len() == 1 {
        Ok(rows[0])
    } else if rows.len() == 0 {
        Err(ErrorResponseType::NotFound)
    } else {
        Err(ErrorResponseType::Internal)
    }
}

/// Whether `pat` occurs in `s`.
fn contains_text(s: &str, pat: &str) -> (r: bool)
    ensures
        r == text_contains(s@, pat@),
{
    let n = s.unicode_len();
    let m = pat.unicode_len();
    if m > n {
        return false;
    }
    let mut i: usize = 0;
    while i <= n - m
        invariant
            n == s@.len(),
            m == pat@.len(),
            m <= n,
            i <= n - m + 1,
            forall|j: int| 0 <= j < i ==> #[trigger] s@.subrange(j, j + m) != pat@,
        decreases n - i,
    {
        let mut k: usize = 0;
        let mut same = true;
        while k < m && same
            invariant
                n == s@.len(),
                m == pat@.len(),
                i + m <= n,
                k <= m,
                same ==> forall|q: int| 0 <= q < k ==> s@[i + q] == pat@[q],
                !same ==> k > 0 && s@[i + k - 1] != pat@[k - 1],
            decreases m - k + (if same { 1int } else { 0 }),
        {
            if s.get_char(i + k) != pat.get_char(k) {
                same = false;
            }
            k = k + 1;
        }
        if same {
            assert(s@.subrange(i as int, i + m) =~= pat@);
            return true;
        }
        assert(s@.subrange(i as int, i + m)[k - 1] != pat@[k - 1]);
        i = i + 1;
    }
    false
}

/// One parameterized statement for a storage engine: its text and its positional
/// parameters, `$1` first.
#[derive(Clone, Debug)]
pub struct Statement {
    pub sql: String,
    pub params: Vec<String>,
}

/// Stores one link.
pub const INSERT_SQL: &'static str =
    "INSERT INTO user_federations (user_id, provider_id, federation_uid) VALUES ($1, $2, $3)";

/// Selects the links of one user.
pub const SELECT_FOR_USER_SQL: &'static str = "SELECT * FROM user_federations WHERE user_id = $1";

/// Selects the links of one external identity.
pub const SELECT_BY_FEDERATION_ID_SQL: &'static str =
    "SELECT * FROM user_federations WHERE provider_id = $1 AND federation_uid = $2";

/// Removes the link of one user with one provider.
pub const DELETE_SQL: &'static str =
    "DELETE FROM user_federations WHERE user_id = $1 AND provider_id = $2";

/// Removes every link of one user.
pub const DELETE_BY_USER_SQL: &'static str = "DELETE FROM user_federations WHERE user_id = $1";

fn statement(sql: &str, params: Vec<String>) -> (r: Statement)
    ensures
        r.sql@ == sql@,
        r.params@ == params@,
{
    Statement { sql: sql.to_owned(), params }
}

impl UserFederation {
    pub fn new(user_id: String, provider_id: String, federation_uid: String) -> (r: UserFederation)
        ensures
            r.user_id@ == user_id@,
            r.provider_id@ == provider_id@,
            r.federation_uid@ == federation_uid@,
    {
        UserFederation { user_id, provider_id, federation_uid }
    }

    /// Replaces a storage engine's report of a uniqueness violation by a conflict with a
    /// fixed message, which does not pass the engine's words on; any other error is
    /// returned unchanged.
    pub fn map_unique_violation(err: ErrorResponse) -> (r: ErrorResponse)
        ensures
            maps_unique_violation(err, r),
            !text_contains(err.message@, UNIQUE_MARKER@) ==> r == err,
    {
        if contains_text(err.message.as_str(), UNIQUE_MARKER) {
            ErrorResponse::new(ErrorResponseType::NotAccepted, CONFLICT_MESSAGE)
        } else {
            err
        }
    }

    /// The statement that stores this link.
    pub fn insert_statement(&self) -> (r: Statement)
        ensures
            r.sql@ == INSERT_SQL@,
            r.params@.len() == 3,
            r.params@[0]@ == self.user_id@,
            r.params@[1]@ == self.provider_id@,
            r.params@[2]@ == self.federation_uid@,
    {
        let params = vec![
            self.user_id.clone(),
            self.provider_id.clone(),
            self.federation_uid.clone(),
        ];
        statement(INSERT_SQL, params)
    }

    /// The statement that selects the links of `user_id`.
    pub fn select_for_user_statement(user_id: &str) -> (r: Statement)
        ensures
            r.sql@ == SELECT_FOR_USER_SQL@,
            r.params@.len() == 1,
            r.params@[0]@ == user_id@,
    {
        let params = vec![user_id.to_owned()];
        statement(SELECT_FOR_USER_SQL, params)
    }

    /// The statement that selects the links of one external identity.
    pub fn select_by_federation_id_statement(provider_id: &str, federation_uid: &str) -> (r:
        Statement)
        ensures
            r.sql@ == SELECT_BY_FEDERATION_ID_SQL@,
            r.params@.len() == 2,
            r.params@[0]@ == provider_id@,
            r.params@[1]@ == federation_uid@,
    {
        let params = vec![provider_id.to_owned(), federation_uid.to_owned()];
        statement(SELECT_BY_FEDERATION_ID_SQL, params)
    }

    /// The statement that removes this link, found by user and provider.
    pub fn delete_statement(&self) -> (r: Statement)
        ensures
            r.sql@ == DELETE_SQL@,
            r.params@.len() == 2,
            r.params@[0]@ == self.user_id@,
            r.params@[1]@ == self.provider_id@,
    {
        let params = vec![self.user_id.clone(), self.provider_id.clone()];
        statement(DELETE_SQL, params)
    }

    /// The statement that removes every link of `user_id`.
    pub fn delete_by_user_id_statement(user_id: &str) -> (r: Statement)
        ensures
            r.sql@ == DELETE_BY_USER_SQL@,
            r.params@.len() == 1,
            r.params@[0]@ == user_id@,
    {
        let params = vec![user_id.to_owned()];
        statement(DELETE_BY_USER_SQL, params)
    }

    /// Completes the creation of `link` from the outcome of its insert statement: the
    /// link itself on success, the classified error on failure.
    pub fn create(link: UserFederation, inserted: Result<usize, ErrorResponse>) -> (r: Result<
        UserFederation,
        ErrorResponse,
    >)
        ensures
            inserted is Ok <==> r is Ok,
            r is Ok ==> r->Ok_0@ == link@,
            inserted is Err ==> maps_unique_violation(inserted->Err_0, r->Err_0),
    {
        match inserted {
            Ok(_) => Ok(link),
            Err(e) => Err(UserFederation::map_unique_violation(e)),
        }
    }

    /// Completes the listing of a user's links from the outcome of its select statement:
    /// every row that matched, none dropped; no row is a success.
    pub fn find_for_user(rows: Result<Vec<UserFederation>, ErrorResponse>) -> (r: Result<
        Vec<UserFederation>,
        ErrorResponse,
    >)
        ensures
            r == rows,
    {
        rows
    }

    /// Completes the lookup of one external identity from the outcome of its select
    /// statement: the one link that matched; `NotFound` where none did; `Internal`
    /// where several did, as the uniqueness of an identity is then broken.
    pub fn find_by_federation_id(rows: Result<Vec<UserFederation>, ErrorResponse>) -> (r: Result<
        UserFederation,
        ErrorResponse,
    >)
        ensures
            rows is Err ==> r == Err::<UserFederation, ErrorResponse>(rows->Err_0),
            rows is Ok ==> match single_match(links_of(rows->Ok_0@)) {
                Ok(l) => r is Ok && r->Ok_0@ == l,
                Err(k) => r is Err && r->Err_0.error == k && r->Err_0.message@ == (
                if k == ErrorResponseType::NotFound {
                    NOT_FOUND_MESSAGE@
                } else {
                    AMBIGUOUS_MESSAGE@
                }),
            },
    {
        match rows {
            Err(e) => Err(e),
            Ok(mut v) => {
                if v.len() == 1 {
                    let link = v.pop().unwrap();
                    Ok(link)
                } else if v.len() == 0 {
                    Err(ErrorResponse::new(ErrorResponseType::NotFound, NOT_FOUND_MESSAGE))
                } else {
                    Err(ErrorResponse::new(ErrorResponseType::Internal, AMBIGUOUS_MESSAGE))
                }
            },
        }
    }

    /// Completes the removal of this link from the outcome of its delete statement. A
    /// delete that removed no row succeeds.
    pub fn delete(&self, deleted: Result<usize, ErrorResponse>) -> (r: Result<(), ErrorResponse>)
        ensures
            deleted is Ok ==> r == Ok::<(), ErrorResponse>(()),
            deleted is Err ==> r == Err::<(), ErrorResponse>(deleted->Err_0),
    {
        match deleted {
            Ok(_) => Ok(()),
            Err(e) => Err(e),
        }
    }

    /// Completes the removal of all links of a user from the outcome of its delete
    /// statement. A delete that removed no row succeeds.
    pub fn delete_by_user_id(deleted: Result<usize, ErrorResponse>) -> (r: Result<(), ErrorResponse>)
        ensures
            deleted is Ok ==> r == Ok::<(), ErrorResponse>(()),
            deleted is Err ==> r == Err::<(), ErrorResponse>(deleted->Err_0),
    {
        match deleted {
            Ok(_) => Ok(()),
            Err(e) => Err(e),
        }
    }
}

} // verus!
