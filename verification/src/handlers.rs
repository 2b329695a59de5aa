//! The decision half of the two user endpoints. The store itself is an
//! outside service; the caller performs the query and hands its answer in as
//! a plain value, and these functions decide what the response is. Every
//! failure becomes a tagged error, never an abort.
use vstd::prelude::*;

use crate::ids::{id_is_valid, id_value};
use crate::model::{ApiError, StoreError, User};

verus! {

/// The most rows the list endpoint returns.
pub const USERS_PAGE_LIMIT: usize = 10;

/// The page the list endpoint shows of a table: the first rows, at most
/// `USERS_PAGE_LIMIT` of them, in the store's order.
pub open spec fn first_page(rows: Seq<User>) -> Seq<User> {
    if rows.len() <= USERS_PAGE_LIMIT {
        rows
    } else {
        rows.subrange(0, USERS_PAGE_LIMIT as int)
    }
}

/// The page never exceeds the limit: a table of more rows lists as exactly
/// the limit, a table within the limit lists whole, and every listed row is
/// the table's row at the same position, in the store's order.
pub proof fn lemma_first_page_bounded(rows: Seq<User>)
    ensures
        first_page(rows).len() <= USERS_PAGE_LIMIT,
        rows.len() >= USERS_PAGE_LIMIT ==> first_page(rows).len() == USERS_PAGE_LIMIT,
        rows.len() <= USERS_PAGE_LIMIT ==> first_page(rows) == rows,
        forall|i: int| 0 <= i < first_page(rows).len() ==> first_page(rows)[i] == rows[i],
{
}

/// Decide the list endpoint's response from the store's answer: a fetched
/// table becomes its first page (an empty table stays an empty page, not an
/// error), and a store failure becomes a server-side error.
pub fn list_users_handler(fetched: Result<Vec<User>, StoreError>) -> (r: Result<
    Vec<User>,
    ApiError,
>)
    ensures
        fetched matches Ok(rows) ==> r matches Ok(page) && page@ == first_page(rows@),
        fetched is Err ==> r == Err::<Vec<User>, ApiError>(ApiError::StoreUnavailable),
{
    match fetched {
        Ok(mut rows) => {
            rows.truncate(USERS_PAGE_LIMIT);
            Ok(rows)
        },
        Err(_) => Err(ApiError::StoreUnavailable),
    }
}

/// Decide the tail of the by-id endpoint from the store's answer for the
/// parsed id: a found row is the response, an absent row is not-found, and a
/// store failure is a server-side error.
pub fn lookup_outcome(found: Result<Option<User>, StoreError>) -> (r: Result<User, ApiError>)
    ensures
        found matches Ok(Some(u)) ==> r == Ok::<User, ApiError>(u),
        found matches Ok(f) && f is None ==> r == Err::<User, ApiError>(ApiError::NotFound),
        found is Err ==> r == Err::<User, ApiError>(ApiError::StoreUnavailable),
{
    match found {
        Ok(Some(u)) => Ok(u),
        Ok(None) => Err(ApiError::NotFound),
        Err(_) => Err(ApiError::StoreUnavailable),
    }
}

/// The whole by-id endpoint as one function of the request and the store's
/// answer: a malformed id is rejected before the store is asked, and a
/// well-formed one is answered as `lookup_outcome` decides.
pub open spec fn user_by_id_spec(raw: Seq<char>, found: Result<Option<User>, StoreError>) -> Result<
    User,
    ApiError,
> {
    if !id_is_valid(raw) {
        Err(ApiError::ParseError)
    } else {
        match found {
            Ok(Some(u)) => Ok(u),
            Ok(None) => Err(ApiError::NotFound),
            Err(_) => Err(ApiError::StoreUnavailable),
        }
    }
}

/// Parsing and then deciding from the store's answer implements the
/// one-piece endpoint specification. The hypotheses are exactly the
/// contracts of `parse_user_id` and `lookup_outcome` together with the
/// caller's wiring: a parse error is the outcome, and only a parsed id
/// reaches the lookup.
pub proof fn lemma_user_by_id_composition(
    raw: Seq<char>,
    parsed: Result<u32, ApiError>,
    found: Result<Option<User>, StoreError>,
    outcome: Result<User, ApiError>,
)
    requires
        id_is_valid(raw) ==> parsed == Ok::<u32, ApiError>(id_value(raw) as u32),
        !id_is_valid(raw) ==> parsed == Err::<u32, ApiError>(ApiError::ParseError),
        parsed matches Err(e) ==> outcome == Err::<User, ApiError>(e),
        parsed is Ok ==> (found matches Ok(Some(u)) ==> outcome == Ok::<User, ApiError>(u)),
        parsed is Ok ==> (found == Ok::<Option<User>, StoreError>(None) ==> outcome == Err::<
            User,
            ApiError,
        >(ApiError::NotFound)),
        parsed is Ok ==> (found is Err ==> outcome == Err::<User, ApiError>(
            ApiError::StoreUnavailable,
        )),
    ensures
        outcome == user_by_id_spec(raw, found),
{
}

/// Reading is idempotent: two runs of the by-id endpoint for the same raw id
/// against the same stored row return identical content. The response is a
/// function of the request and the store's answer alone.
pub proof fn lemma_user_by_id_idempotent(
    raw: Seq<char>,
    found: Result<Option<User>, StoreError>,
    r1: Result<User, ApiError>,
    r2: Result<User, ApiError>,
)
    requires
        r1 == user_by_id_spec(raw, found),
        r2 == user_by_id_spec(raw, found),
    ensures
        r1 == r2,
{
}

} // verus!
