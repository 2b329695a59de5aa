//! The data the handlers decide over: a user row as the store hands it back,
//! the error taxonomy of the service, and the single place where an error is
//! turned into an HTTP status code.
use vstd::prelude::*;

verus! {

/// One row of the user table, as plain values. The store owns these rows;
/// this crate only reads them.
#[derive(Debug, Clone, PartialEq, Eq)]
pub struct User {
    /// Unique key assigned by the store.
    pub id: u32,
    /// The row's identifying field.
    pub name: String,
}

/// The store could not be reached or the query failed. The cause lives with
/// the store; nothing in it changes how a request is answered.
#[derive(Debug, Clone, Copy, PartialEq, Eq, Structural)]
pub struct StoreError;

/// Everything that can go wrong while answering a request.
#[derive(Debug, Clone, Copy, PartialEq, Eq, Structural)]
pub enum ApiError {
    /// The path parameter is not a well-formed unsigned integer.
    ParseError,
    /// The id is well formed but no row matches it.
    NotFound,
    /// The store could not be reached or the query failed.
    StoreUnavailable,
}

/// The HTTP status code that reports an error: a malformed parameter is the
/// client's fault, a missing row is absence, a store failure is the server's.
pub fn status_code(e: &ApiError) -> (s: u16)
    ensures
        e is ParseError ==> s == 400,
        e is NotFound ==> s == 404,
        e is StoreUnavailable ==> s == 500,
{
    match e {
        ApiError::ParseError => 400,
        ApiError::NotFound => 404,
        ApiError::StoreUnavailable => 500,
    }
}

/// The status line of a whole outcome: success is 200, an error reports as
/// `status_code` says.
pub fn response_status<T>(r: &Result<T, ApiError>) -> (s: u16)
    ensures
        r is Ok ==> s == 200,
        r matches Err(e) && e is ParseError ==> s == 400,
        r matches Err(e) && e is NotFound ==> s == 404,
        r matches Err(e) && e is StoreUnavailable ==> s == 500,
{
    match r {
        Ok(_) => 200,
        Err(e) => status_code(e),
    }
}

} // verus!
