//! The request router: which handler answers a request, decided from the
//! method and the path alone. Three routes exist, all `GET`: the root, the
//! user list, and one user by id, whose single path segment is handed on as
//! the raw `{id}` parameter. Everything else is unrouted.
use vstd::prelude::*;
use vstd::string::StringExecFns;

use crate::text::str_eq;

verus! {

/// Where a request is dispatched.
pub enum Route {
    /// `GET /`: the counter endpoint.
    Index,
    /// `GET /users`: the list endpoint.
    ListUsers,
    /// `GET /users/{id}`: the by-id endpoint, with the raw id segment.
    UserById(String),
    /// No route matches; the response is a plain 404.
    NotFound,
}

/// Whether a path names one user: `/users/` followed by one non-empty
/// segment with no further slash.
pub open spec fn is_user_path(p: Seq<char>) -> bool {
    &&& p.len() > 7
    &&& p.subrange(0, 7) == "/users/"@
    &&& forall|i: int| 7 <= i < p.len() ==> #[trigger] p[i] != '/'
}

/// Map a request to its route. Only the three registered routes match, each
/// on `GET` and its exact path; the by-id route carries the id segment out.
pub fn dispatch(method: &str, path: &str) -> (r: Route)
    ensures
        method@ == "GET"@ && path@ == "/"@ ==> r is Index,
        method@ == "GET"@ && path@ == "/users"@ ==> r is ListUsers,
        method@ == "GET"@ && is_user_path(path@) ==> (r matches Route::UserById(id) && id@
            == path@.skip(7)),
        method@ != "GET"@ || !(path@ == "/"@ || path@ == "/users"@ || is_user_path(path@))
            ==> r is NotFound,
{
    proof {
        reveal_strlit("GET");
        reveal_strlit("/");
        reveal_strlit("/users");
        reveal_strlit("/users/");
        assert("/"@.len() == 1);
        assert("/users"@.len() == 6);
        assert("/users/"@.len() == 7);
    }
    if !str_eq(method, "GET") {
        return Route::NotFound;
    }
    if str_eq(path, "/") {
        return Route::Index;
    }
    if str_eq(path, "/users") {
        return Route::ListUsers;
    }
    let n = path.unicode_len();
    if n > 7 && str_eq(path.substring_char(0, 7), "/users/") {
        let mut i: usize = 7;
        while i < n
            invariant
                7 <= i <= n,
                n == path@.len(),
                method@ == "GET"@,
                path@ != "/"@,
                path@ != "/users"@,
                forall|j: int| 7 <= j < i ==> #[trigger] path@[j] != '/',
            decreases n - i,
        {
            if path.get_char(i) == '/' {
                return Route::NotFound;
            }
            i = i + 1;
        }
        let id = String::from_str(path.substring_char(7, n));
        proof {
            assert(id@ =~= path@.skip(7));
        }
        return Route::UserById(id);
    }
    Route::NotFound
}

} // verus!
