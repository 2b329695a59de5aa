use rust_server::route::{dispatch, Route};

#[test]
fn root_routes_to_index() {
    assert!(matches!(dispatch("GET", "/"), Route::Index));
}

#[test]
fn users_routes_to_list() {
    assert!(matches!(dispatch("GET", "/users"), Route::ListUsers));
}

#[test]
fn user_segment_routes_by_id() {
    match dispatch("GET", "/users/7") {
        Route::UserById(id) => assert_eq!(id, "7"),
        _ => panic!("expected the by-id route"),
    }
    match dispatch("GET", "/users/abc") {
        Route::UserById(id) => assert_eq!(id, "abc"),
        _ => panic!("expected the by-id route"),
    }
}

#[test]
fn deeper_paths_do_not_route() {
    assert!(matches!(dispatch("GET", "/users/1/2"), Route::NotFound));
    assert!(matches!(dispatch("GET", "/users/"), Route::NotFound));
    assert!(matches!(dispatch("GET", "/nothing"), Route::NotFound));
    assert!(matches!(dispatch("GET", ""), Route::NotFound));
}

#[test]
fn only_get_is_registered() {
    assert!(matches!(dispatch("POST", "/"), Route::NotFound));
    assert!(matches!(dispatch("PUT", "/users"), Route::NotFound));
    assert!(matches!(dispatch("DELETE", "/users/7"), Route::NotFound));
}
