use rust_server::handlers::{list_users_handler, lookup_outcome};
use rust_server::ids::parse_user_id;
use rust_server::model::{response_status, status_code, ApiError, StoreError, User};

fn sample_users(n: u32) -> Vec<User> {
    (1..=n)
        .map(|i| User { id: i, name: format!("user-{}", i) })
        .collect()
}

#[test]
fn empty_table_lists_as_empty_page_with_200() {
    let r = list_users_handler(Ok(Vec::new()));
    assert_eq!(response_status(&r), 200);
    assert_eq!(r, Ok(Vec::new()));
}

#[test]
fn large_table_lists_exactly_ten_rows() {
    let r = list_users_handler(Ok(sample_users(12)));
    let page = r.unwrap();
    assert_eq!(page.len(), 10);
    assert_eq!(page, sample_users(12)[..10].to_vec());
}

#[test]
fn small_table_lists_whole() {
    let r = list_users_handler(Ok(sample_users(3)));
    assert_eq!(r.unwrap(), sample_users(3));
}

#[test]
fn store_failure_lists_as_500() {
    let r = list_users_handler(Err(StoreError));
    assert_eq!(r, Err(ApiError::StoreUnavailable));
    assert_eq!(response_status(&r), 500);
}

#[test]
fn matching_row_is_returned_with_200() {
    let id = parse_user_id("7").unwrap();
    assert_eq!(id, 7);
    let row = User { id, name: String::from("seven") };
    let r = lookup_outcome(Ok(Some(row.clone())));
    assert_eq!(response_status(&r), 200);
    let user = r.unwrap();
    assert_eq!(user.id, 7);
    assert_eq!(user.name, "seven");
}

#[test]
fn malformed_id_is_a_400_not_a_crash() {
    let parsed = parse_user_id("abc");
    assert_eq!(parsed, Err(ApiError::ParseError));
    let r: Result<User, ApiError> = Err(parsed.unwrap_err());
    assert_eq!(response_status(&r), 400);
}

#[test]
fn absent_row_is_a_404() {
    let id = parse_user_id("999999").unwrap();
    assert_eq!(id, 999999);
    let r = lookup_outcome(Ok(None));
    assert_eq!(r, Err(ApiError::NotFound));
    assert_eq!(response_status(&r), 404);
}

#[test]
fn store_failure_on_lookup_is_a_500() {
    let r = lookup_outcome(Err(StoreError));
    assert_eq!(r, Err(ApiError::StoreUnavailable));
    assert_eq!(response_status(&r), 500);
}

#[test]
fn repeated_lookup_returns_identical_content() {
    // Same raw id, same stored row, no intervening writes: the responses of
    // two runs of the by-id pipeline are identical.
    let row = User { id: 7, name: String::from("seven") };
    let run = || {
        let id = parse_user_id(" 7 ")?;
        assert_eq!(id, 7);
        lookup_outcome(Ok(Some(row.clone())))
    };
    let first = run();
    let second = run();
    assert_eq!(first, second);
    assert_eq!(first.unwrap().name, "seven");
}

#[test]
fn each_error_maps_to_its_status() {
    assert_eq!(status_code(&ApiError::ParseError), 400);
    assert_eq!(status_code(&ApiError::NotFound), 404);
    assert_eq!(status_code(&ApiError::StoreUnavailable), 500);
}
