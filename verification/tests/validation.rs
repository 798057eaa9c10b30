use rust_backend::error::Error;
use rust_backend::handlers::get_users;
use rust_backend::models::Get;
use rust_backend::models::GetUsers;
use rust_backend::store::UserTable;

fn query(limit: Option<i32>, offset: Option<i32>) -> Get {
    Get { id: None, username: None, limit, offset }
}

#[test]
fn limit_zero_is_invalid_field() {
    let table = UserTable::new();
    match get_users(&table, &query(Some(0), None)) {
        Err(e) => {
            match &e {
                Error::InvalidField { field, .. } => assert_eq!(field, "limit"),
                _ => panic!("expected InvalidField"),
            }
            let resp = e.to_response();
            assert_eq!(resp.code, 400);
            assert_eq!(resp.error, "InvalidField");
        }
        Ok(_) => panic!("limit 0 must be rejected"),
    }
}

#[test]
fn limit_above_hundred_is_invalid_field() {
    let table = UserTable::new();
    for limit in [101, 1000, i32::MAX] {
        match get_users(&table, &query(Some(limit), None)) {
            Err(Error::InvalidField { field, .. }) => assert_eq!(field, "limit"),
            _ => panic!("limit {} must be rejected", limit),
        }
    }
}

#[test]
fn negative_limit_is_invalid_field() {
    let table = UserTable::new();
    for limit in [-1, -100, i32::MIN] {
        match get_users(&table, &query(Some(limit), None)) {
            Err(Error::InvalidField { field, .. }) => assert_eq!(field, "limit"),
            _ => panic!("limit {} must be rejected", limit),
        }
    }
}

#[test]
fn negative_offset_is_invalid_field() {
    let table = UserTable::new();
    for offset in [-1, -50, i32::MIN] {
        match get_users(&table, &query(None, Some(offset))) {
            Err(Error::InvalidField { field, .. }) => assert_eq!(field, "offset"),
            _ => panic!("offset {} must be rejected", offset),
        }
    }
}

#[test]
fn limit_bounds_are_inclusive() {
    let table = UserTable::new();
    for limit in [1, 20, 100] {
        let page = get_users(&table, &query(Some(limit), Some(0))).expect("valid limit");
        assert_eq!(page.limit, limit);
        assert_eq!(page.offset, 0);
        assert_eq!(page.count, 0);
        assert!(page.users.is_empty());
    }
}

#[test]
fn missing_parameters_take_defaults() {
    let table = UserTable::new();
    let page = get_users(&table, &query(None, None)).expect("defaults are valid");
    assert_eq!(page.limit, 20);
    assert_eq!(page.offset, 0);
}

#[test]
fn default_query_shapes() {
    let get = Get::default();
    assert_eq!(get.limit, Some(20));
    assert_eq!(get.offset, Some(0));
    assert!(get.id.is_none());
    assert!(get.username.is_none());
    let bare = GetUsers::default();
    assert_eq!(bare.limit, Some(20));
    assert_eq!(bare.offset, Some(0));
}

#[test]
fn default_create_shapes_carry_the_placeholder_name() {
    let a = rust_backend::models::Create::default();
    assert!(a.username.is_none());
    assert_eq!(a.name.as_deref(), Some("User"));
    let b = rust_backend::models::CreateUser::default();
    assert!(b.username.is_none());
    assert_eq!(b.name.as_deref(), Some("User"));
    let d = rust_backend::models::Delete::default();
    assert!(d.id.is_none());
    let u = rust_backend::models::Update::default();
    assert!(u.id.is_none() && u.username.is_none() && u.name.is_none());
}

#[test]
fn empty_match_is_ok_not_error() {
    let table = UserTable::new();
    let q = Get { id: Some(7), username: Some("nobody".to_owned()), limit: Some(10), offset: Some(0) };
    let page = get_users(&table, &q).expect("no match is still a success");
    assert_eq!(page.count, 0);
    assert!(page.users.is_empty());
}
