use rust_backend::error::Error;
use rust_backend::handlers::create_user;
use rust_backend::handlers::create_user_at;
use rust_backend::handlers::delete_user;
use rust_backend::handlers::get_user_by_id;
use rust_backend::handlers::get_user_by_username;
use rust_backend::handlers::get_users;
use rust_backend::handlers::healthcheck;
use rust_backend::handlers::update_user_at;
use rust_backend::models::Create;
use rust_backend::models::Delete;
use rust_backend::models::Get;
use rust_backend::models::Update;
use rust_backend::models::User;
use rust_backend::store::UserTable;

fn create_req(username: &str, name: Option<&str>) -> Create {
    Create { username: Some(username.to_owned()), name: name.map(|n| n.to_owned()) }
}

fn same_record(a: &User, b: &User) -> bool {
    a.id == b.id
        && a.username == b.username
        && a.name == b.name
        && a.premium == b.premium
        && a.created_at == b.created_at
        && a.updated_at == b.updated_at
}

#[test]
fn health_is_successful() {
    assert!(healthcheck().successful);
}

#[test]
fn create_fresh_username_succeeds() {
    let mut table = UserTable::new();
    let u = create_user_at(&mut table, &create_req("ada", Some("Ada")), 1000).expect("fresh");
    assert_eq!(u.created_at, u.updated_at);
    assert_eq!(u.username.as_deref(), Some("ada"));
    assert_eq!(u.name, "Ada");
    assert!(!u.premium);
    assert_eq!(table.len(), 1);
}

#[test]
fn create_scenario_then_conflict() {
    let mut table = UserTable::new();
    let u = create_user_at(&mut table, &create_req("ada", Some("Ada")), 500).expect("fresh");
    assert_eq!(u.username.as_deref(), Some("ada"));
    assert_eq!(u.name, "Ada");
    assert!(!u.premium);
    assert_eq!(u.created_at, u.updated_at);
    match create_user_at(&mut table, &create_req("ada", Some("Ada")), 900) {
        Err(e) => {
            match &e {
                Error::BusyUsername { username } => assert_eq!(username, "ada"),
                _ => panic!("expected BusyUsername"),
            }
            let resp = e.to_response();
            assert_eq!(resp.code, 400);
            assert_eq!(resp.error, "BusyUsername");
            assert_eq!(resp.message, "Username `ada` is busy, try another");
        }
        Ok(_) => panic!("duplicate username must be rejected"),
    }
    assert_eq!(table.len(), 1, "a rejected create must not change the row count");
}

#[test]
fn create_without_username_is_invalid_field() {
    let mut table = UserTable::new();
    let req = Create { username: None, name: Some("Ada".to_owned()) };
    match create_user_at(&mut table, &req, 0) {
        Err(Error::InvalidField { field, .. }) => assert_eq!(field, "username"),
        _ => panic!("missing username must be rejected"),
    }
    assert_eq!(table.len(), 0);
}

#[test]
fn create_with_empty_username_is_invalid_field() {
    let mut table = UserTable::new();
    match create_user_at(&mut table, &create_req("", Some("Ada")), 0) {
        Err(Error::InvalidField { field, .. }) => assert_eq!(field, "username"),
        _ => panic!("empty username must be rejected"),
    }
    assert_eq!(table.len(), 0);
}

#[test]
fn create_without_name_takes_placeholder() {
    let mut table = UserTable::new();
    let u = create_user_at(&mut table, &create_req("grace", None), 7).expect("fresh");
    assert_eq!(u.name, "User");
}

#[test]
fn create_with_real_clock_stamps_equal_timestamps() {
    let mut table = UserTable::new();
    let u = create_user(&mut table, &create_req("ada", Some("Ada"))).expect("fresh");
    assert_eq!(u.created_at, u.updated_at);
    assert_eq!(table.len(), 1);
}

#[test]
fn identifiers_are_never_reused() {
    let mut table = UserTable::new();
    let a = create_user_at(&mut table, &create_req("ada", None), 1).expect("fresh");
    delete_user(&mut table, &Delete { id: Some(a.id) }).expect("present");
    let b = create_user_at(&mut table, &create_req("ada", None), 2).expect("fresh again");
    assert_ne!(a.id, b.id);
}

#[test]
fn round_trip_create_get_delete_get() {
    let mut table = UserTable::new();
    let u = create_user_at(&mut table, &create_req("ada", Some("Ada")), 42).expect("fresh");
    let fetched = get_user_by_id(&table, u.id).expect("just created");
    assert!(same_record(&u, &fetched));
    let removed = delete_user(&mut table, &Delete { id: Some(u.id) }).expect("present");
    assert!(same_record(&u, &removed));
    match get_user_by_id(&table, u.id) {
        Err(Error::NotFound { entity }) => assert_eq!(entity, "User"),
        _ => panic!("deleted record must not be found"),
    }
    assert_eq!(table.len(), 0);
}

#[test]
fn get_by_username_finds_the_record() {
    let mut table = UserTable::new();
    create_user_at(&mut table, &create_req("ada", Some("Ada")), 1).expect("fresh");
    let u = create_user_at(&mut table, &create_req("grace", Some("Grace")), 2).expect("fresh");
    let fetched = get_user_by_username(&table, &"grace".to_owned()).expect("present");
    assert!(same_record(&u, &fetched));
    match get_user_by_username(&table, &"nobody".to_owned()) {
        Err(Error::NotFound { entity }) => assert_eq!(entity, "User"),
        _ => panic!("unknown username must not be found"),
    }
}

#[test]
fn delete_nonexistent_id_is_not_found_and_changes_nothing() {
    let mut table = UserTable::new();
    create_user_at(&mut table, &create_req("ada", None), 1).expect("fresh");
    match delete_user(&mut table, &Delete { id: Some(999) }) {
        Err(e) => {
            match &e {
                Error::NotFound { entity } => assert_eq!(entity, "User"),
                _ => panic!("expected NotFound"),
            }
            assert_eq!(e.to_response().code, 404);
        }
        Ok(_) => panic!("unknown id must not delete"),
    }
    assert_eq!(table.len(), 1);
    get_user_by_username(&table, &"ada".to_owned()).expect("row must survive");
}

#[test]
fn delete_without_id_is_invalid_field() {
    let mut table = UserTable::new();
    match delete_user(&mut table, &Delete { id: None }) {
        Err(Error::InvalidField { field, .. }) => assert_eq!(field, "id"),
        _ => panic!("missing id must be rejected"),
    }
}

#[test]
fn update_name_only_keeps_username_and_id() {
    let mut table = UserTable::new();
    let u = create_user_at(&mut table, &create_req("ada", Some("Ada")), 100).expect("fresh");
    let req = Update { id: Some(u.id), username: None, name: Some("Countess".to_owned()) };
    let updated = update_user_at(&mut table, &req, 200).expect("present");
    assert_eq!(updated.id, u.id);
    assert_eq!(updated.username, u.username);
    assert_eq!(updated.name, "Countess");
    assert_eq!(updated.created_at, u.created_at);
    assert_eq!(updated.updated_at, 200);
    assert_ne!(updated.updated_at, u.updated_at);
    let fetched = get_user_by_id(&table, u.id).expect("still present");
    assert!(same_record(&updated, &fetched));
}

#[test]
fn update_to_busy_username_is_rejected_before_writing() {
    let mut table = UserTable::new();
    create_user_at(&mut table, &create_req("ada", None), 1).expect("fresh");
    let g = create_user_at(&mut table, &create_req("grace", None), 2).expect("fresh");
    let req = Update { id: Some(g.id), username: Some("ada".to_owned()), name: None };
    match update_user_at(&mut table, &req, 3) {
        Err(Error::BusyUsername { username }) => assert_eq!(username, "ada"),
        _ => panic!("stealing a username must be rejected"),
    }
    let fetched = get_user_by_id(&table, g.id).expect("present");
    assert!(same_record(&g, &fetched));
}

#[test]
fn update_own_username_to_itself_succeeds() {
    let mut table = UserTable::new();
    let u = create_user_at(&mut table, &create_req("ada", Some("Ada")), 1).expect("fresh");
    let req = Update { id: Some(u.id), username: Some("ada".to_owned()), name: None };
    let updated = update_user_at(&mut table, &req, 2).expect("own username is not busy");
    assert_eq!(updated.username.as_deref(), Some("ada"));
    assert_eq!(updated.name, "Ada");
}

#[test]
fn update_unknown_id_is_not_found() {
    let mut table = UserTable::new();
    let req = Update { id: Some(5), username: None, name: Some("X".to_owned()) };
    match update_user_at(&mut table, &req, 1) {
        Err(Error::NotFound { entity }) => assert_eq!(entity, "User"),
        _ => panic!("unknown id must not update"),
    }
}

#[test]
fn update_without_id_is_invalid_field() {
    let mut table = UserTable::new();
    let req = Update { id: None, username: None, name: Some("X".to_owned()) };
    match update_user_at(&mut table, &req, 1) {
        Err(Error::InvalidField { field, .. }) => assert_eq!(field, "id"),
        _ => panic!("missing id must be rejected"),
    }
}

#[test]
fn listing_pages_in_stored_order() {
    let mut table = UserTable::new();
    for (i, username) in ["ada", "grace", "edsger", "tony"].iter().enumerate() {
        create_user_at(&mut table, &create_req(username, None), i as i64).expect("fresh");
    }
    let q = Get { id: None, username: None, limit: Some(2), offset: Some(1) };
    let page = get_users(&table, &q).expect("valid");
    assert_eq!(page.count, 2);
    assert_eq!(page.users.len(), 2);
    assert_eq!(page.users[0].username.as_deref(), Some("grace"));
    assert_eq!(page.users[1].username.as_deref(), Some("edsger"));
}

#[test]
fn listing_filters_by_id_and_username() {
    let mut table = UserTable::new();
    let a = create_user_at(&mut table, &create_req("ada", None), 1).expect("fresh");
    create_user_at(&mut table, &create_req("grace", None), 2).expect("fresh");
    let by_id = Get { id: Some(a.id), username: None, limit: Some(10), offset: Some(0) };
    let page = get_users(&table, &by_id).expect("valid");
    assert_eq!(page.count, 1);
    assert_eq!(page.users[0].id, a.id);
    let by_name = Get { id: None, username: Some("grace".to_owned()), limit: Some(10), offset: Some(0) };
    let page = get_users(&table, &by_name).expect("valid");
    assert_eq!(page.count, 1);
    assert_eq!(page.users[0].username.as_deref(), Some("grace"));
    let both = Get { id: Some(a.id), username: Some("grace".to_owned()), limit: Some(10), offset: Some(0) };
    let page = get_users(&table, &both).expect("valid");
    assert_eq!(page.count, 0, "filters are AND-combined");
}

#[test]
fn listing_offset_beyond_end_is_empty() {
    let mut table = UserTable::new();
    create_user_at(&mut table, &create_req("ada", None), 1).expect("fresh");
    let q = Get { id: None, username: None, limit: Some(10), offset: Some(5) };
    let page = get_users(&table, &q).expect("valid");
    assert_eq!(page.count, 0);
    assert!(page.users.is_empty());
}
