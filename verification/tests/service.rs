use user_store::service::{
    add_user, delete_all_users, delete_user, get_all_users, get_user_by_id, update_user,
    update_user_hours, Body, Response, STATUS_BAD_REQUEST, STATUS_CREATED, STATUS_NOT_FOUND,
    STATUS_OK,
};
use user_store::store::{Store, StoreError};
use user_store::user::{Hours, User};

fn record(id: u32, name: &str, worked: f64) -> User {
    User { id, name: name.to_string(), hours_worked: amount_of(worked) }
}

fn amount_of(amount: f64) -> Hours {
    Hours { bits: amount.to_bits() }
}

fn adding(current: Hours, delta: Hours) -> Hours {
    amount_of(f64::from_bits(current.bits) + f64::from_bits(delta.bits))
}

fn ok_one(id: u32, name: &str, worked: f64) -> Response {
    Response { status: 200, body: Body::User(record(id, name, worked)) }
}

fn not_found() -> Response {
    Response { status: 404, body: Body::Text("User not found".to_string()) }
}

fn name_required() -> Response {
    Response {
        status: 400,
        body: Body::Text("Name is required and must be a non-empty string".to_string()),
    }
}

#[test]
fn status_codes() {
    assert_eq!(STATUS_OK, 200);
    assert_eq!(STATUS_CREATED, 201);
    assert_eq!(STATUS_BAD_REQUEST, 400);
    assert_eq!(STATUS_NOT_FOUND, 404);
}

#[test]
fn not_found_error_has_its_code_and_text() {
    assert_eq!(StoreError::NotFound.status(), 404);
    assert_eq!(StoreError::NotFound.text(), "User not found");
}

#[test]
fn validation_error_has_its_code_and_text() {
    assert_eq!(StoreError::Validation.status(), 400);
    assert_eq!(
        StoreError::Validation.text(),
        "Name is required and must be a non-empty string"
    );
}

#[test]
fn create_accumulate_reset_create() {
    let mut store = Store::new();
    assert_eq!(
        add_user(&mut store, "Bob".to_string()),
        Response { status: 201, body: Body::User(record(1, "Bob", 0.0)) }
    );
    assert_eq!(update_user_hours(&mut store, 1, amount_of(2.5), adding), ok_one(1, "Bob", 2.5));
    assert_eq!(
        delete_all_users(&mut store),
        Response { status: 200, body: Body::Users(Vec::new()) }
    );
    let again = add_user(&mut store, "Carl".to_string());
    assert_eq!(again, Response { status: 201, body: Body::User(record(1, "Carl", 0.0)) });
}

#[test]
fn blank_name_is_a_bad_request_and_nothing_is_stored() {
    let mut store = Store::new();
    assert_eq!(add_user(&mut store, "  ".to_string()), name_required());
    assert_eq!(
        get_all_users(&store),
        Response { status: 200, body: Body::Users(Vec::new()) }
    );
    assert_eq!(store.next_id(), 1);
}

#[test]
fn empty_name_is_a_bad_request() {
    let mut store = Store::new();
    assert_eq!(add_user(&mut store, String::new()), name_required());
    assert_eq!(store.len(), 0);
}

#[test]
fn list_answers_with_every_record_in_order() {
    let mut store = Store::new();
    add_user(&mut store, "b".to_string());
    add_user(&mut store, "a".to_string());
    assert_eq!(
        get_all_users(&store),
        Response {
            status: 200,
            body: Body::Users(vec![record(1, "b", 0.0), record(2, "a", 0.0)]),
        }
    );
}

#[test]
fn get_answers_with_the_record() {
    let mut store = Store::new();
    add_user(&mut store, "Alice".to_string());
    assert_eq!(get_user_by_id(&store, 1), ok_one(1, "Alice", 0.0));
}

#[test]
fn update_answers_with_the_renamed_record() {
    let mut store = Store::new();
    add_user(&mut store, "Alice".to_string());
    assert_eq!(update_user(&mut store, 1, "Alicia".to_string()), ok_one(1, "Alicia", 0.0));
    assert_eq!(get_user_by_id(&store, 1), ok_one(1, "Alicia", 0.0));
}

#[test]
fn update_with_an_empty_name_is_a_success_that_changes_nothing() {
    let mut store = Store::new();
    add_user(&mut store, "Alice".to_string());
    let resp = update_user(&mut store, 1, String::new());
    assert_eq!(resp.status, 200);
    assert_ne!(resp.status, 400);
    assert_eq!(resp, ok_one(1, "Alice", 0.0));
    assert_eq!(get_user_by_id(&store, 1), ok_one(1, "Alice", 0.0));
}

#[test]
fn hours_add_up_over_two_requests() {
    let mut store = Store::new();
    add_user(&mut store, "Alice".to_string());
    assert_eq!(update_user_hours(&mut store, 1, amount_of(5.0), adding), ok_one(1, "Alice", 5.0));
    assert_eq!(update_user_hours(&mut store, 1, amount_of(3.0), adding), ok_one(1, "Alice", 8.0));
}

#[test]
fn delete_answers_with_the_removed_record() {
    let mut store = Store::new();
    add_user(&mut store, "a".to_string());
    add_user(&mut store, "b".to_string());
    assert_eq!(delete_user(&mut store, 1), ok_one(1, "a", 0.0));
    assert_eq!(
        get_all_users(&store),
        Response { status: 200, body: Body::Users(vec![record(2, "b", 0.0)]) }
    );
}

#[test]
fn every_request_for_an_unknown_id_is_not_found_and_changes_nothing() {
    let mut store = Store::new();
    add_user(&mut store, "a".to_string());
    let before = store.list();
    assert_eq!(get_user_by_id(&store, 2), not_found());
    assert_eq!(update_user(&mut store, 2, "x".to_string()), not_found());
    assert_eq!(update_user_hours(&mut store, 2, amount_of(1.0), adding), not_found());
    assert_eq!(delete_user(&mut store, 2), not_found());
    assert_eq!(store.list(), before);
    assert_eq!(store.next_id(), 2);
}

#[test]
fn delete_all_on_an_empty_store_is_a_success() {
    let mut store = Store::new();
    assert_eq!(
        delete_all_users(&mut store),
        Response { status: 200, body: Body::Users(Vec::new()) }
    );
}
