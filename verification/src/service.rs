//! The seven operations of the service, each from a request's plain values to
//! a status code and a body. Reading a request off the wire and writing the
//! body out are left to the caller; so is the exclusive access to the store,
//! which the `&mut` in each signature asks for.

use vstd::prelude::*;
use crate::model::StoreView;
use crate::store::{Store, StoreError};
use crate::text::is_blank;
use crate::user::{views, Hours, User, UserView};

verus! {

/// The request was carried out on what was there.
pub const STATUS_OK: u16 = 200;

/// A record was created.
pub const STATUS_CREATED: u16 = 201;

/// The request itself was not acceptable.
pub const STATUS_BAD_REQUEST: u16 = 400;

/// The record that the request names does not exist.
pub const STATUS_NOT_FOUND: u16 = 404;

/// What a response carries.
#[derive(Debug, PartialEq, Eq)]
pub enum Body {
    /// One record, to be written out as a structured value.
    User(User),
    /// A list of records, to be written out as a structured value.
    Users(Vec<User>),
    /// A plain-text message.
    Text(String),
}

/// A status code and a body.
#[derive(Debug, PartialEq, Eq)]
pub struct Response {
    pub status: u16,
    pub body: Body,
}

/// The model of a body.
pub enum BodyView {
    User(UserView),
    Users(Seq<UserView>),
    Text(Seq<char>),
}

/// The model of a response.
pub struct ResponseView {
    pub status: u16,
    pub body: BodyView,
}

impl View for Body {
    type V = BodyView;

    open spec fn view(&self) -> BodyView {
        match self {
            Body::User(u) => BodyView::User(u@),
            Body::Users(us) => BodyView::Users(views(us@)),
            Body::Text(t) => BodyView::Text(t@),
        }
    }
}

impl View for Response {
    type V = ResponseView;

    open spec fn view(&self) -> ResponseView {
        ResponseView { status: self.status, body: self.body@ }
    }
}

impl StoreError {
    /// The status code that reports this error.
    pub open spec fn status_code(self) -> u16 {
        match self {
            StoreError::NotFound => STATUS_NOT_FOUND,
            StoreError::Validation => STATUS_BAD_REQUEST,
        }
    }

    /// The fixed text that reports this error.
    pub open spec fn message(self) -> Seq<char> {
        match self {
            StoreError::NotFound => "User not found"@,
            StoreError::Validation => "Name is required and must be a non-empty string"@,
        }
    }

    /// The status code that reports this error.
    pub fn status(&self) -> (code: u16)
        ensures
            code == self.status_code(),
    {
        match self {
            StoreError::NotFound => STATUS_NOT_FOUND,
            StoreError::Validation => STATUS_BAD_REQUEST,
        }
    }

    /// The fixed text that reports this error.
    pub fn text(&self) -> (msg: String)
        ensures
            msg@ == self.message(),
    {
        match self {
            StoreError::NotFound => "User not found".to_owned(),
            StoreError::Validation => "Name is required and must be a non-empty string".to_owned(),
        }
    }
}

impl ResponseView {
    /// Success with one record.
    pub open spec fn ok_user(u: UserView) -> ResponseView {
        ResponseView { status: STATUS_OK, body: BodyView::User(u) }
    }

    /// Success with a list of records.
    pub open spec fn ok_users(users: Seq<UserView>) -> ResponseView {
        ResponseView { status: STATUS_OK, body: BodyView::Users(users) }
    }

    /// A record was created.
    pub open spec fn created(u: UserView) -> ResponseView {
        ResponseView { status: STATUS_CREATED, body: BodyView::User(u) }
    }

    /// The report of an error: its status code and its text.
    pub open spec fn failure(e: StoreError) -> ResponseView {
        ResponseView { status: e.status_code(), body: BodyView::Text(e.message()) }
    }

    /// The answer to a request that names a record: the record, or the
    /// report that there is none.
    pub open spec fn found(record: Option<UserView>) -> ResponseView {
        match record {
            Some(u) => ResponseView::ok_user(u),
            None => ResponseView::failure(StoreError::NotFound),
        }
    }
}

/// The response that reports `e`.
fn failure(e: StoreError) -> (resp: Response)
    ensures
        resp@ == ResponseView::failure(e),
{
    Response { status: e.status(), body: Body::Text(e.text()) }
}

/// The response to a request that names a record, from what the store said.
fn found(res: Result<User, StoreError>) -> (resp: Response)
    ensures
        resp@ == match res {
            Ok(u) => ResponseView::ok_user(u@),
            Err(e) => ResponseView::failure(e),
        },
{
    match res {
        Ok(u) => Response { status: STATUS_OK, body: Body::User(u) },
        Err(e) => failure(e),
    }
}

/// Lists every record, oldest first.
pub fn get_all_users(store: &Store) -> (resp: Response)
    ensures
        resp@ == ResponseView::ok_users(store@.users),
        store@.wf(),
{
    Response { status: STATUS_OK, body: Body::Users(store.list()) }
}

/// Looks up the record `user_id`.
pub fn get_user_by_id(store: &Store, user_id: u32) -> (resp: Response)
    ensures
        resp@ == ResponseView::found(store@.find(user_id as nat)),
        store@.wf(),
{
    found(store.get(user_id))
}

/// Creates a record called `name`. A blank name is answered with the
/// validation error and changes nothing.
pub fn add_user(store: &mut Store, name: String) -> (resp: Response)
    requires
        !is_blank(name@) ==> old(store)@.next_id < u32::MAX,
    ensures
        final(store)@ == old(store)@.create(name@),
        final(store)@.wf(),
        resp@ == if is_blank(name@) {
            ResponseView::failure(StoreError::Validation)
        } else {
            ResponseView::created(old(store)@.next_user(name@))
        },
{
    match store.create(name) {
        Ok(u) => Response { status: STATUS_CREATED, body: Body::User(u) },
        Err(e) => failure(e),
    }
}

/// Replaces the name of the record `user_id`. A blank `name` is no error:
/// the record is returned as it was.
pub fn update_user(store: &mut Store, user_id: u32, name: String) -> (resp: Response)
    ensures
        final(store)@ == old(store)@.update(user_id as nat, name@),
        final(store)@.wf(),
        resp@ == ResponseView::found(final(store)@.find(user_id as nat)),
{
    found(store.update(user_id, name))
}

/// Adds `hours_to_add` to the hours of the record `user_id` and answers with
/// the record as it then stands. The new amount is what `sum` makes of the
/// amount so far and `hours_to_add`, in that order.
pub fn update_user_hours<F: FnOnce(Hours, Hours) -> Hours>(
    store: &mut Store,
    user_id: u32,
    hours_to_add: Hours,
    sum: F,
) -> (resp: Response)
    requires
        old(store)@.find(user_id as nat) matches Some(u) ==> sum.requires(
            (u.hours_worked, hours_to_add),
        ),
    ensures
        final(store)@.wf(),
        match old(store)@.find(user_id as nat) {
            Some(u) => {
                &&& resp@.body matches BodyView::User(r)
                &&& sum.ensures((u.hours_worked, hours_to_add), r.hours_worked)
                &&& resp@ == ResponseView::ok_user(UserView { hours_worked: r.hours_worked, ..u })
                &&& final(store)@ == old(store)@.accumulate(user_id as nat, r.hours_worked)
            },
            None => {
                &&& resp@ == ResponseView::failure(StoreError::NotFound)
                &&& final(store)@ == old(store)@
            },
        },
{
    found(store.accumulate(user_id, hours_to_add, sum))
}

/// Deletes the record `user_id` and answers with the record that was
/// removed.
pub fn delete_user(store: &mut Store, user_id: u32) -> (resp: Response)
    ensures
        final(store)@ == old(store)@.delete(user_id as nat),
        final(store)@.wf(),
        resp@ == ResponseView::found(old(store)@.find(user_id as nat)),
{
    found(store.delete(user_id))
}

/// Deletes every record, starts numbering again at 1, and answers with the
/// list that is left: the empty one.
pub fn delete_all_users(store: &mut Store) -> (resp: Response)
    ensures
        final(store)@ == StoreView::empty(),
        resp@ == ResponseView::ok_users(Seq::empty()),
{
    store.delete_all();
    Response { status: STATUS_OK, body: Body::Users(store.list()) }
}

} // verus!
