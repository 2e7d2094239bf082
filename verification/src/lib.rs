//! An in-memory store of user records with identifiers that the store
//! assigns, and the operations of a small service on top of it.
//!
//! * [`text`] decides whether a name is blank.
//! * [`user`] holds the record and its model.
//! * [`model`] is the store as a mathematical object, and says what each
//!   operation does to it.
//! * [`store`] is the store that runs, proved against the model.
//! * [`service`] answers each request with a status code and a body.
//! * [`laws`] proves what holds of every sequence of requests.
//!
//! Hours are double-precision amounts that the library carries but never
//! computes with: the caller hands in the function that adds two of them.

pub mod laws;
pub mod model;
pub mod service;
pub mod store;
pub mod text;
pub mod user;
