//! An in-memory store of user records and the request handlers in front of it.
//!
//! - [`user`]: the record and the fields a client supplies for one.
//! - [`model`]: the store as a mathematical map, and what each operation makes of it.
//! - [`store`]: the store itself, with create, get, update, delete and a paged listing.
//! - [`handlers`]: one function per route, from decoded request to status and body.
//! - [`router`]: from any decoded request to its response, failures included.
//! - [`error`]: the failures and the status each is answered with.
//! - [`clock`]: the current time as a time stamp.
//! - [`laws`]: what holds of the operations taken together.
//! - [`text`]: small helpers on text.
//!
//! The store is a plain value: sharing it between tasks, and the lock that
//! sharing takes, are the caller's. Every operation takes the store by
//! reference for its whole duration, so none sees another half done.

pub mod clock;
pub mod error;
pub mod handlers;
pub mod laws;
pub mod model;
pub mod router;
pub mod store;
pub mod text;
pub mod user;
