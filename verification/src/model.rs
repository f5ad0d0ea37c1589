//! The store as mathematics: a map from identifier to record, and what each
//! operation makes of it.

use crate::error::ServiceError;
use crate::user::{FieldsView, UserView};
use vstd::prelude::*;

verus! {

/// Every record is filed under its own identifier, and there are finitely many.
pub open spec fn consistent(users: Map<u32, UserView>) -> bool {
    &&& users.dom().finite()
    &&& forall|id: u32| users.contains_key(id) ==> (#[trigger] users[id]).id == id
}

/// `id` is the largest identifier in use, or 0 where none is.
pub open spec fn is_max_id(users: Map<u32, UserView>, id: nat) -> bool {
    &&& forall|k: u32| users.contains_key(k) ==> k <= id
    &&& id == 0 || (id <= u32::MAX && users.contains_key(id as u32))
}

/// The largest identifier in use, or 0 where none is.
pub open spec fn max_id(users: Map<u32, UserView>) -> nat {
    choose|id: nat| is_max_id(users, id)
}

/// The identifier that the next created record gets.
pub open spec fn next_id(users: Map<u32, UserView>) -> nat {
    max_id(users) + 1
}

/// What `get` answers.
pub open spec fn lookup(users: Map<u32, UserView>, id: u32) -> Result<UserView, ServiceError> {
    if users.contains_key(id) {
        Ok(users[id])
    } else {
        Err(ServiceError::NotFound)
    }
}

/// The record with identifier `id` and the given fields.
pub open spec fn record(id: u32, fields: FieldsView) -> UserView {
    UserView { id, name: fields.name, email: fields.email, age: fields.age }
}

/// The record that `create` makes.
pub open spec fn created(users: Map<u32, UserView>, fields: FieldsView) -> UserView {
    record(next_id(users) as u32, fields)
}

/// The store after `create`.
pub open spec fn after_create(users: Map<u32, UserView>, fields: FieldsView) -> Map<u32, UserView> {
    users.insert(next_id(users) as u32, created(users, fields))
}

/// What `update` answers.
pub open spec fn update_outcome(users: Map<u32, UserView>, id: u32, fields: FieldsView) -> Result<
    UserView,
    ServiceError,
> {
    if users.contains_key(id) {
        Ok(record(id, fields))
    } else {
        Err(ServiceError::NotFound)
    }
}

/// The store after `update`.
pub open spec fn after_update(users: Map<u32, UserView>, id: u32, fields: FieldsView) -> Map<
    u32,
    UserView,
> {
    if users.contains_key(id) {
        users.insert(id, record(id, fields))
    } else {
        users
    }
}

/// What `delete` answers.
pub open spec fn delete_outcome(users: Map<u32, UserView>, id: u32) -> Result<(), ServiceError> {
    if users.contains_key(id) {
        Ok(())
    } else {
        Err(ServiceError::NotFound)
    }
}

/// The store after `delete`.
pub open spec fn after_delete(users: Map<u32, UserView>, id: u32) -> Map<u32, UserView> {
    users.remove(id)
}

/// `all` lists every record of `users` exactly once.
pub open spec fn enumerates(users: Map<u32, UserView>, all: Seq<UserView>) -> bool {
    &&& all.len() == users.len()
    &&& forall|i: int| 0 <= i < all.len() ==> users.contains_key(all[i].id) && users[all[i].id] == all[i]
    &&& forall|i: int, j: int| 0 <= i < j < all.len() ==> all[i].id != all[j].id
}

/// The part of `all` that a page shows: skip `offset` items, then take up to `limit`.
pub open spec fn window<A>(all: Seq<A>, offset: nat, limit: nat) -> Seq<A> {
    let start = if offset < all.len() { offset } else { all.len() };
    let end = if start + limit < all.len() { start + limit } else { all.len() };
    all.subrange(start as int, end as int)
}

} // verus!
