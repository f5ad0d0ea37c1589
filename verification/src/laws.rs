//! What holds of the store's operations, taken together.

use crate::error::ServiceError;
use crate::model::{
    after_create, after_delete, after_update, consistent, created, delete_outcome, is_max_id,
    lookup, max_id, next_id, update_outcome, window,
};
use crate::router::{failure, status_of, store_after, Request};
use crate::user::{FieldsView, UserView};
use vstd::prelude::*;

verus! {

/// The store after one record has been created for each entry of `batch`, in order.
pub open spec fn after_creates(users: Map<u32, UserView>, batch: Seq<FieldsView>) -> Map<
    u32,
    UserView,
>
    decreases batch.len(),
{
    if batch.len() == 0 {
        users
    } else {
        after_create(after_creates(users, batch.drop_last()), batch.last())
    }
}

/// The identifier of the record that the create for `batch[i]` returns.
pub open spec fn created_id(users: Map<u32, UserView>, batch: Seq<FieldsView>, i: int) -> u32 {
    created(after_creates(users, batch.take(i)), batch[i]).id
}

proof fn lemma_max_id_below(users: Map<u32, UserView>, bound: nat)
    requires
        bound <= u32::MAX,
        forall|k: u32| users.contains_key(k) ==> k <= bound,
    ensures
        exists|id: nat| is_max_id(users, id),
    decreases bound,
{
    if bound == 0 || users.contains_key(bound as u32) {
        assert(is_max_id(users, bound));
    } else {
        lemma_max_id_below(users, (bound - 1) as nat);
    }
}

/// Every store has a largest identifier in use (0 where it is empty), and
/// only one number is it.
pub proof fn lemma_max_id(users: Map<u32, UserView>)
    ensures
        is_max_id(users, max_id(users)),
        forall|id: nat| is_max_id(users, id) ==> id == max_id(users),
{
    lemma_max_id_below(users, u32::MAX as nat);
}

/// The next identifier is larger than every identifier in use.
pub proof fn lemma_next_id_is_fresh(users: Map<u32, UserView>)
    ensures
        forall|id: u32| users.contains_key(id) ==> id < next_id(users),
        next_id(users) <= u32::MAX ==> !users.contains_key(next_id(users) as u32),
{
    lemma_max_id(users);
}

/// Creating a record raises the largest identifier in use by one.
pub proof fn lemma_max_id_after_create(users: Map<u32, UserView>, fields: FieldsView)
    requires
        next_id(users) <= u32::MAX,
    ensures
        max_id(after_create(users, fields)) == max_id(users) + 1,
{
    lemma_max_id(users);
    lemma_max_id(after_create(users, fields));
    assert(is_max_id(after_create(users, fields), next_id(users)));
}

/// After a run of creates the largest identifier in use has grown by the
/// number of records created.
pub proof fn lemma_max_id_after_creates(users: Map<u32, UserView>, batch: Seq<FieldsView>)
    requires
        max_id(users) + batch.len() <= u32::MAX,
    ensures
        max_id(after_creates(users, batch)) == max_id(users) + batch.len(),
    decreases batch.len(),
{
    if batch.len() > 0 {
        lemma_max_id_after_creates(users, batch.drop_last());
        lemma_max_id_after_create(after_creates(users, batch.drop_last()), batch.last());
    }
}

/// In a run of creates, a record created later gets a larger identifier than
/// one created earlier: the identifiers are strictly increasing, and so no
/// two of them are the same.
pub proof fn lemma_created_ids_increase(
    users: Map<u32, UserView>,
    batch: Seq<FieldsView>,
    i: int,
    j: int,
)
    requires
        max_id(users) + batch.len() <= u32::MAX,
        0 <= i < j < batch.len(),
    ensures
        created_id(users, batch, i) < created_id(users, batch, j),
        created_id(users, batch, i) == max_id(users) + i + 1,
        created_id(users, batch, j) == max_id(users) + j + 1,
{
    lemma_max_id_after_creates(users, batch.take(i));
    lemma_max_id_after_creates(users, batch.take(j));
}

/// Looking up the identifier that `create` has just assigned gives back the
/// record that `create` returned.
pub proof fn lemma_get_after_create(users: Map<u32, UserView>, fields: FieldsView)
    ensures
        lookup(after_create(users, fields), created(users, fields).id) == Ok::<
            UserView,
            ServiceError,
        >(created(users, fields)),
{
}

/// Once a record is deleted, looking up its identifier finds nothing.
pub proof fn lemma_get_after_delete(users: Map<u32, UserView>, id: u32)
    ensures
        lookup(after_delete(users, id), id) == Err::<UserView, ServiceError>(
            ServiceError::NotFound,
        ),
{
}

/// Updating an identifier that is not in use reports that it was not found
/// and leaves the store as it was: no record comes into being.
pub proof fn lemma_update_unknown_changes_nothing(
    users: Map<u32, UserView>,
    id: u32,
    fields: FieldsView,
)
    requires
        !users.contains_key(id),
    ensures
        update_outcome(users, id, fields) == Err::<UserView, ServiceError>(ServiceError::NotFound),
        after_update(users, id, fields) == users,
{
}

/// Updating a record keeps its identifier, and a later lookup shows the new fields.
pub proof fn lemma_get_after_update(users: Map<u32, UserView>, id: u32, fields: FieldsView)
    requires
        users.contains_key(id),
    ensures
        lookup(after_update(users, id, fields), id) == update_outcome(users, id, fields),
        update_outcome(users, id, fields) matches Ok(user) && user.id == id,
        after_update(users, id, fields).dom() == users.dom(),
{
    assert(after_update(users, id, fields).dom() =~= users.dom());
}

/// A page never holds more records than its limit, whatever the offset.
pub proof fn lemma_window_within_limit<A>(all: Seq<A>, offset: nat, limit: nat)
    ensures
        window(all, offset, limit).len() <= limit,
        window(all, offset, limit).len() <= all.len(),
        offset + limit <= all.len() ==> window(all, offset, limit).len() == limit,
        offset >= all.len() ==> window(all, offset, limit).len() == 0,
{
}

/// A limit at least as large as the store, with nothing skipped, shows every record.
pub proof fn lemma_window_shows_all<A>(all: Seq<A>, limit: nat)
    requires
        all.len() <= limit,
    ensures
        window(all, 0, limit) == all,
{
    assert(window(all, 0, limit) =~= all);
}

/// A request that fails leaves the store as it was: an update or a delete
/// of an identifier that is not in use changes nothing.
pub proof fn lemma_failure_changes_nothing(users: Map<u32, UserView>, id: u32, fields: FieldsView)
    ensures
        update_outcome(users, id, fields) is Err ==> after_update(users, id, fields) == users,
        delete_outcome(users, id) is Err ==> after_delete(users, id) == users,
{
    if !users.contains_key(id) {
        assert(after_delete(users, id) =~= users);
    }
}

/// A request is answered with a failure status, 400 or above, exactly where
/// it meets a failure, and then the store is left as it was. Every other
/// request is answered with 200 or 201.
pub proof fn lemma_failed_request_changes_nothing(users: Map<u32, UserView>, request: Request)
    ensures
        failure(users, request) is Some <==> status_of(users, request).code() >= 400,
        failure(users, request) is Some ==> store_after(users, request) == users,
        failure(users, request) is None ==> status_of(users, request).code() == 200 || status_of(
            users,
            request,
        ).code() == 201,
{
    if failure(users, request) is Some {
        assert(store_after(users, request) =~= users);
    }
}

/// Each operation on a store in which every record is filed under its own
/// identifier leaves such a store.
pub proof fn lemma_operations_keep_consistency(
    users: Map<u32, UserView>,
    id: u32,
    fields: FieldsView,
)
    requires
        consistent(users),
    ensures
        next_id(users) <= u32::MAX ==> consistent(after_create(users, fields)),
        consistent(after_update(users, id, fields)),
        consistent(after_delete(users, id)),
{
}

} // verus!
