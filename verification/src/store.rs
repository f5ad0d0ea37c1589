//! The record store: a map from identifier to user record.

use crate::error::ServiceError;
use crate::model::{
    after_create, after_delete, after_update, consistent, created, delete_outcome, enumerates,
    is_max_id, lookup, max_id, next_id, update_outcome, window,
};
use crate::user::{FieldsView, User, UserView};
use std::collections::HashMap;
use vstd::prelude::*;
use vstd::std_specs::iter::IteratorSpec;

verus! {

broadcast use vstd::std_specs::hash::group_hash_axioms;

/// The users of the service, each filed under the identifier the store gave it.
pub struct UserStore {
    users: HashMap<u32, User>,
}

impl View for UserStore {
    type V = Map<u32, UserView>;

    closed spec fn view(&self) -> Map<u32, UserView> {
        self.users@.map_values(|user: User| user@)
    }
}

/// The records of `users` as plain values.
pub open spec fn views(users: Seq<User>) -> Seq<UserView> {
    users.map_values(|user: User| user@)
}

/// An answer that carries a record, as plain values.
pub open spec fn outcome_view(outcome: Result<User, ServiceError>) -> Result<
    UserView,
    ServiceError,
> {
    match outcome {
        Ok(user) => Ok(user@),
        Err(e) => Err(e),
    }
}

/// Taking the plain values of a page is the same as paging the plain values.
pub proof fn lemma_views_of_window(all: Seq<User>, offset: nat, limit: nat)
    ensures
        views(window(all, offset, limit)) == window(views(all), offset, limit),
{
    assert(views(window(all, offset, limit)) =~= window(views(all), offset, limit));
}

/// Skips `offset` records of `all`, then keeps up to `limit` of what follows.
pub fn paginate(all: Vec<User>, limit: usize, offset: usize) -> (page: Vec<User>)
    ensures
        page@ == window(all@, offset as nat, limit as nat),
        page.len() <= limit,
{
    let len: usize = all.len();
    let start: usize = if offset < len {
        offset
    } else {
        len
    };
    let end: usize = if limit < len - start {
        start + limit
    } else {
        len
    };
    let mut page: Vec<User> = Vec::new();
    let mut i: usize = start;
    while i < end
        invariant
            start <= i <= end <= all.len(),
            page@ == all@.subrange(start as int, i as int),
        decreases end - i,
    {
        page.push(all[i].clone());
        i += 1;
        assert(page@ =~= all@.subrange(start as int, i as int));
    }
    page
}

impl UserStore {
    #[verifier::type_invariant]
    spec fn filed_by_id(self) -> bool {
        forall|id: u32| self.users@.contains_key(id) ==> (#[trigger] self.users@[id]).id == id
    }

    proof fn lemma_consistent(self)
        requires
            self.filed_by_id(),
        ensures
            consistent(self@),
            self@.dom() == self.users@.dom(),
    {
        assert(self@.dom() =~= self.users@.dom());
    }

    /// The records in the order in which the store lists them.
    pub closed spec fn listing(&self) -> Seq<UserView> {
        vstd::std_specs::hash::into_iter(self.users.iter()).map_values(
            |entry: (u32, User)| entry.1@,
        )
    }

    /// An empty store.
    pub fn new() -> (store: Self)
        ensures
            store@ == Map::<u32, UserView>::empty(),
            consistent(store@),
    {
        let store = UserStore { users: HashMap::new() };
        assert(store@ =~= Map::<u32, UserView>::empty());
        store
    }

    /// The number of records held.
    pub fn len(&self) -> (count: usize)
        ensures
            count == self@.len(),
            consistent(self@),
    {
        proof {
            use_type_invariant(self);
            self.lemma_consistent();
        }
        self.users.len()
    }

    /// The record filed under `id`.
    pub fn get(&self, id: u32) -> (found: Result<User, ServiceError>)
        ensures
            outcome_view(found) == lookup(self@, id),
            consistent(self@),
    {
        proof {
            use_type_invariant(self);
            self.lemma_consistent();
        }
        match self.users.get(&id) {
            Some(user) => Ok(user.clone()),
            None => Err(ServiceError::NotFound),
        }
    }

    /// One page of the listing: `offset` records are skipped and up to
    /// `limit` returned, together with the number of records in the store.
    /// The listing holds every record once; its order is the store's own and
    /// stays the same for as long as the store is not changed.
    pub fn list(&self, limit: usize, offset: usize) -> (page: (Vec<User>, usize))
        ensures
            views(page.0@) == window(self.listing(), offset as nat, limit as nat),
            page.0.len() == window(self.listing(), offset as nat, limit as nat).len(),
            enumerates(self@, self.listing()),
            page.0.len() <= limit,
            page.1 == self@.len(),
            consistent(self@),
    {
        let all = self.snapshot();
        let total: usize = self.len();
        proof {
            lemma_views_of_window(all@, offset as nat, limit as nat);
        }
        (paginate(all, limit, offset), total)
    }

    /// The identifier that `create` would assign next, or `None` where the
    /// largest identifier in use is already the largest there is.
    pub fn next_free_id(&self) -> (id: Option<u32>)
        ensures
            next_id(self@) <= u32::MAX ==> id == Some(next_id(self@) as u32),
            next_id(self@) > u32::MAX ==> id is None,
    {
        let largest: u32 = self.largest_id();
        if largest < u32::MAX {
            Some(largest + 1)
        } else {
            None
        }
    }

    /// Replaces the name, email and age of the record filed under `id`.
    /// The identifier stays; an unknown identifier changes nothing.
    pub fn update(&mut self, id: u32, name: String, email: String, age: u32) -> (outcome: Result<
        User,
        ServiceError,
    >)
        ensures
            outcome_view(outcome) == update_outcome(
                old(self)@,
                id,
                (FieldsView { name: name@, email: email@, age }),
            ),
            final(self)@ == after_update(
                old(self)@,
                id,
                (FieldsView { name: name@, email: email@, age }),
            ),
            consistent(final(self)@),
    {
        proof {
            use_type_invariant(&*self);
            self.lemma_consistent();
        }
        if self.users.contains_key(&id) {
            let user = User { id, name, email, age };
            let mut users = self.take_users();
            users.insert(id, user.clone());
            self.users = users;
            proof {
                assert(self@ =~= old(self)@.insert(id, user@));
                use_type_invariant(&*self);
                self.lemma_consistent();
            }
            Ok(user)
        } else {
            Err(ServiceError::NotFound)
        }
    }

    /// Removes the record filed under `id`.
    pub fn delete(&mut self, id: u32) -> (outcome: Result<(), ServiceError>)
        ensures
            outcome == delete_outcome(old(self)@, id),
            final(self)@ == after_delete(old(self)@, id),
            consistent(final(self)@),
    {
        proof {
            use_type_invariant(&*self);
        }
        let mut users = self.take_users();
        let removed = users.remove(&id);
        self.users = users;
        proof {
            assert(self@ =~= old(self)@.remove(id));
            use_type_invariant(&*self);
            self.lemma_consistent();
        }
        match removed {
            Some(_) => Ok(()),
            None => Err(ServiceError::NotFound),
        }
    }

    /// Files a new record under the next free identifier: one more than the
    /// largest in use, or 1 in an empty store.
    pub fn create(&mut self, name: String, email: String, age: u32) -> (user: User)
        requires
            next_id(old(self)@) <= u32::MAX,
        ensures
            user@ == created(old(self)@, (FieldsView { name: name@, email: email@, age })),
            final(self)@ == after_create(
                old(self)@,
                (FieldsView { name: name@, email: email@, age }),
            ),
            consistent(final(self)@),
    {
        proof {
            use_type_invariant(&*self);
        }
        let largest: u32 = self.largest_id();
        let id: u32 = largest + 1;
        let user = User { id, name, email, age };
        let mut users = self.take_users();
        users.insert(id, user.clone());
        self.users = users;
        proof {
            assert(self@ =~= old(self)@.insert(id, user@));
            use_type_invariant(&*self);
            self.lemma_consistent();
        }
        user
    }

    /// Every record, copied, in listing order.
    fn snapshot(&self) -> (all: Vec<User>)
        ensures
            views(all@) == self.listing(),
            enumerates(self@, self.listing()),
    {
        proof {
            use_type_invariant(self);
        }
        let mut all: Vec<User> = Vec::new();
        for entry in iter: self.users.iter()
            invariant
                all@.len() == iter.index(),
                forall|i: int| 0 <= i < iter.index() ==> all@[i] == *iter.seq()[i].1,
                iter.seq().no_duplicates(),
        {
            all.push(entry.1.clone());
        }
        proof {
            let entries = self.users.iter().remaining();
            let listing = self.listing();
            assert(views(all@) =~= listing);
            assert(self@.dom() =~= self.users@.dom());
            assert forall|i: int| 0 <= i < listing.len() implies self@.contains_key(listing[i].id)
                && self@[listing[i].id] == listing[i] by {
                assert(self.users@.contains_key(*entries[i].0));
            }
            assert forall|i: int, j: int| 0 <= i < j < listing.len() implies listing[i].id
                != listing[j].id by {
                assert(self.users@.contains_key(*entries[i].0));
                assert(self.users@.contains_key(*entries[j].0));
                if listing[i].id == listing[j].id {
                    assert(entries[i] == entries[j]);
                }
            }
        }
        all
    }

    /// Moves the map out, leaving an empty one, so that it can be changed
    /// and put back.
    fn take_users(&mut self) -> (users: HashMap<u32, User>)
        ensures
            users == old(self).users,
            final(self).users@ == Map::<u32, User>::empty(),
    {
        let mut users = HashMap::new();
        std::mem::swap(&mut users, &mut self.users);
        users
    }

    fn largest_id(&self) -> (largest: u32)
        ensures
            largest == max_id(self@),
    {
        let mut largest: u32 = 0;
        for id in iter: self.users.keys()
            invariant
                forall|i: int| 0 <= i < iter.index() ==> *iter.seq()[i] <= largest,
                largest == 0 || self.users@.contains_key(largest),
        {
            if *id > largest {
                largest = *id;
            }
        }
        assert(is_max_id(self@, largest as nat));
        largest
    }
}

} // verus!
