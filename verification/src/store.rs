//! The vector-backed user store.
//!
//! The operations a small CRUD service performs on its in-memory list of
//! users: list, find by id, create, update, delete.  The HTTP layer around
//! them is plumbing and lives outside this crate; each handler's decision —
//! which record matches, what changes, what "not found" means — is here and
//! verified.  Lookups go by the first record with the requested id, in
//! insertion order; creation does not check for duplicate ids.

use vstd::prelude::*;
use crate::records::User;

verus! {

/// There is some record with this id in the sequence.
pub open spec fn has_user(users: Seq<User>, id: i32) -> bool {
    exists|j: int| 0 <= j < users.len() && users[j].id == id
}

/// `i` is the index of the first record with this id.
pub open spec fn is_first_match(users: Seq<User>, id: i32, i: int) -> bool {
    &&& 0 <= i < users.len()
    &&& users[i].id == id
    &&& forall|j: int| 0 <= j < i ==> users[j].id != id
}

/// In-memory list of users, in insertion order.
pub struct UserStore {
    users: Vec<User>,
}

impl UserStore {
    /// The stored records, in order.
    pub closed spec fn records(&self) -> Seq<User> {
        self.users@
    }

    /// Creates an empty store.
    pub fn new() -> (r: UserStore)
        ensures
            r.records() == Seq::<User>::empty(),
    {
        UserStore { users: Vec::new() }
    }

    /// All stored records, in order.
    pub fn get_users(&self) -> (r: &Vec<User>)
        ensures
            r@ == self.records(),
    {
        &self.users
    }

    /// The index of the first record with this id, if any record has it.
    pub fn position_of(&self, id: i32) -> (r: Option<usize>)
        ensures
            match r {
                Some(i) => is_first_match(self.records(), id, i as int),
                None => !has_user(self.records(), id),
            },
    {
        let mut i: usize = 0;
        while i < self.users.len()
            invariant
                0 <= i <= self.users@.len(),
                forall|j: int| 0 <= j < i ==> self.users@[j].id != id,
            decreases self.users@.len() - i,
        {
            if self.users[i].id == id {
                return Some(i);
            }
            i = i + 1;
        }
        None
    }

    /// The first record with this id, or `None` exactly when no record has
    /// it.
    pub fn get_user(&self, id: i32) -> (r: Option<&User>)
        ensures
            match r {
                Some(u) => exists|i: int|
                    is_first_match(self.records(), id, i) && u == self.records()[i],
                None => !has_user(self.records(), id),
            },
    {
        match self.position_of(id) {
            Some(i) => Some(&self.users[i]),
            None => None,
        }
    }

    /// Appends a record; no duplicate-id check is made.
    pub fn create_user(&mut self, user: User)
        ensures
            final(self).records() == old(self).records().push(user),
    {
        self.users.push(user);
    }

    /// Overwrites the first record with this id, whole, and reports whether
    /// one was found; when none is, the store is untouched.
    pub fn update_user(&mut self, id: i32, user: User) -> (r: bool)
        ensures
            r == has_user(old(self).records(), id),
            r ==> exists|i: int|
                is_first_match(old(self).records(), id, i) && final(self).records() == old(
                    self,
                ).records().update(i, user),
            !r ==> final(self).records() == old(self).records(),
    {
        match self.position_of(id) {
            Some(i) => {
                self.users.set(i, user);
                true
            },
            None => false,
        }
    }

    /// Removes the first record with this id, closing the gap, and reports
    /// whether one was found; when none is, the store is untouched.
    pub fn delete_user(&mut self, id: i32) -> (r: bool)
        ensures
            r == has_user(old(self).records(), id),
            r ==> exists|i: int|
                is_first_match(old(self).records(), id, i) && final(self).records() == old(
                    self,
                ).records().remove(i),
            !r ==> final(self).records() == old(self).records(),
    {
        match self.position_of(id) {
            Some(i) => {
                self.users.remove(i);
                true
            },
            None => false,
        }
    }
}

} // verus!
