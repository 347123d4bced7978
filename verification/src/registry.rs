//! The in-memory user registry: an id-keyed store of user records.
//!
//! Records are kept in insertion order. Identifiers start at 1, are
//! assigned by a monotonically increasing counter, and are never reused
//! within the lifetime of a registry value, even after removal.

use vstd::prelude::*;

verus! {

/// A registered user record. The `id` field is assigned by the registry
/// at insertion time; `bio` is optional, and an absent bio is distinct
/// from an empty one.
pub struct User {
    pub id: u32,
    pub username: String,
    pub email: String,
    pub bio: Option<String>,
}

/// All records in `s` carry pairwise distinct identifiers.
pub open spec fn ids_distinct(s: Seq<User>) -> bool {
    forall|i: int, j: int|
        0 <= i < j < s.len() ==> s[i].id != s[j].id
}

/// All records in `s` carry identifiers in `1 ..= bound`.
pub open spec fn ids_in_range(s: Seq<User>, bound: u32) -> bool {
    forall|i: int| 0 <= i < s.len() ==> 1 <= #[trigger] s[i].id <= bound
}

/// Some record in `s` carries the identifier `id`.
pub open spec fn contains_id(s: Seq<User>, id: u32) -> bool {
    exists|i: int| 0 <= i < s.len() && #[trigger] s[i].id == id
}

/// The in-memory registry. Holds the records in insertion order
/// together with the next identifier to assign.
pub struct Registry {
    users: Vec<User>,
    next_id: u32,
}

impl View for Registry {
    type V = Seq<User>;

    closed spec fn view(&self) -> Seq<User> {
        self.users@
    }
}

impl Registry {
    /// The next identifier the registry will assign.
    pub closed spec fn next_id(&self) -> u32 {
        self.next_id
    }

    /// Registry well-formedness: identifiers are distinct, positive, and
    /// strictly below the counter, so a fresh insertion can never collide.
    pub open spec fn wf(&self) -> bool {
        &&& ids_distinct(self@)
        &&& ids_in_range(self@, (self.next_id() - 1) as u32)
        &&& 1 <= self.next_id()
    }

    /// Creates an empty registry whose first assigned identifier is 1.
    pub fn new() -> (r: Registry)
        ensures
            r.wf(),
            r@ == Seq::<User>::empty(),
            r.next_id() == 1,
    {
        Registry { users: Vec::new(), next_id: 1 }
    }

    /// Stores a new record under the next free identifier and returns
    /// that identifier. Fails exactly when the identifier counter is
    /// exhausted; identifiers are handed out consecutively and are fresh,
    /// so the stored sequence grows by one record per success.
    pub fn insert(&mut self, username: String, email: String, bio: Option<String>) -> (r: Result<
        u32,
        RegistryError,
    >)
        requires
            old(self).wf(),
        ensures
            final(self).wf(),
            r is Ok <==> old(self).next_id() < u32::MAX,
            r matches Ok(id) ==> {
                &&& id == old(self).next_id()
                &&& !contains_id(old(self)@, id)
                &&& final(self)@ == old(self)@.push(
                    (User { id, username, email, bio }),
                )
                &&& final(self)@.len() == old(self)@.len() + 1
                &&& final(self).next_id() == old(self).next_id() + 1
            },
            r is Err ==> {
                &&& r == Err::<u32, RegistryError>(RegistryError::CapacityExceeded)
                &&& *final(self) == *old(self)
            },
    {
        if self.next_id == u32::MAX {
            Err(RegistryError::CapacityExceeded)
        } else {
            let id = self.next_id;
            self.next_id = self.next_id + 1;
            self.users.push(User { id, username, email, bio });
            Ok(id)
        }
    }

    /// Looks up the record stored under `id`. Returns `Some` exactly when
    /// a record with that identifier is present; absence is an ordinary
    /// answer, never an error or a default record.
    pub fn get(&self, id: u32) -> (r: Option<&User>)
        ensures
            r is Some <==> contains_id(self@, id),
            r matches Some(u) ==> u.id == id && exists|i: int|
                0 <= i < self@.len() && self@[i] == *u,
    {
        let mut i: usize = 0;
        while i < self.users.len()
            invariant
                i <= self.users.len(),
                forall|j: int| 0 <= j < i ==> #[trigger] self.users@[j].id != id,
            decreases self.users.len() - i,
        {
            if self.users[i].id == id {
                return Some(&self.users[i]);
            }
            i = i + 1;
        }
        None
    }

    /// Returns the stored records, in insertion order.
    pub fn list(&self) -> (r: &Vec<User>)
        ensures
            r@ == self@,
    {
        &self.users
    }

    /// The number of stored records.
    pub fn len(&self) -> (n: usize)
        ensures
            n == self@.len(),
    {
        self.users.len()
    }

    /// Deletes the record stored under `id` if present, and reports
    /// whether a deletion happened. The identifier counter is untouched,
    /// so a removed identifier is never assigned again.
    pub fn remove(&mut self, id: u32) -> (r: bool)
        requires
            old(self).wf(),
        ensures
            final(self).wf(),
            final(self).next_id() == old(self).next_id(),
            r <==> contains_id(old(self)@, id),
            !r ==> final(self)@ == old(self)@,
            r ==> exists|i: int|
                0 <= i < old(self)@.len() && #[trigger] old(self)@[i].id == id && final(self)@
                    == old(self)@.remove(i),
            r ==> final(self)@.len() == old(self)@.len() - 1,
            !contains_id(final(self)@, id),
    {
        let mut i: usize = 0;
        while i < self.users.len()
            invariant
                i <= self.users.len(),
                *self == *old(self),
                old(self).wf(),
                forall|j: int| 0 <= j < i ==> #[trigger] old(self)@[j].id != id,
            decreases self.users.len() - i,
        {
            if self.users[i].id == id {
                let ghost k = i as int;
                self.users.remove(i);
                proof {
                    old(self)@.remove_ensures(k);
                    assert forall|j: int|
                        0 <= j < self@.len() implies (1 <= #[trigger] self@[j].id <= old(
                        self,
                    ).next_id() - 1 && self@[j].id != id) by {
                        if j < k {
                            assert(self@[j] == old(self)@[j]);
                        } else {
                            assert(self@[j] == old(self)@[j + 1]);
                        }
                    }
                    assert forall|p: int, q: int|
                        0 <= p < q < self@.len() implies self@[p].id != self@[q].id by {
                        let p0: int = if p < k {
                            p
                        } else {
                            p + 1
                        };
                        let q0: int = if q < k {
                            q
                        } else {
                            q + 1
                        };
                        assert(self@[p] == old(self)@[p0]);
                        assert(self@[q] == old(self)@[q0]);
                    }
                }
                return true;
            }
            i = i + 1;
        }
        false
    }
}

/// The failure a registry operation can report: the identifier counter
/// has reached its last value, so no fresh identifier can be assigned.
#[derive(Debug)]
pub enum RegistryError {
    CapacityExceeded,
}

/// Law: appending a record whose identifier is fresh makes that
/// identifier present, and every record found under it afterwards is the
/// appended record itself. Together with `insert`'s postcondition (the
/// store becomes `push` of a fresh record) and `get`'s postcondition
/// (a returned record occurs in the store under the requested
/// identifier), a lookup immediately after an insertion yields exactly
/// the record that was inserted.
pub proof fn lemma_fresh_insert_lookup(s: Seq<User>, u: User)
    requires
        !contains_id(s, u.id),
    ensures
        contains_id(s.push(u), u.id),
        forall|j: int|
            0 <= j < s.push(u).len() && (#[trigger] s.push(u)[j]).id == u.id ==> s.push(u)[j] == u,
{
    assert(s.push(u)[s.len() as int] == u);
    assert forall|j: int|
        0 <= j < s.push(u).len() && (#[trigger] s.push(u)[j]).id == u.id implies s.push(u)[j]
        == u by {
        if j < s.len() {
            assert(s.push(u)[j] == s[j]);
        }
    }
}

/// Law: a run of successful insertions hands out pairwise distinct
/// identifiers. `insert` returns the counter value and advances the
/// counter by one, so the identifiers returned by any serialized run of
/// insertions — for example, concurrent callers taking turns on a
/// registry behind a lock — are consecutive, and consecutive values
/// never repeat.
pub proof fn lemma_consecutive_ids_distinct(ids: Seq<u32>, start: u32)
    requires
        forall|k: int| 0 <= k < ids.len() ==> #[trigger] ids[k] == start + k,
    ensures
        forall|p: int, q: int| 0 <= p < q < ids.len() ==> ids[p] != ids[q],
{
}

} // verus!
