//! An in-memory model of the account store and of the five dependent stores
//! whose rows reference an account by username.
use crate::models::{User, UserWithoutPassword};
use vstd::prelude::*;

verus! {

/// Why a store operation did not take effect.
#[derive(Clone, Copy, Debug, PartialEq, Eq, Structural)]
pub enum StoreError {
    /// The store refuses writes (its connection is gone).
    Unavailable,
    /// An account with that username already exists.
    DuplicateUsername,
    /// No account has that username.
    NotFound,
    /// Every account id has been handed out.
    IdsExhausted,
}

/// `rows` without the rows that reference `name`, in their order.
pub open spec fn without_key(rows: Seq<String>, name: Seq<char>) -> Seq<String>
    decreases rows.len(),
{
    if rows.len() == 0 {
        rows
    } else {
        let rest = without_key(rows.drop_last(), name);
        if rows.last()@ == name {
            rest
        } else {
            rest.push(rows.last())
        }
    }
}

/// Some row of `rows` references `name`.
pub open spec fn references(rows: Seq<String>, name: Seq<char>) -> bool {
    exists|k: int| 0 <= k < rows.len() && (#[trigger] rows[k])@ == name
}

/// Some account in `users` has the username `name`.
pub open spec fn has_user(users: Seq<User>, name: Seq<char>) -> bool {
    exists|k: int| 0 <= k < users.len() && (#[trigger] users[k]).username@ == name
}

/// `users` without the accounts named `name`, in their order.
pub open spec fn without_user(users: Seq<User>, name: Seq<char>) -> Seq<User>
    decreases users.len(),
{
    if users.len() == 0 {
        users
    } else {
        let rest = without_user(users.drop_last(), name);
        if users.last().username@ == name {
            rest
        } else {
            rest.push(users.last())
        }
    }
}

/// After removal no row references the name.
pub proof fn lemma_without_key_clears(rows: Seq<String>, name: Seq<char>)
    ensures
        !references(without_key(rows, name), name),
    decreases rows.len(),
{
    if rows.len() > 0 {
        lemma_without_key_clears(rows.drop_last(), name);
        let rest = without_key(rows.drop_last(), name);
        if rows.last()@ != name {
            assert forall|k: int| 0 <= k < rest.len() + 1 implies (#[trigger] rest.push(
                rows.last(),
            )[k])@ != name by {
                if k < rest.len() {
                    assert(!(0 <= k < rest.len() && rest[k]@ == name));
                }
            }
        }
    }
}

/// After removal no account has the name.
pub proof fn lemma_without_user_clears(users: Seq<User>, name: Seq<char>)
    ensures
        !has_user(without_user(users, name), name),
    decreases users.len(),
{
    if users.len() > 0 {
        lemma_without_user_clears(users.drop_last(), name);
        let rest = without_user(users.drop_last(), name);
        if users.last().username@ != name {
            assert forall|k: int| 0 <= k < rest.len() + 1 implies (#[trigger] rest.push(
                users.last(),
            )[k]).username@ != name by {
                if k < rest.len() {
                    assert(!(0 <= k < rest.len() && rest[k].username@ == name));
                }
            }
        }
    }
}

/// The rows of one dependent store, each given by the username it references.
#[derive(Clone, Debug, PartialEq, Eq)]
pub struct RowStore {
    pub rows: Vec<String>,
    pub available: bool,
}

impl RowStore {
    /// An empty store that accepts writes.
    pub fn new() -> (r: RowStore)
        ensures
            r.rows@.len() == 0,
            r.available,
    {
        RowStore { rows: Vec::new(), available: true }
    }

    /// Adds a row referencing `name`.
    pub fn add_row(&mut self, name: String)
        ensures
            final(self).rows@ == old(self).rows@.push(name),
            final(self).available == old(self).available,
    {
        self.rows.push(name);
    }

    /// Whether some row references `name`.
    pub fn has_rows_for(&self, name: &str) -> (r: bool)
        ensures
            r == references(self.rows@, name@),
    {
        let mut i: usize = 0;
        while i < self.rows.len()
            invariant
                0 <= i <= self.rows@.len(),
                forall|k: int| 0 <= k < i ==> (#[trigger] self.rows@[k])@ != name@,
            decreases self.rows@.len() - i,
        {
            if crate::text::text_is(self.rows[i].as_str(), name) {
                return true;
            }
            i = i + 1;
        }
        false
    }

    /// Deletes every row that references `name`.
    pub fn delete_by_username(&mut self, name: &str) -> (r: Result<(), StoreError>)
        ensures
            old(self).available ==> r is Ok && final(self).rows@ == without_key(
                old(self).rows@,
                name@,
            ) && final(self).available,
            !old(self).available ==> r == Err::<(), StoreError>(StoreError::Unavailable) && *final(self) == *old(self),
    {
        if !self.available {
            return Err(StoreError::Unavailable);
        }
        let mut kept: Vec<String> = Vec::new();
        let mut i: usize = 0;
        while i < self.rows.len()
            invariant
                0 <= i <= self.rows@.len(),
                kept@ == without_key(self.rows@.subrange(0, i as int), name@),
            decreases self.rows@.len() - i,
        {
            proof {
                let p = self.rows@.subrange(0, i as int + 1);
                assert(p.drop_last() =~= self.rows@.subrange(0, i as int));
            }
            if !crate::text::text_is(self.rows[i].as_str(), name) {
                kept.push(self.rows[i].clone());
            }
            i = i + 1;
        }
        proof {
            assert(self.rows@.subrange(0, self.rows@.len() as int) =~= self.rows@);
        }
        self.rows = kept;
        Ok(())
    }
}

/// The accounts and the five dependent stores: playback history, devices,
/// favorites, sessions and subscriptions, plus the episode-linkage rows.
#[derive(Clone, Debug, PartialEq, Eq)]
pub struct AccountStore {
    pub users: Vec<User>,
    pub available: bool,
    pub next_id: u64,
    pub history: RowStore,
    pub devices: RowStore,
    pub episodes: RowStore,
    pub favorites: RowStore,
    pub sessions: RowStore,
    pub subscriptions: RowStore,
}

/// No account, and no row of any dependent store, references `name`.
pub open spec fn forgotten(s: AccountStore, name: Seq<char>) -> bool {
    &&& !has_user(s.users@, name)
    &&& !references(s.history.rows@, name)
    &&& !references(s.devices.rows@, name)
    &&& !references(s.episodes.rows@, name)
    &&& !references(s.favorites.rows@, name)
    &&& !references(s.sessions.rows@, name)
    &&& !references(s.subscriptions.rows@, name)
}

/// Every store that a cascading delete writes to accepts writes.
pub open spec fn all_available(s: AccountStore) -> bool {
    &&& s.available
    &&& s.history.available
    &&& s.devices.available
    &&& s.episodes.available
    &&& s.favorites.available
    &&& s.sessions.available
    &&& s.subscriptions.available
}

/// `listing` shows `users` row for row, without the password digests.
pub open spec fn lists(listing: Seq<UserWithoutPassword>, users: Seq<User>) -> bool {
    &&& listing.len() == users.len()
    &&& forall|k: int|
        0 <= k < listing.len() ==> {
            &&& (#[trigger] listing[k]).username == users[k].username
            &&& listing[k].id == users[k].id
            &&& listing[k].role == users[k].role
            &&& listing[k].explicit_consent == users[k].explicit_consent
            &&& listing[k].created_at == users[k].created_at
            &&& listing[k].api_key == users[k].api_key
        }
}

/// `i` is the position of the first account named `name`.
pub open spec fn first_index_of(users: Seq<User>, name: Seq<char>, i: usize) -> bool {
    &&& i < users.len()
    &&& users[i as int].username@ == name
    &&& forall|k: int| 0 <= k < i ==> (#[trigger] users[k]).username@ != name
}

impl AccountStore {
    /// Empty stores that accept writes; ids start at 1.
    pub fn new() -> (r: AccountStore)
        ensures
            r.users@.len() == 0,
            r.next_id == 1,
            all_available(r),
            r.history.rows@.len() == 0,
            r.devices.rows@.len() == 0,
            r.episodes.rows@.len() == 0,
            r.favorites.rows@.len() == 0,
            r.sessions.rows@.len() == 0,
            r.subscriptions.rows@.len() == 0,
    {
        AccountStore {
            users: Vec::new(),
            available: true,
            next_id: 1,
            history: RowStore::new(),
            devices: RowStore::new(),
            episodes: RowStore::new(),
            favorites: RowStore::new(),
            sessions: RowStore::new(),
            subscriptions: RowStore::new(),
        }
    }

    /// The position of the first account named `name`.
    pub fn position_of(&self, name: &str) -> (r: Option<usize>)
        ensures
            r is None <==> !has_user(self.users@, name@),
            r matches Some(i) ==> first_index_of(self.users@, name@, i),
    {
        let mut i: usize = 0;
        while i < self.users.len()
            invariant
                0 <= i <= self.users@.len(),
                forall|k: int| 0 <= k < i ==> (#[trigger] self.users@[k]).username@ != name@,
            decreases self.users@.len() - i,
        {
            if crate::text::text_is(self.users[i].username.as_str(), name) {
                return Some(i);
            }
            i = i + 1;
        }
        None
    }

    /// A copy of the account named `name`.
    pub fn find_by_username(&self, name: &str) -> (r: Result<User, StoreError>)
        ensures
            r is Err <==> !has_user(self.users@, name@),
            r is Err ==> r == Err::<User, StoreError>(StoreError::NotFound),
            r matches Ok(u) ==> exists|i: usize|
                first_index_of(self.users@, name@, i) && u == self.users@[i as int],
    {
        match self.position_of(name) {
            Some(i) => Ok(self.users[i].copy()),
            None => Err(StoreError::NotFound),
        }
    }

    /// Every account, without password digests, in store order.
    pub fn find_all_users(&self) -> (r: Vec<UserWithoutPassword>)
        ensures
            lists(r@, self.users@),
    {
        let mut out: Vec<UserWithoutPassword> = Vec::new();
        let mut i: usize = 0;
        while i < self.users.len()
            invariant
                0 <= i <= self.users@.len(),
                out@.len() == i,
                forall|k: int|
                    0 <= k < i ==> (#[trigger] out@[k]).username == self.users@[k].username
                        && out@[k].id == self.users@[k].id && out@[k].role == self.users@[k].role
                        && out@[k].explicit_consent == self.users@[k].explicit_consent
                        && out@[k].created_at == self.users@[k].created_at && out@[k].api_key
                        == self.users@[k].api_key,
            decreases self.users@.len() - i,
        {
            out.push(self.users[i].without_password());
            i = i + 1;
        }
        out
    }

    /// Stores a new account under a fresh id. The username must be new.
    pub fn insert_user(&mut self, user: User) -> (r: Result<u64, StoreError>)
        ensures
            !old(self).available ==> r == Err::<u64, StoreError>(StoreError::Unavailable),
            old(self).available && has_user(old(self).users@, user.username@) ==> r == Err::<
                u64,
                StoreError,
            >(StoreError::DuplicateUsername),
            old(self).available && !has_user(old(self).users@, user.username@) && old(self).next_id == u64::MAX ==> r == Err::<u64, StoreError>(StoreError::IdsExhausted),
            r is Err ==> *final(self) == *old(self),
            r matches Ok(id) ==> {
                &&& old(self).available
                &&& !has_user(old(self).users@, user.username@)
                &&& id == old(self).next_id
                &&& final(self).next_id == id + 1
                &&& final(self).users@ == old(self).users@.push(User { id, ..user })
                &&& final(self).available
                &&& final(self).history == old(self).history
                &&& final(self).devices == old(self).devices
                &&& final(self).episodes == old(self).episodes
                &&& final(self).favorites == old(self).favorites
                &&& final(self).sessions == old(self).sessions
                &&& final(self).subscriptions == old(self).subscriptions
            },
            old(self).available && !has_user(old(self).users@, user.username@) && old(self).next_id < u64::MAX ==> r is Ok,
    {
        if !self.available {
            return Err(StoreError::Unavailable);
        }
        if self.position_of(user.username.as_str()).is_some() {
            return Err(StoreError::DuplicateUsername);
        }
        if self.next_id == u64::MAX {
            return Err(StoreError::IdsExhausted);
        }
        let id = self.next_id;
        let mut stored = user;
        stored.id = id;
        self.users.push(stored);
        self.next_id = id + 1;
        Ok(id)
    }

    /// Replaces the stored account that has the same username.
    pub fn update_user(&mut self, user: User) -> (r: Result<(), StoreError>)
        ensures
            !old(self).available ==> r == Err::<(), StoreError>(StoreError::Unavailable),
            old(self).available && !has_user(old(self).users@, user.username@) ==> r == Err::<
                (),
                StoreError,
            >(StoreError::NotFound),
            r is Err ==> *final(self) == *old(self),
            old(self).available && has_user(old(self).users@, user.username@) ==> r is Ok,
            r is Ok ==> exists|i: usize|
                first_index_of(old(self).users@, user.username@, i) && final(self).users@ == old(self).users@.update(i as int, user),
            r is Ok ==> final(self).available && final(self).next_id == old(self).next_id
                && final(self).history == old(self).history && final(self).devices == old(self).devices && final(self).episodes == old(self).episodes && final(self).favorites
                == old(self).favorites && final(self).sessions == old(self).sessions && final(self).subscriptions == old(self).subscriptions,
    {
        if !self.available {
            return Err(StoreError::Unavailable);
        }
        match self.position_of(user.username.as_str()) {
            Some(i) => {
                self.users.set(i, user);
                Ok(())
            },
            None => Err(StoreError::NotFound),
        }
    }

    /// Deletes every account named `name`.
    pub fn delete_user(&mut self, name: &str) -> (r: Result<(), StoreError>)
        ensures
            old(self).available ==> r is Ok && final(self).users@ == without_user(
                old(self).users@,
                name@,
            ) && final(self).available && final(self).next_id == old(self).next_id
                && final(self).history == old(self).history && final(self).devices == old(self).devices && final(self).episodes == old(self).episodes && final(self).favorites
                == old(self).favorites && final(self).sessions == old(self).sessions && final(self).subscriptions == old(self).subscriptions,
            !old(self).available ==> r == Err::<(), StoreError>(StoreError::Unavailable) && *final(self) == *old(self),
    {
        if !self.available {
            return Err(StoreError::Unavailable);
        }
        let mut kept: Vec<User> = Vec::new();
        let mut i: usize = 0;
        while i < self.users.len()
            invariant
                0 <= i <= self.users@.len(),
                kept@ == without_user(self.users@.subrange(0, i as int), name@),
            decreases self.users@.len() - i,
        {
            proof {
                let p = self.users@.subrange(0, i as int + 1);
                assert(p.drop_last() =~= self.users@.subrange(0, i as int));
            }
            if !crate::text::text_is(self.users[i].username.as_str(), name) {
                kept.push(self.users[i].copy());
            }
            i = i + 1;
        }
        proof {
            assert(self.users@.subrange(0, self.users@.len() as int) =~= self.users@);
        }
        self.users = kept;
        Ok(())
    }

    /// Removes the account named `name` and, before it, every row of the
    /// dependent stores that references it, in this order: playback history,
    /// devices, episode links, favorites, sessions, subscriptions, account.
    /// All stores are checked for writes first, so either every step takes
    /// effect or none does.
    pub fn cascade_delete(&mut self, name: &str) -> (r: Result<(), StoreError>)
        ensures
            all_available(*old(self)) ==> {
                &&& r is Ok
                &&& forgotten(*final(self), name@)
                &&& all_available(*final(self))
                &&& final(self).next_id == old(self).next_id
                &&& final(self).users@ == without_user(old(self).users@, name@)
                &&& final(self).history.rows@ == without_key(old(self).history.rows@, name@)
                &&& final(self).devices.rows@ == without_key(old(self).devices.rows@, name@)
                &&& final(self).episodes.rows@ == without_key(old(self).episodes.rows@, name@)
                &&& final(self).favorites.rows@ == without_key(old(self).favorites.rows@, name@)
                &&& final(self).sessions.rows@ == without_key(old(self).sessions.rows@, name@)
                &&& final(self).subscriptions.rows@ == without_key(
                    old(self).subscriptions.rows@,
                    name@,
                )
            },
            !all_available(*old(self)) ==> r == Err::<(), StoreError>(StoreError::Unavailable)
                && *final(self) == *old(self),
    {
        if !(self.available && self.history.available && self.devices.available
            && self.episodes.available && self.favorites.available && self.sessions.available
            && self.subscriptions.available) {
            return Err(StoreError::Unavailable);
        }
        let _ = self.history.delete_by_username(name);
        let _ = self.devices.delete_by_username(name);
        let _ = self.episodes.delete_by_username(name);
        let _ = self.favorites.delete_by_username(name);
        let _ = self.sessions.delete_by_username(name);
        let _ = self.subscriptions.delete_by_username(name);
        let _ = self.delete_user(name);
        proof {
            lemma_without_key_clears(old(self).history.rows@, name@);
            lemma_without_key_clears(old(self).devices.rows@, name@);
            lemma_without_key_clears(old(self).episodes.rows@, name@);
            lemma_without_key_clears(old(self).favorites.rows@, name@);
            lemma_without_key_clears(old(self).sessions.rows@, name@);
            lemma_without_key_clears(old(self).subscriptions.rows@, name@);
            lemma_without_user_clears(old(self).users@, name@);
        }
        Ok(())
    }
}

} // verus!
