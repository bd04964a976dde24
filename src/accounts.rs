//! The account lifecycle: creating, updating, removing and listing accounts,
//! and handing out new API keys, on top of the account store.
use crate::input::{
    accept_required, accept_role, confirms, field_choice, is_confirmed, parse_field, role_choice,
    UpdateField,
};
use crate::models::{User, UserWithoutPassword};
use crate::outside::{digest_text, is_hyphenated_uuid, new_uuid_text, sha256_hex};
use crate::role::Role;
use crate::store::{
    all_available, first_index_of, forgotten, has_user, lists, without_key, without_user, AccountStore,
    StoreError,
};
use crate::text::{is_blank, remove_chars, strip_chars, trim_string, trimmed};
use vstd::prelude::*;

verus! {

/// How an add request ended when the store did not fail.
#[derive(Clone, Copy, Debug, PartialEq, Eq, Structural)]
pub enum AddOutcome {
    /// The account was stored under this id.
    Created(u64),
    /// The operator declined; nothing was written.
    Abandoned,
}

/// How an update request ended when the store did not fail.
#[derive(Clone, Copy, Debug, PartialEq, Eq, Structural)]
pub enum UpdateOutcome {
    RoleUpdated,
    PasswordUpdated,
    ConsentSwitched,
    /// The field name is not one of role, password, consent; nothing changed.
    FieldNotRecognized,
    /// The new role is not in the role set; nothing changed.
    RoleNotRecognized,
    /// The new password is blank; nothing changed.
    PasswordBlank,
}

/// How a remove request ended when the store did not fail.
#[derive(Clone, Copy, Debug, PartialEq, Eq, Structural)]
pub enum RemoveOutcome {
    Removed,
    /// The username is not among the listed accounts; nothing changed.
    NotFound,
}

/// An API key made from a random identifier by dropping its separators.
pub open spec fn is_compact_key(k: Seq<char>) -> bool {
    exists|u: Seq<char>| is_hyphenated_uuid(u) && k == strip_chars(u, '-', '-')
}

/// `stored` is `entered` as persisted under `id`, with its password replaced
/// by its 64-character digest.
pub open spec fn sealed_from(stored: User, entered: User, id: u64) -> bool {
    &&& stored.id == id
    &&& stored.username == entered.username
    &&& stored.role == entered.role
    &&& stored.explicit_consent == entered.explicit_consent
    &&& stored.created_at == entered.created_at
    &&& stored.api_key == entered.api_key
    &&& match entered.password {
        Some(p) => stored.password matches Some(h) && h@ == sha256_hex(p@) && h@.len() == 64,
        None => stored.password is None,
    }
}

/// `after` is `before` with every field kept but the password, which becomes
/// the digest of `secret`.
pub open spec fn password_set(before: User, after: User, secret: Seq<char>) -> bool {
    &&& after.password matches Some(h) && h@ == sha256_hex(secret)
    &&& after.id == before.id
    &&& after.username == before.username
    &&& after.role == before.role
    &&& after.explicit_consent == before.explicit_consent
    &&& after.created_at == before.created_at
    &&& after.api_key == before.api_key
}

/// `after` is `before` with only its role replaced.
pub open spec fn role_set(before: User, after: User, role: Role) -> bool {
    after == User { role, ..before }
}

/// `after` is `before` with only its consent flag flipped.
pub open spec fn consent_switched(before: User, after: User) -> bool {
    after == User { explicit_consent: !before.explicit_consent, ..before }
}

/// The listing holds an account named `name`.
pub open spec fn listed_has(listed: Seq<UserWithoutPassword>, name: Seq<char>) -> bool {
    exists|k: int| 0 <= k < listed.len() && (#[trigger] listed[k]).username@ == name
}

/// Only the accounts differ between two states of the store.
pub open spec fn same_but_users(a: AccountStore, b: AccountStore) -> bool {
    &&& a.available == b.available
    &&& a.next_id == b.next_id
    &&& a.history == b.history
    &&& a.devices == b.devices
    &&& a.episodes == b.episodes
    &&& a.favorites == b.favorites
    &&& a.sessions == b.sessions
    &&& a.subscriptions == b.subscriptions
}

proof fn lemma_strip_keeps_other(s: Seq<char>, a: char, b: char, k: int)
    requires
        0 <= k < s.len(),
        s[k] != a,
        s[k] != b,
    ensures
        strip_chars(s, a, b).len() > 0,
    decreases s.len(),
{
    if k < s.len() - 1 {
        assert(s.drop_last()[k] == s[k]);
        lemma_strip_keeps_other(s.drop_last(), a, b, k);
    }
}

/// A new API key: a random identifier without its separators.
pub fn compact_api_key() -> (r: String)
    ensures
        is_compact_key(r@),
        r@.len() > 0,
{
    let u = new_uuid_text();
    let k = remove_chars(u.as_str(), '-', '-');
    proof {
        assert(u@[0] != '-');
        lemma_strip_keeps_other(u@, '-', '-', 0);
    }
    k
}

/// Assembles a new account from the operator's answers: trimmed username and
/// password, the chosen role, no consent, a fresh API key, id 0.
pub fn build_account(username: &str, password: &str, role: Role, created_at: String) -> (r: User)
    ensures
        r.id == 0,
        r.username@ == trimmed(username@),
        r.role == role,
        r.password matches Some(p) && p@ == trimmed(password@),
        !r.explicit_consent,
        r.created_at == created_at,
        r.api_key matches Some(k) && is_compact_key(k@) && k@.len() > 0,
{
    User {
        id: 0,
        username: trim_string(username),
        role,
        password: Some(trim_string(password)),
        explicit_consent: false,
        created_at,
        api_key: Some(compact_api_key()),
    }
}

/// Replaces the account's password by its one-way digest.
pub fn seal_account(user: User) -> (r: User)
    ensures
        sealed_from(r, user, user.id),
{
    let mut u = user;
    match &u.password {
        Some(p) => {
            let h = digest_text(p.as_str());
            u.password = Some(h);
        },
        None => {},
    }
    u
}

/// Stores a new account once the operator confirms: the answer must start,
/// after whitespace, with `y` or `Y`. On any other answer nothing is written.
pub fn add_account(store: &mut AccountStore, user: User, confirmation: &str) -> (r: Result<
    AddOutcome,
    StoreError,
>)
    ensures
        !confirms(confirmation@) ==> r == Ok::<AddOutcome, StoreError>(AddOutcome::Abandoned),
        confirms(confirmation@) && !old(store).available ==> r == Err::<AddOutcome, StoreError>(
            StoreError::Unavailable,
        ),
        confirms(confirmation@) && old(store).available && has_user(
            old(store).users@,
            user.username@,
        ) ==> r == Err::<AddOutcome, StoreError>(StoreError::DuplicateUsername),
        confirms(confirmation@) && old(store).available && !has_user(
            old(store).users@,
            user.username@,
        ) && old(store).next_id < u64::MAX ==> r == Ok::<AddOutcome, StoreError>(
            AddOutcome::Created(old(store).next_id),
        ),
        r is Err || r == Ok::<AddOutcome, StoreError>(AddOutcome::Abandoned) ==> *final(store)
            == *old(store),
        r matches Ok(AddOutcome::Created(id)) ==> {
            &&& confirms(confirmation@)
            &&& !has_user(old(store).users@, user.username@)
            &&& id == old(store).next_id
            &&& final(store).next_id == id + 1
            &&& final(store).users@.len() == old(store).users@.len() + 1
            &&& final(store).users@.drop_last() == old(store).users@
            &&& sealed_from(final(store).users@.last(), user, id)
            &&& final(store).available
            &&& final(store).history == old(store).history
            &&& final(store).devices == old(store).devices
            &&& final(store).episodes == old(store).episodes
            &&& final(store).favorites == old(store).favorites
            &&& final(store).sessions == old(store).sessions
            &&& final(store).subscriptions == old(store).subscriptions
        },
{
    if !is_confirmed(confirmation) {
        return Ok(AddOutcome::Abandoned);
    }
    let sealed = seal_account(user);
    match store.insert_user(sealed) {
        Ok(id) => {
            proof {
                assert(final(store).users@.drop_last() =~= old(store).users@);
            }
            Ok(AddOutcome::Created(id))
        },
        Err(e) => Err(e),
    }
}

/// Replaces every account's API key by a fresh random identifier. The store is
/// checked for writes first, so either every key changes or none does.
pub fn regenerate_api_keys(store: &mut AccountStore) -> (r: Result<(), StoreError>)
    ensures
        !old(store).available ==> r == Err::<(), StoreError>(StoreError::Unavailable) && *final(store) == *old(store),
        old(store).available ==> {
            &&& r is Ok
            &&& same_but_users(*old(store), *final(store))
            &&& final(store).users@.len() == old(store).users@.len()
            &&& forall|k: int|
                0 <= k < old(store).users@.len() ==> {
                    let u = #[trigger] final(store).users@[k];
                    &&& u.api_key matches Some(key) && is_hyphenated_uuid(key@)
                    &&& u == User { api_key: u.api_key, ..old(store).users@[k] }
                }
        },
{
    if !store.available {
        return Err(StoreError::Unavailable);
    }
    let n = store.users.len();
    let mut i: usize = 0;
    while i < n
        invariant
            n == old(store).users@.len(),
            n == store.users@.len(),
            0 <= i <= n,
            same_but_users(*old(store), *store),
            forall|k: int|
                0 <= k < n ==> {
                    let u = #[trigger] store.users@[k];
                    &&& k < i ==> (u.api_key matches Some(key) && is_hyphenated_uuid(key@))
                    &&& k < i ==> u == User { api_key: u.api_key, ..old(store).users@[k] }
                    &&& k >= i ==> u == old(store).users@[k]
                },
        decreases n - i,
    {
        let mut u = store.users[i].copy();
        u.api_key = Some(new_uuid_text());
        store.users.set(i, u);
        i = i + 1;
    }
    Ok(())
}

/// Removes the account typed by the operator, if it is among the listed
/// accounts, together with every row of the dependent stores that references
/// it (see `AccountStore::cascade_delete`).
pub fn remove_account(
    store: &mut AccountStore,
    listed: &Vec<UserWithoutPassword>,
    username: &str,
) -> (r: Result<RemoveOutcome, StoreError>)
    ensures
        !listed_has(listed@, trimmed(username@)) ==> r == Ok::<RemoveOutcome, StoreError>(
            RemoveOutcome::NotFound,
        ),
        listed_has(listed@, trimmed(username@)) && !all_available(*old(store)) ==> r == Err::<
            RemoveOutcome,
            StoreError,
        >(StoreError::Unavailable),
        r != Ok::<RemoveOutcome, StoreError>(RemoveOutcome::Removed) ==> *final(store) == *old(store),
        listed_has(listed@, trimmed(username@)) && all_available(*old(store)) ==> r == Ok::<
            RemoveOutcome,
            StoreError,
        >(RemoveOutcome::Removed),
        r == Ok::<RemoveOutcome, StoreError>(RemoveOutcome::Removed) ==> {
            let name = trimmed(username@);
            &&& forgotten(*final(store), name)
            &&& all_available(*final(store))
            &&& final(store).next_id == old(store).next_id
            &&& final(store).users@ == without_user(old(store).users@, name)
            &&& final(store).history.rows@ == without_key(old(store).history.rows@, name)
            &&& final(store).devices.rows@ == without_key(old(store).devices.rows@, name)
            &&& final(store).episodes.rows@ == without_key(old(store).episodes.rows@, name)
            &&& final(store).favorites.rows@ == without_key(old(store).favorites.rows@, name)
            &&& final(store).sessions.rows@ == without_key(old(store).sessions.rows@, name)
            &&& final(store).subscriptions.rows@ == without_key(
                old(store).subscriptions.rows@,
                name,
            )
        },
{
    let name = trim_string(username);
    let mut i: usize = 0;
    let mut found = false;
    while i < listed.len() && !found
        invariant
            0 <= i <= listed@.len(),
            !found ==> forall|k: int| 0 <= k < i ==> (#[trigger] listed@[k]).username@ != name@,
            found ==> listed_has(listed@, name@),
        decreases listed@.len() - i,
    {
        if crate::text::text_is(listed[i].username.as_str(), name.as_str()) {
            found = true;
            assert(listed@[i as int].username@ == name@);
        }
        i = i + 1;
    }
    if !found {
        return Ok(RemoveOutcome::NotFound);
    }
    match store.cascade_delete(name.as_str()) {
        Ok(()) => Ok(RemoveOutcome::Removed),
        Err(e) => Err(e),
    }
}

/// Changes one field of the account typed by the operator. `field` names the
/// field (role, password or consent); `value` is the answer to the follow-up
/// prompt: the new role or the new password, and is not read for consent.
pub fn update_account(store: &mut AccountStore, username: &str, field: &str, value: &str) -> (r:
    Result<UpdateOutcome, StoreError>)
    ensures
        ({
            let name = trimmed(username@);
            let f = field_choice(field@);
            &&& !has_user(old(store).users@, name) ==> r == Err::<UpdateOutcome, StoreError>(
                StoreError::NotFound,
            )
            &&& has_user(old(store).users@, name) && f is None ==> r == Ok::<
                UpdateOutcome,
                StoreError,
            >(UpdateOutcome::FieldNotRecognized)
            &&& has_user(old(store).users@, name) && f == Some(UpdateField::Role) && role_choice(
                value@,
            ) is None ==> r == Ok::<UpdateOutcome, StoreError>(UpdateOutcome::RoleNotRecognized)
            &&& has_user(old(store).users@, name) && f == Some(UpdateField::Password) && is_blank(
                value@,
            ) ==> r == Ok::<UpdateOutcome, StoreError>(UpdateOutcome::PasswordBlank)
            &&& has_user(old(store).users@, name) && (f == Some(UpdateField::Consent) || (f
                == Some(UpdateField::Role) && role_choice(value@) is Some) || (f == Some(
                UpdateField::Password,
            ) && !is_blank(value@))) ==> if old(store).available {
                r is Ok && exists|i: usize|
                    {
                        &&& first_index_of(old(store).users@, name, i)
                        &&& final(store).users@.len() == old(store).users@.len()
                        &&& forall|k: int|
                            0 <= k < old(store).users@.len() && k != i ==> final(store).users@[k]
                                == old(store).users@[k]
                        &&& match f {
                            Some(UpdateField::Role) => r == Ok::<UpdateOutcome, StoreError>(
                                UpdateOutcome::RoleUpdated,
                            ) && role_set(
                                old(store).users@[i as int],
                                final(store).users@[i as int],
                                role_choice(value@)->0,
                            ),
                            Some(UpdateField::Password) => r == Ok::<UpdateOutcome, StoreError>(
                                UpdateOutcome::PasswordUpdated,
                            ) && password_set(
                                old(store).users@[i as int],
                                final(store).users@[i as int],
                                trimmed(value@),
                            ),
                            _ => r == Ok::<UpdateOutcome, StoreError>(
                                UpdateOutcome::ConsentSwitched,
                            ) && consent_switched(
                                old(store).users@[i as int],
                                final(store).users@[i as int],
                            ),
                        }
                    }
            } else {
                r == Err::<UpdateOutcome, StoreError>(StoreError::Unavailable)
            }
        }),
        r is Err || r == Ok::<UpdateOutcome, StoreError>(UpdateOutcome::FieldNotRecognized) || r
            == Ok::<UpdateOutcome, StoreError>(UpdateOutcome::RoleNotRecognized) || r == Ok::<
            UpdateOutcome,
            StoreError,
        >(UpdateOutcome::PasswordBlank) ==> *final(store) == *old(store),
        r is Ok ==> same_but_users(*old(store), *final(store)),
        r == Ok::<UpdateOutcome, StoreError>(UpdateOutcome::PasswordUpdated) ==> exists|i: usize|
            {
                &&& first_index_of(old(store).users@, trimmed(username@), i)
                &&& final(store).users@.len() == old(store).users@.len()
                &&& forall|k: int|
                    0 <= k < old(store).users@.len() && k != i ==> final(store).users@[k] == old(store).users@[k]
                &&& password_set(
                    old(store).users@[i as int],
                    final(store).users@[i as int],
                    trimmed(value@),
                )
            },
        r == Ok::<UpdateOutcome, StoreError>(UpdateOutcome::RoleUpdated) ==> role_choice(value@) is Some
            && exists|i: usize|
            {
                &&& first_index_of(old(store).users@, trimmed(username@), i)
                &&& final(store).users@.len() == old(store).users@.len()
                &&& forall|k: int|
                    0 <= k < old(store).users@.len() && k != i ==> final(store).users@[k] == old(store).users@[k]
                &&& role_set(
                    old(store).users@[i as int],
                    final(store).users@[i as int],
                    role_choice(value@)->0,
                )
            },
        r == Ok::<UpdateOutcome, StoreError>(UpdateOutcome::ConsentSwitched) ==> exists|i: usize|
            {
                &&& first_index_of(old(store).users@, trimmed(username@), i)
                &&& final(store).users@.len() == old(store).users@.len()
                &&& forall|k: int|
                    0 <= k < old(store).users@.len() && k != i ==> final(store).users@[k] == old(store).users@[k]
                &&& consent_switched(old(store).users@[i as int], final(store).users@[i as int])
            },
{
    let name = trim_string(username);
    let idx = match store.position_of(name.as_str()) {
        Some(i) => i,
        None => {
            return Err(StoreError::NotFound);
        },
    };
    let mut user = store.users[idx].copy();
    let outcome = match parse_field(field) {
        None => {
            return Ok(UpdateOutcome::FieldNotRecognized);
        },
        Some(UpdateField::Role) => match accept_role(value) {
            Some(role) => {
                user.role = role;
                UpdateOutcome::RoleUpdated
            },
            None => {
                return Ok(UpdateOutcome::RoleNotRecognized);
            },
        },
        Some(UpdateField::Password) => match accept_required(value) {
            Some(secret) => {
                user.password = Some(digest_text(secret.as_str()));
                UpdateOutcome::PasswordUpdated
            },
            None => {
                return Ok(UpdateOutcome::PasswordBlank);
            },
        },
        Some(UpdateField::Consent) => {
            user.explicit_consent = !user.explicit_consent;
            UpdateOutcome::ConsentSwitched
        },
    };
    match store.update_user(user) {
        Ok(()) => {
            proof {
                let i = idx;
                assert(first_index_of(old(store).users@, name@, i));
            }
            Ok(outcome)
        },
        Err(e) => Err(e),
    }
}

/// Adding an account built from the operator's answers and then listing the
/// store shows exactly one new row: the earlier rows stay as they were, none of
/// them has the entered username, and the last row has that username, the
/// chosen role, no consent and a non-empty API key. The stored password is
/// the digest, never the typed text, whenever that text (trimmed or not) is
/// not 64 characters long, the length of every digest.
pub proof fn lemma_added_account_is_listed(
    before: Seq<User>,
    after: Seq<User>,
    listing: Seq<UserWithoutPassword>,
    entered: User,
    typed_password: Seq<char>,
    role: Role,
    id: u64,
)
    requires
        entered.role == role,
        !entered.explicit_consent,
        entered.api_key matches Some(k) && k@.len() > 0,
        entered.password matches Some(p) && p@ == trimmed(typed_password),
        !has_user(before, entered.username@),
        after.len() == before.len() + 1,
        after.drop_last() == before,
        sealed_from(after.last(), entered, id),
        lists(listing, after),
        typed_password.len() != 64,
        trimmed(typed_password).len() != 64,
    ensures
        listing.len() == before.len() + 1,
        forall|k: int|
            0 <= k < before.len() ==> (#[trigger] listing[k]).username == before[k].username
                && listing[k].username@ != entered.username@,
        listing.last().username == entered.username,
        listing.last().role == role,
        !listing.last().explicit_consent,
        listing.last().api_key matches Some(k) && k@.len() > 0,
        after.last().password matches Some(h) && h@ != typed_password && h@ != trimmed(
            typed_password,
        ),
{
    assert forall|k: int| 0 <= k < before.len() implies (#[trigger] listing[k]).username
        == before[k].username && listing[k].username@ != entered.username@ by {
        assert(after[k] == after.drop_last()[k]);
        assert(!(0 <= k < before.len() && before[k].username@ == entered.username@));
    }
    assert(listing.last() == listing[listing.len() - 1]);
}

} // verus!
