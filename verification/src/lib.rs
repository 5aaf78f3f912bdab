//! Domain rules of a multi-user spell catalog: validation of submitted
//! spells, key-based authentication, and the decisions every endpoint takes
//! between two repository calls.

use crate::errors::{AuthError, RepositoryError};
use crate::models::users::{User, UserView};
use crate::text::{decimal, to_decimal};
use std::collections::hash_map::DefaultHasher;
use std::hash::Hasher;
use vstd::prelude::*;
use vstd::slice::*;
use vstd::std_specs::hash::DefaultHasherAdditionalSpecFns;
use vstd::string::*;

pub mod catalog;
pub mod enums;
pub mod errors;
pub mod handlers;
pub mod identifiers;
pub mod laws;
pub mod middleware;
pub mod models;
pub mod repositories;
pub mod requests;
pub mod resources;
pub mod responses;
pub mod text;
pub mod validators;

verus! {

/// A request that can be checked against the rules of the catalog before it
/// reaches the store.
pub trait Validate<T> {
    fn validate(&self) -> Result<(), T>;
}

/// A stored value that is shown to callers in another shape.
pub trait IntoResource<T> {
    fn into_resource(self) -> T;
}

/// A list of stored values that is shown to callers item by item.
pub trait IntoCollection<T> {
    fn into_collection(self) -> Vec<T>;
}

/// The 64-bit fingerprint of a key, given by its bytes: the digest of the
/// standard library's default hasher after it was fed the bytes and then the
/// single byte `0xff`, which is how that library hashes a string.
pub open spec fn fingerprint(bytes: Seq<u8>) -> u64 {
    DefaultHasher::spec_finish(seq![bytes, seq![0xffu8]])
}

/// The text under which a key is stored and looked up: its fingerprint in
/// decimal.
pub open spec fn key_hash_of(bytes: Seq<u8>) -> Seq<char> {
    decimal(fingerprint(bytes) as nat)
}

/// The fingerprint of a key that is given by its bytes.
pub fn hash_bytes(bytes: &[u8]) -> (hash: u64)
    ensures
        hash == fingerprint(bytes@),
{
    let mut hasher = DefaultHasher::new();
    hasher.write(bytes);
    let end: [u8; 1] = [0xff];
    let tail = end.as_slice();
    assert(tail@ =~= seq![0xffu8]) by {
        assert(end@.len() == 1);
        assert(end@[0] == 0xffu8);
    }
    hasher.write(tail);
    assert(hasher@ =~= seq![bytes@, seq![0xffu8]]);
    hasher.finish()
}

/// The fingerprint of a key. It depends on the key's bytes alone, so the
/// same key gives the same fingerprint at every call.
pub fn calculate_hash(t: &str) -> (hash: u64)
    ensures
        hash == fingerprint(t.spec_bytes()),
{
    hash_bytes(t.as_bytes())
}

/// The id of the first account in the list that is stored under the given
/// fingerprint.
pub open spec fn holder_of(users: Seq<UserView>, hash: Seq<char>) -> Option<i32>
    decreases users.len(),
{
    if users.len() == 0 {
        None
    } else if users[0].key_hash == hash {
        Some(users[0].id)
    } else {
        holder_of(users.drop_first(), hash)
    }
}

/// Who is calling, told from the key that the request carries and the
/// accounts that the store holds: the holder of the key's fingerprint.
/// Without a key, without the accounts or without a holder nobody is.
pub open spec fn authenticated(
    users: Option<Seq<UserView>>,
    api_key: Option<Seq<u8>>,
) -> Result<i32, AuthError> {
    match (api_key, users) {
        (Some(key), Some(accounts)) => match holder_of(accounts, key_hash_of(key)) {
            Some(id) => Ok(id),
            None => Err(AuthError::AuthError),
        },
        _ => Err(AuthError::AuthError),
    }
}

/// The accounts that the store answered with, if it did.
pub open spec fn accounts_of(users: Result<Vec<User>, RepositoryError>) -> Option<Seq<UserView>> {
    match users {
        Ok(accounts) => Some(repositories::user_views(accounts@)),
        Err(_) => None,
    }
}

/// The bytes of the key that a request carries, if it carries one.
pub open spec fn key_of(api_key: Option<&str>) -> Option<Seq<u8>> {
    match api_key {
        Some(key) => Some(key.spec_bytes()),
        None => None,
    }
}

/// Tells who is calling. `users` is what the store answered when asked for
/// all accounts; `api_key` is the value of the request's `key` header,
/// `None` where it has none.
pub fn authenticate(
    users: Result<Vec<User>, RepositoryError>,
    api_key: Option<&str>,
) -> (who: Result<i32, AuthError>)
    ensures
        who == authenticated(accounts_of(users), key_of(api_key)),
{
    let key = match api_key {
        Some(key) => key,
        None => {
            return Err(AuthError::AuthError);
        },
    };
    let key_hash = to_decimal(calculate_hash(key));
    let accounts = match users {
        Ok(accounts) => accounts,
        Err(_) => {
            return Err(AuthError::AuthError);
        },
    };
    let ghost all = repositories::user_views(accounts@);
    let mut i: usize = 0;
    assert(all.skip(0) =~= all);
    while i < accounts.len()
        invariant
            i <= accounts.len(),
            all == repositories::user_views(accounts@),
            users == Ok::<Vec<User>, RepositoryError>(accounts),
            api_key == Some(key),
            key_hash@ == key_hash_of(key.spec_bytes()),
            holder_of(all, key_hash@) == holder_of(all.skip(i as int), key_hash@),
        decreases accounts.len() - i,
    {
        assert(all.skip(i as int)[0] == accounts@[i as int]@);
        assert(all.skip(i as int).drop_first() =~= all.skip(i + 1));
        if accounts[i].key_hash == key_hash {
            return Ok(accounts[i].id);
        }
        i += 1;
    }
    assert(all.skip(i as int).len() == 0);
    Err(AuthError::AuthError)
}

} // verus!
