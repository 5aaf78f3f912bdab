//! Accounts.

use vstd::prelude::*;

verus! {

/// An account. `key_hash` is the decimal fingerprint of the account's key;
/// the key itself is never kept.
#[derive(Debug, PartialEq, Eq)]
pub struct User {
    pub id: i32,
    pub username: String,
    pub key_hash: String,
}

/// An account that is not stored yet: the store assigns the `id`.
#[derive(Debug, PartialEq, Eq)]
pub struct NewUser {
    pub username: String,
    pub key_hash: String,
}

pub struct UserView {
    pub id: i32,
    pub username: Seq<char>,
    pub key_hash: Seq<char>,
}

pub struct NewUserView {
    pub username: Seq<char>,
    pub key_hash: Seq<char>,
}

impl View for User {
    type V = UserView;

    open spec fn view(&self) -> UserView {
        UserView { id: self.id, username: self.username@, key_hash: self.key_hash@ }
    }
}

impl View for NewUser {
    type V = NewUserView;

    open spec fn view(&self) -> NewUserView {
        NewUserView { username: self.username@, key_hash: self.key_hash@ }
    }
}

impl Clone for User {
    fn clone(&self) -> (copy: Self)
        ensures
            copy@ == self@,
    {
        User { id: self.id, username: self.username.clone(), key_hash: self.key_hash.clone() }
    }
}

impl Clone for NewUser {
    fn clone(&self) -> (copy: Self)
        ensures
            copy@ == self@,
    {
        NewUser { username: self.username.clone(), key_hash: self.key_hash.clone() }
    }
}

} // verus!
