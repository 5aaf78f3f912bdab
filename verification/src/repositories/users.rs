//! The calls on the table of accounts.

use crate::models::users::NewUser;
use crate::repositories::{Action, ActionView};
use vstd::prelude::*;

verus! {

/// Asks for all accounts.
pub fn get_users() -> (action: Action)
    ensures
        action@ == ActionView::GetUsers,
{
    Action::GetUsers
}

/// Asks for the account whose stored key fingerprint is `hash`.
pub fn get_user_by_key_hash(hash: String) -> (action: Action)
    ensures
        action@ == (ActionView::GetUserByKeyHash { hash: hash@ }),
{
    Action::GetUserByKeyHash { hash }
}

/// Asks to store a new account. The store refuses a name that is taken.
pub fn insert_user(new_user: NewUser) -> (action: Action)
    ensures
        action@ == (ActionView::InsertUser { new_user: new_user@ }),
{
    Action::InsertUser { new_user }
}

} // verus!
