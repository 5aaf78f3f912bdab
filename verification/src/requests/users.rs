//! Requests on accounts.

use vstd::prelude::*;

verus! {

/// Asks for a new account under the given name.
#[derive(Debug, PartialEq, Eq)]
pub struct CreateUserRequest {
    pub username: String,
}

impl View for CreateUserRequest {
    type V = Seq<char>;

    open spec fn view(&self) -> Seq<char> {
        self.username@
    }
}

} // verus!
