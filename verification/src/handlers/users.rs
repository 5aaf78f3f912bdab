//! The endpoint that makes accounts.

use crate::errors::RepositoryError;
use crate::handlers::spells::{answer, fail, failed, respond};
use crate::handlers::{Pending, PendingView, Step, StepView};
use crate::identifiers::{is_api_key, new_api_key};
use crate::models::users::{NewUser, NewUserView};
use crate::repositories;
use crate::repositories::{ActionView, Event, EventView};
use crate::requests::users::CreateUserRequest;
use crate::responses::Status;
use crate::text::{join3, to_decimal};
use crate::{calculate_hash, key_hash_of};
use vstd::prelude::*;
use vstd::string::*;

verus! {

/// The greeting that shows a new account its key, the only time the key is
/// shown.
pub open spec fn welcome(username: Seq<char>, key: Seq<char>) -> Seq<char> {
    "Welcome "@ + username + "! Your api key is: "@ + key + " Don't lose it!"@
}

/// Said where the name of a new account is taken.
pub open spec fn username_taken(username: Seq<char>) -> Seq<char> {
    "The username \""@ + username + "\" is already taken"@
}

/// The bytes that a key is sent as.
pub open spec fn key_bytes(key: Seq<char>) -> Seq<u8> {
    vstd::utf8::encode_utf8(key)
}

/// What a request for an account leads to, for a given key: the account
/// is stored under the name and the fingerprint of the key, and the key
/// is kept for the greeting. The key itself is not stored.
pub open spec fn user_submitted(username: Seq<char>, key: Seq<char>) -> StepView {
    StepView::Perform(
        ActionView::InsertUser {
            new_user: NewUserView { username, key_hash: key_hash_of(key_bytes(key)) },
        },
        PendingView::PostUser { username, key },
    )
}

/// Makes an account with the given key.
pub fn post_user_with_key(request: CreateUserRequest, key: String) -> (step: Step)
    ensures
        step@ == user_submitted(request@, key@),
{
    let key_hash = to_decimal(calculate_hash(key.as_str()));
    let new_user = NewUser { username: request.username.clone(), key_hash };
    Step::Perform(
        repositories::users::insert_user(new_user),
        Pending::PostUser { username: request.username, key },
    )
}

/// Makes an account with a fresh key.
pub fn post_user(request: CreateUserRequest) -> (step: Step)
    ensures
        exists|key: Seq<char>| is_api_key(key) && step@ == #[trigger] user_submitted(request@, key),
{
    let key = new_api_key();
    post_user_with_key(request, key)
}

/// After the account was to be stored: the greeting with the key, a
/// refusal where the name is taken, or a failure. The greeting uses the
/// name as the stored row has it.
pub open spec fn user_stored(username: Seq<char>, key: Seq<char>, event: EventView) -> StepView {
    match event {
        EventView::User(user) => respond(Status::Success, welcome(user.username, key)),
        EventView::Failed(RepositoryError::UniqueViolation) => respond(
            Status::UnprocessableEntity,
            username_taken(username),
        ),
        _ => failed("Failed to insert user"@),
    }
}

/// Decides as [`user_stored`] says.
pub fn on_user_stored(username: String, key: String, event: Event) -> (step: Step)
    ensures
        step@ == user_stored(username@, key@, event@),
{
    match event {
        Event::User(user) => {
            let mut text = join3("Welcome ", user.username.as_str(), "! Your api key is: ");
            text.append(key.as_str());
            text.append(" Don't lose it!");
            answer(Status::Success, text)
        },
        Event::Failed(RepositoryError::UniqueViolation) => answer(
            Status::UnprocessableEntity,
            join3("The username \"", username.as_str(), "\" is already taken"),
        ),
        _ => fail("Failed to insert user"),
    }
}

} // verus!
