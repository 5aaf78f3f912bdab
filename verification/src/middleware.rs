//! The guard in front of every endpoint on spells: it turns the key that a
//! request carries into the id of the account that the key belongs to.

use crate::repositories;
use crate::repositories::{Action, ActionView, Event, EventView};
use crate::responses::{Response, ResponseView, Status};
use crate::text::to_decimal;
use crate::{hash_bytes, key_hash_of};
use vstd::prelude::*;

verus! {

/// What the guard decides.
#[derive(Debug, PartialEq, Eq)]
pub enum Admission {
    /// The request is answered here and goes no further.
    Reject(Response),
    /// The store is to look the account up; its answer goes to
    /// [`on_user_looked_up`].
    Lookup(Action),
    /// The request goes on to its endpoint, with the id of the caller's
    /// account attached.
    Forward { user_id: i32 },
}

pub enum AdmissionView {
    Reject(ResponseView),
    Lookup(ActionView),
    Forward { user_id: i32 },
}

impl View for Admission {
    type V = AdmissionView;

    open spec fn view(&self) -> AdmissionView {
        match self {
            Admission::Reject(response) => AdmissionView::Reject(response@),
            Admission::Lookup(action) => AdmissionView::Lookup(action@),
            Admission::Forward { user_id } => AdmissionView::Forward { user_id: *user_id },
        }
    }
}

/// The value of a header, if the request has the header.
pub open spec fn header_view(header: Option<&[u8]>) -> Option<Seq<u8>> {
    match header {
        Some(bytes) => Some(bytes@),
        None => None,
    }
}

/// Whether every byte stands for an ASCII character.
pub open spec fn is_ascii_bytes(bytes: Seq<u8>) -> bool {
    forall|i: int| 0 <= i < bytes.len() ==> #[trigger] bytes[i] < 128
}

/// The refusal that every failure of the guard is told with.
pub open spec fn unauthorized(text: Seq<char>) -> AdmissionView {
    AdmissionView::Reject(ResponseView::text(Status::Unauthorized, text))
}

/// What the `authorization` header of a request leads to: a refusal where
/// it is missing or holds a byte outside ASCII, else the lookup of the
/// account under the fingerprint of the key.
pub open spec fn header_checked(authorization: Option<Seq<u8>>) -> AdmissionView {
    match authorization {
        None => unauthorized("Missing AUTHORIZATION header"@),
        Some(key) => if !is_ascii_bytes(key) {
            unauthorized("Invalid AUTHORIZATION header value"@)
        } else {
            AdmissionView::Lookup(ActionView::GetUserByKeyHash { hash: key_hash_of(key) })
        },
    }
}

/// After the account was looked up: the request goes on with the id of the
/// account, or is refused where no account came back.
pub open spec fn user_looked_up(event: EventView) -> AdmissionView {
    match event {
        EventView::User(user) => AdmissionView::Forward { user_id: user.id },
        _ => unauthorized("A user with this api key does not exist"@),
    }
}

fn all_ascii(bytes: &[u8]) -> (ascii: bool)
    ensures
        ascii == is_ascii_bytes(bytes@),
{
    let mut i: usize = 0;
    while i < bytes.len()
        invariant
            i <= bytes.len(),
            forall|j: int| 0 <= j < i ==> #[trigger] bytes@[j] < 128,
        decreases bytes.len() - i,
    {
        if bytes[i] >= 128 {
            return false;
        }
        i += 1;
    }
    true
}

/// Checks the `authorization` header of a request. `None` stands for a
/// request without the header.
pub fn auth(authorization: Option<&[u8]>) -> (admission: Admission)
    ensures
        admission@ == header_checked(header_view(authorization)),
{
    match authorization {
        None => Admission::Reject(
            Response::fixed(Status::Unauthorized, "Missing AUTHORIZATION header"),
        ),
        Some(key) => {
            if !all_ascii(key) {
                Admission::Reject(
                    Response::fixed(Status::Unauthorized, "Invalid AUTHORIZATION header value"),
                )
            } else {
                let hash = to_decimal(hash_bytes(key));
                Admission::Lookup(repositories::users::get_user_by_key_hash(hash))
            }
        },
    }
}

/// Decides on the request once the store has answered the lookup.
pub fn on_user_looked_up(event: Event) -> (admission: Admission)
    ensures
        admission@ == user_looked_up(event@),
{
    match event {
        Event::User(user) => Admission::Forward { user_id: user.id },
        _ => Admission::Reject(
            Response::fixed(Status::Unauthorized, "A user with this api key does not exist"),
        ),
    }
}

} // verus!
