//! Who gets past the guard: nobody without a key, and with a key the
//! account that the key was issued to.

use crate::catalog::Catalog;
use crate::handlers::users::{key_bytes, user_submitted};
use crate::handlers::StepView;
use crate::identifiers::{is_api_key, is_hyphen_position};
use crate::key_hash_of;
use crate::middleware::{
    header_checked, is_ascii_bytes, unauthorized, user_looked_up, AdmissionView,
};
use crate::repositories::ActionView;
use vstd::prelude::*;

verus! {

/// What the guard decides on a request, where the store behaves as the
/// model says.
pub open spec fn admitted(catalog: Catalog, authorization: Option<Seq<u8>>) -> AdmissionView {
    match header_checked(authorization) {
        AdmissionView::Lookup(action) => user_looked_up(catalog.perform(action).1),
        decided => decided,
    }
}

/// A request without the `authorization` header is refused with `401`,
/// whatever the store holds: it never reaches an endpoint.
pub proof fn lemma_no_header_no_entry(catalog: Catalog)
    ensures
        admitted(catalog, None) == unauthorized("Missing AUTHORIZATION header"@),
        !(admitted(catalog, None) is Forward),
{
}

/// A request reaches an endpoint only with a key in ASCII whose
/// fingerprint an account is stored under, and it is that account's id
/// that the endpoint gets.
pub proof fn lemma_entry_names_a_key_holder(catalog: Catalog, authorization: Option<Seq<u8>>)
    ensures
        admitted(catalog, authorization) matches AdmissionView::Forward { user_id } ==> {
            &&& authorization matches Some(key)
            &&& is_ascii_bytes(key)
            &&& exists|u: int|
                #[trigger] catalog.holds_key_at(key_hash_of(key), u) && catalog.users[u].id
                    == user_id
        },
{
    if let Some(key) = authorization {
        if is_ascii_bytes(key) {
            let hash = key_hash_of(key);
            if exists|u: int| catalog.holds_key_at(hash, u) {
                let u = choose|u: int| catalog.holds_key_at(hash, u);
                assert(catalog.holds_key_at(hash, u));
            }
        }
    }
}

/// The key that a new account is shown is accepted by the guard as it is
/// written, and leads to the lookup of the fingerprint that the account
/// was stored under.
pub proof fn lemma_issued_key_finds_its_account(username: Seq<char>, key: Seq<char>)
    requires
        is_api_key(key),
    ensures
        is_ascii_bytes(key_bytes(key)),
        user_submitted(username, key) matches StepView::Perform(
            ActionView::InsertUser { new_user },
            _,
        ) && header_checked(Some(key_bytes(key))) == AdmissionView::Lookup(
            ActionView::GetUserByKeyHash { hash: new_user.key_hash },
        ),
{
    assert(vstd::utf8::is_ascii_chars(key)) by {
        assert forall|i: int| 0 <= i < key.len() implies '\0' <= #[trigger] key[i]
            <= '\u{7f}' by {
            if is_hyphen_position(i) {
                assert(key[i] == '-');
            }
        }
    }
    vstd::utf8::is_ascii_chars_encode_utf8(key);
    vstd::utf8::is_ascii_chars_nat_bound(key);
    assert forall|i: int| 0 <= i < key_bytes(key).len() implies #[trigger] key_bytes(key)[i]
        < 128 by {
        assert(key[i] as u8 == key_bytes(key)[i]);
    }
}

} // verus!
