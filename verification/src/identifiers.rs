//! Fresh handles for spells and fresh keys for accounts. Both come from a
//! random source, so the contracts say what holds of every one of them.

use vstd::prelude::*;

verus! {

/// The number of characters in the handle of a spell.
pub const NANOID_LENGTH: usize = 21;

/// A character that needs no escaping in a URL path: a letter, a digit,
/// `_` or `-`.
pub open spec fn is_url_safe(c: char) -> bool {
    ('0' <= c <= '9') || ('a' <= c <= 'z') || ('A' <= c <= 'Z') || c == '_' || c == '-'
}

/// A handle of a spell: 21 URL-safe characters.
pub open spec fn is_nanoid(id: Seq<char>) -> bool {
    &&& id.len() == NANOID_LENGTH
    &&& forall|i: int| 0 <= i < id.len() ==> is_url_safe(#[trigger] id[i])
}

/// A digit of a lower-case hexadecimal number.
pub open spec fn is_lower_hex(c: char) -> bool {
    ('0' <= c <= '9') || ('a' <= c <= 'f')
}

/// The positions of the four hyphens in a written UUID.
pub open spec fn is_hyphen_position(i: int) -> bool {
    i == 8 || i == 13 || i == 18 || i == 23
}

/// An account key: a version-4 UUID written as 32 lower-case hexadecimal
/// digits in groups of 8, 4, 4, 4 and 12, with a hyphen between groups.
pub open spec fn is_api_key(key: Seq<char>) -> bool {
    &&& key.len() == 36
    &&& forall|i: int|
        0 <= i < 36 ==> if is_hyphen_position(i) {
            #[trigger] key[i] == '-'
        } else {
            is_lower_hex(key[i])
        }
    &&& key[14] == '4'
}

/// Calls `nanoid::format` with that crate's default random source
/// (`nanoid::rngs::default`) and its URL-safe alphabet
/// (`nanoid::alphabet::SAFE`: the letters, the digits, `_` and `-`). That
/// function draws random bytes, appends the symbol of the alphabet that a
/// byte selects, and returns as soon as the text has `size` symbols; so the
/// result has exactly `size` characters, all of them from the alphabet.
/// Which ones is left open. For a `size` of zero the function would never
/// return, and it multiplies `size` by eight; hence the bounds.
#[verifier::external_body]
fn random_url_safe_text(size: usize) -> (text: String)
    requires
        0 < size <= 0x0fff_ffff,
    ensures
        text@.len() == size,
        forall|i: int| 0 <= i < text@.len() ==> is_url_safe(#[trigger] text@[i]),
{
    nanoid::format(nanoid::rngs::default, &nanoid::alphabet::SAFE, size)
}

/// Calls `uuid::Uuid::new_v4` and writes the result with `to_string`. The
/// UUID is random but for the bits that give its version, which is 4.
/// `to_string` writes it in the hyphenated form: 32 lower-case hexadecimal
/// digits in groups of 8, 4, 4, 4 and 12 with a hyphen between groups, so
/// that the digit of the version is the one at index 14.
#[verifier::external_body]
fn random_uuid_text() -> (text: String)
    ensures
        is_api_key(text@),
{
    uuid::Uuid::new_v4().to_string()
}

/// A fresh handle for a spell.
pub fn new_nanoid() -> (id: String)
    ensures
        is_nanoid(id@),
{
    random_url_safe_text(NANOID_LENGTH)
}

/// A fresh key for an account.
pub fn new_api_key() -> (key: String)
    ensures
        is_api_key(key@),
{
    random_uuid_text()
}

} // verus!
