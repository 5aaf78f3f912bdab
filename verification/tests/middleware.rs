use spellbook_api::errors::{AuthError, RepositoryError};
use spellbook_api::middleware::{auth, on_user_looked_up, Admission};
use spellbook_api::models::users::User;
use spellbook_api::repositories::{Action, Event};
use spellbook_api::responses::{Body, Response, Status};
use spellbook_api::{authenticate, calculate_hash};

fn refusal(text: &str) -> Admission {
    Admission::Reject(Response { status: Status::Unauthorized, body: Body::Text(text.to_string()) })
}

fn user(id: i32, name: &str, key: &str) -> User {
    User { id, username: name.to_string(), key_hash: calculate_hash(key).to_string() }
}

#[test]
fn a_request_without_the_header_is_refused() {
    assert_eq!(auth(None), refusal("Missing AUTHORIZATION header"));
}

#[test]
fn a_header_outside_ascii_is_refused() {
    assert_eq!(auth(Some(&[0x6b, 0xe9, 0x79])), refusal("Invalid AUTHORIZATION header value"));
    assert_eq!(auth(Some("clé".as_bytes())), refusal("Invalid AUTHORIZATION header value"));
    assert_eq!(auth(Some(&[0x80])), refusal("Invalid AUTHORIZATION header value"));
}

#[test]
fn a_key_in_ascii_leads_to_the_lookup_of_its_fingerprint() {
    let key = "67e55044-10b1-426f-9247-bb680e5fe0c8";
    assert_eq!(
        auth(Some(key.as_bytes())),
        Admission::Lookup(Action::GetUserByKeyHash { hash: calculate_hash(key).to_string() })
    );
    assert_eq!(
        auth(Some(b"")),
        Admission::Lookup(Action::GetUserByKeyHash { hash: calculate_hash("").to_string() })
    );
    assert_eq!(
        auth(Some(&[0x7f])),
        Admission::Lookup(Action::GetUserByKeyHash { hash: calculate_hash("\u{7f}").to_string() })
    );
}

#[test]
fn a_found_account_lets_the_request_pass_with_its_id() {
    let event = Event::User(user(42, "alice", "k"));
    assert_eq!(on_user_looked_up(event), Admission::Forward { user_id: 42 });
}

#[test]
fn no_account_means_refusal() {
    let expected = refusal("A user with this api key does not exist");
    assert_eq!(on_user_looked_up(Event::Failed(RepositoryError::NotFound)), expected);
    assert_eq!(on_user_looked_up(Event::Failed(RepositoryError::Other)), expected);
    assert_eq!(on_user_looked_up(Event::Deleted(1)), expected);
}

#[test]
fn authenticate_finds_the_holder_of_the_key() {
    let users = vec![user(1, "alice", "key-a"), user(2, "bob", "key-b")];
    assert_eq!(authenticate(Ok(users.clone()), Some("key-b")), Ok(2));
    assert_eq!(authenticate(Ok(users.clone()), Some("key-a")), Ok(1));
    assert_eq!(authenticate(Ok(users), Some("key-c")), Err(AuthError::AuthError));
}

#[test]
fn authenticate_takes_the_first_holder() {
    let users = vec![user(7, "alice", "same"), user(8, "bob", "same")];
    assert_eq!(authenticate(Ok(users), Some("same")), Ok(7));
}

#[test]
fn authenticate_fails_without_key_or_accounts() {
    let users = vec![user(1, "alice", "key-a")];
    assert_eq!(authenticate(Ok(users), None), Err(AuthError::AuthError));
    assert_eq!(authenticate(Ok(vec![]), Some("key-a")), Err(AuthError::AuthError));
    assert_eq!(
        authenticate(Err(RepositoryError::Other), Some("key-a")),
        Err(AuthError::AuthError)
    );
}
