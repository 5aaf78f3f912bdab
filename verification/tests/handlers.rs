//! The decisions of the endpoints, one answer of the store at a time.

use spellbook_api::errors::RepositoryError;
use spellbook_api::handlers::spells::{
    copy_public_spell, delete_spell, get_spell, get_spells, post_spell, publish_spell,
    query_public_spells, query_spells, unpublish_spell, update_spell,
};
use spellbook_api::handlers::users::{post_user, post_user_with_key};
use spellbook_api::handlers::{resume, resume_with, Pending, Step};
use spellbook_api::models::spells::{NewSpell, Spell, UpdatedSpell};
use spellbook_api::models::users::{NewUser, User};
use spellbook_api::repositories::spells::{Column, Predicate};
use spellbook_api::repositories::{Action, Event};
use spellbook_api::requests::spells::{
    CreateSpellRequest, DeleteSpellRequest, GetPublicSpellRequest, GetSpellRequest,
    QueryPublicSpellsRequest, QuerySpellsRequest, UpdateSpellRequest, UpdatedSpellData,
};
use spellbook_api::requests::users::CreateUserRequest;
use spellbook_api::resources::spells::{PublicSpellResource, SpellResource};
use spellbook_api::responses::{Body, Response, Status};
use spellbook_api::calculate_hash;

fn text(status: Status, text: &str) -> Step {
    Step::Respond(Response { status, body: Body::Text(text.to_string()) })
}

fn failure(message: &str) -> Step {
    text(Status::InternalServerError, message)
}

fn request() -> CreateSpellRequest {
    CreateSpellRequest {
        name: "Fireball".to_string(),
        level: "Level 3".to_string(),
        casting_time: "1 action".to_string(),
        magic_school: "Evocation".to_string(),
        concentration: false,
        range: "150 feet".to_string(),
        duration: "Instantaneous".to_string(),
        description: "boom".to_string(),
    }
}

fn row(id: i32, user_id: i32, nanoid: &str, published: bool) -> Spell {
    Spell {
        id,
        name: "Fireball".to_string(),
        level: "Level 3".to_string(),
        casting_time: "1 action".to_string(),
        magic_school: "Evocation".to_string(),
        concentration: false,
        range: "150 feet".to_string(),
        duration: "Instantaneous".to_string(),
        description: "boom".to_string(),
        user_id,
        published,
        nanoid: nanoid.to_string(),
    }
}

fn new_row(user_id: i32, nanoid: &str) -> NewSpell {
    NewSpell {
        name: "Fireball".to_string(),
        level: "Level 3".to_string(),
        casting_time: "1 action".to_string(),
        magic_school: "Evocation".to_string(),
        concentration: false,
        range: "150 feet".to_string(),
        duration: "Instantaneous".to_string(),
        description: "boom".to_string(),
        user_id,
        published: false,
        nanoid: nanoid.to_string(),
    }
}

fn resource(published: bool) -> SpellResource {
    SpellResource {
        name: "Fireball".to_string(),
        level: "Level 3".to_string(),
        casting_time: "1 action".to_string(),
        magic_school: "Evocation".to_string(),
        concentration: false,
        range: "150 feet".to_string(),
        duration: "Instantaneous".to_string(),
        description: "boom".to_string(),
        published,
    }
}

fn shown(published: bool) -> Step {
    Step::Respond(Response { status: Status::Success, body: Body::Spell(resource(published)) })
}

fn no_changes() -> UpdatedSpellData {
    UpdatedSpellData {
        name: None,
        level: None,
        casting_time: None,
        magic_school: None,
        concentration: None,
        range: None,
        duration: None,
        description: None,
    }
}

fn no_stored_changes() -> UpdatedSpell {
    UpdatedSpell {
        name: None,
        level: None,
        casting_time: None,
        magic_school: None,
        concentration: None,
        range: None,
        duration: None,
        description: None,
    }
}

fn others() -> Vec<Event> {
    vec![
        Event::Failed(RepositoryError::Other),
        Event::Failed(RepositoryError::UniqueViolation),
        Event::Users(vec![]),
    ]
}

#[test]
fn listing_asks_for_the_rows_of_the_caller() {
    assert_eq!(get_spells(3), Step::Perform(Action::GetSpells { user_id: 3 }, Pending::GetSpells));
}

#[test]
fn listed_rows_are_shown_in_their_order() {
    let mut second = row(2, 3, "b", true);
    second.name = "Shield".to_string();
    let mut second_shown = resource(true);
    second_shown.name = "Shield".to_string();
    assert_eq!(
        resume(Pending::GetSpells, Event::Spells(vec![row(1, 3, "a", false), second])),
        Step::Respond(Response {
            status: Status::Success,
            body: Body::Spells(vec![resource(false), second_shown]),
        })
    );
    assert_eq!(
        resume(Pending::GetSpells, Event::Spells(vec![])),
        Step::Respond(Response { status: Status::Success, body: Body::Spells(vec![]) })
    );
    for event in others() {
        assert_eq!(resume(Pending::GetSpells, event), failure("Failed to retrieve spells"));
    }
    assert_eq!(
        resume(Pending::GetSpells, Event::Failed(RepositoryError::NotFound)),
        failure("Failed to retrieve spells")
    );
}

#[test]
fn fetching_asks_for_the_row_of_the_caller() {
    assert_eq!(
        get_spell(3, GetSpellRequest { nanoid: "abc".to_string() }),
        Step::Perform(
            Action::GetSpellByNanoid { user_id: 3, nanoid: "abc".to_string() },
            Pending::GetSpell { nanoid: "abc".to_string() },
        )
    );
}

#[test]
fn a_fetched_row_is_shown_and_a_missing_one_is_404() {
    let pending = || Pending::GetSpell { nanoid: "abc".to_string() };
    assert_eq!(resume(pending(), Event::Spell(row(1, 3, "abc", true))), shown(true));
    assert_eq!(
        resume(pending(), Event::Failed(RepositoryError::NotFound)),
        text(Status::NotFound, "You don't have a spell with the id \"abc\" in your spellbook")
    );
    for event in others() {
        assert_eq!(resume(pending(), event), failure("Failed to retrieve spell"));
    }
}

#[test]
fn a_valid_spell_leads_to_the_lookup_of_its_name() {
    assert_eq!(
        post_spell(3, request()),
        Step::Perform(
            Action::GetSpellByName { user_id: 3, name: "Fireball".to_string() },
            Pending::PostSpellLookup { user_id: 3, request: request() },
        )
    );
}

#[test]
fn an_invalid_spell_is_refused_at_once() {
    let mut bad = request();
    bad.level = "Level 10".to_string();
    assert_eq!(
        post_spell(3, bad),
        text(
            Status::UnprocessableEntity,
            "invalid spell level \"Level 10\" expected \"Cantrip\" or \"Level [1-9]\"",
        )
    );
    let mut bad = request();
    bad.magic_school = "Fire".to_string();
    assert_eq!(
        post_spell(3, bad),
        text(
            Status::UnprocessableEntity,
            "invalid school of magic \"Fire\" expected one of: [Abjuration, Conjuration, \
             Divination, Enchantment, Evocation, Illusion, Necromancy, Transmutation]",
        )
    );
}

#[test]
fn a_taken_name_is_refused_with_the_name_as_stored() {
    let pending = Pending::PostSpellLookup { user_id: 3, request: request() };
    let mut found = row(9, 3, "xyz", false);
    found.name = "FIREBALL".to_string();
    assert_eq!(
        resume(pending, Event::Spell(found)),
        text(
            Status::UnprocessableEntity,
            "You already have a spell with the name \"FIREBALL\" in your spellbook.",
        )
    );
}

#[test]
fn a_free_name_leads_to_the_insert_of_an_unpublished_row() {
    let pending = || Pending::PostSpellLookup { user_id: 3, request: request() };
    let expected = Step::Perform(
        Action::InsertSpell { new_spell: new_row(3, "V1StGXR8_Z5jdHi6B-myT") },
        Pending::PostSpellInsert,
    );
    let id = || "V1StGXR8_Z5jdHi6B-myT".to_string();
    assert_eq!(resume_with(pending(), Event::Failed(RepositoryError::NotFound), id()), expected);
    for event in others() {
        assert_eq!(resume_with(pending(), event, id()), expected);
    }
}

#[test]
fn the_inserted_row_gets_a_fresh_handle() {
    let pending = || Pending::PostSpellLookup { user_id: 3, request: request() };
    let handle = |step: Step| match step {
        Step::Perform(Action::InsertSpell { new_spell }, Pending::PostSpellInsert) => {
            let mut expected = new_row(3, "");
            expected.nanoid = new_spell.nanoid.clone();
            assert_eq!(new_spell, expected);
            new_spell.nanoid
        }
        other => panic!("{:?}", other),
    };
    let first = handle(resume(pending(), Event::Failed(RepositoryError::NotFound)));
    let second = handle(resume(pending(), Event::Failed(RepositoryError::NotFound)));
    assert_eq!(first.chars().count(), 21);
    assert!(first.chars().all(|c| c.is_ascii_alphanumeric() || c == '_' || c == '-'));
    assert_ne!(first, second);
}

#[test]
fn a_stored_spell_is_shown() {
    assert_eq!(resume(Pending::PostSpellInsert, Event::Spell(row(1, 3, "abc", false))), shown(false));
    for event in others() {
        assert_eq!(resume(Pending::PostSpellInsert, event), failure("Failed to insert spell"));
    }
    assert_eq!(
        resume(Pending::PostSpellInsert, Event::Failed(RepositoryError::NotFound)),
        failure("Failed to insert spell")
    );
}

#[test]
fn changes_without_a_name_are_stored_at_once_and_no_changes_only_read() {
    let mut changes = no_changes();
    changes.level = Some("Cantrip".to_string());
    let mut stored = no_stored_changes();
    stored.level = Some("Cantrip".to_string());
    assert_eq!(
        update_spell(3, UpdateSpellRequest { nanoid: "abc".to_string(), updated_spell: changes }),
        Step::Perform(
            Action::UpdateSpell { user_id: 3, nanoid: "abc".to_string(), changes: stored },
            Pending::UpdateSpellWrite { nanoid: "abc".to_string() },
        )
    );
    assert_eq!(
        update_spell(
            3,
            UpdateSpellRequest { nanoid: "abc".to_string(), updated_spell: no_changes() }
        ),
        Step::Perform(
            Action::GetSpellByNanoid { user_id: 3, nanoid: "abc".to_string() },
            Pending::UpdateSpellWrite { nanoid: "abc".to_string() },
        )
    );
}

#[test]
fn a_new_name_is_looked_up_first() {
    let mut changes = no_changes();
    changes.name = Some("Firebolt".to_string());
    let mut stored = no_stored_changes();
    stored.name = Some("Firebolt".to_string());
    assert_eq!(
        update_spell(3, UpdateSpellRequest { nanoid: "abc".to_string(), updated_spell: changes }),
        Step::Perform(
            Action::GetSpellByName { user_id: 3, name: "Firebolt".to_string() },
            Pending::UpdateSpellLookup { user_id: 3, nanoid: "abc".to_string(), changes: stored },
        )
    );
}

#[test]
fn invalid_changes_are_refused_at_once() {
    let mut changes = no_changes();
    changes.name = Some("Firebolt".to_string());
    changes.level = Some("Level X".to_string());
    assert_eq!(
        update_spell(3, UpdateSpellRequest { nanoid: "abc".to_string(), updated_spell: changes }),
        text(
            Status::UnprocessableEntity,
            "invalid spell level \"Level X\" expected \"Cantrip\" or \"Level [1-9]\"",
        )
    );
}

#[test]
fn a_name_held_by_another_row_is_refused_and_the_own_row_is_no_obstacle() {
    let mut stored = no_stored_changes();
    stored.name = Some("fireball".to_string());
    let pending = || Pending::UpdateSpellLookup {
        user_id: 3,
        nanoid: "abc".to_string(),
        changes: stored.clone(),
    };
    let write = Step::Perform(
        Action::UpdateSpell { user_id: 3, nanoid: "abc".to_string(), changes: stored.clone() },
        Pending::UpdateSpellWrite { nanoid: "abc".to_string() },
    );
    assert_eq!(
        resume(pending(), Event::Spell(row(2, 3, "other", false))),
        text(
            Status::UnprocessableEntity,
            "You already have a spell with the name \"Fireball\" in your spellbook.",
        )
    );
    assert_eq!(resume(pending(), Event::Spell(row(1, 3, "abc", false))), write);
    assert_eq!(resume(pending(), Event::Failed(RepositoryError::NotFound)), write);
    for event in others() {
        assert_eq!(resume(pending(), event), write);
    }
}

#[test]
fn stored_changes_are_shown_and_a_missing_row_is_404() {
    let pending = || Pending::UpdateSpellWrite { nanoid: "abc".to_string() };
    assert_eq!(resume(pending(), Event::Spell(row(1, 3, "abc", false))), shown(false));
    assert_eq!(
        resume(pending(), Event::Failed(RepositoryError::NotFound)),
        text(Status::NotFound, "You don't have a spell with the id \"abc\" in your spellbook.")
    );
    for event in others() {
        assert_eq!(resume(pending(), event), failure("Failed to update spell"));
    }
}

#[test]
fn erasing_counts_the_rows_that_went() {
    assert_eq!(
        delete_spell(3, DeleteSpellRequest { nanoid: "abc".to_string() }),
        Step::Perform(
            Action::DeleteSpell { user_id: 3, nanoid: "abc".to_string() },
            Pending::DeleteSpell { nanoid: "abc".to_string() },
        )
    );
    let pending = || Pending::DeleteSpell { nanoid: "abc".to_string() };
    assert_eq!(
        resume(pending(), Event::Deleted(1)),
        text(Status::Success, "The spell was successfully erased from your spellbook")
    );
    let missing =
        text(Status::NotFound, "You don't have a spell with the id \"abc\" in your spellbook.");
    assert_eq!(resume(pending(), Event::Deleted(0)), missing);
    assert_eq!(resume(pending(), Event::Deleted(2)), missing);
    for event in others() {
        assert_eq!(resume(pending(), event), failure("Failed to erase spell"));
    }
    assert_eq!(
        resume(pending(), Event::Failed(RepositoryError::NotFound)),
        failure("Failed to erase spell")
    );
}

#[test]
fn publishing_fetches_then_sets_the_flag() {
    assert_eq!(
        publish_spell(3, "abc".to_string()),
        Step::Perform(
            Action::GetSpellByNanoid { user_id: 3, nanoid: "abc".to_string() },
            Pending::PublishLookup { user_id: 3, nanoid: "abc".to_string() },
        )
    );
    let pending = || Pending::PublishLookup { user_id: 3, nanoid: "abc".to_string() };
    assert_eq!(
        resume(pending(), Event::Spell(row(1, 3, "abc", false))),
        Step::Perform(
            Action::PublishSpell { user_id: 3, nanoid: "abc".to_string(), publish: true },
            Pending::PublishWrite { name: "Fireball".to_string() },
        )
    );
    assert_eq!(
        resume(pending(), Event::Spell(row(1, 3, "abc", true))),
        text(Status::UnprocessableEntity, "Your spell \"Fireball\" is already published")
    );
    assert_eq!(
        resume(pending(), Event::Failed(RepositoryError::NotFound)),
        text(Status::NotFound, "You don't have a spell with the id \"abc\" in your spellbook")
    );
    for event in others() {
        assert_eq!(resume(pending(), event), failure("Failed to retrieve spell"));
    }
    let written = || Pending::PublishWrite { name: "Fireball".to_string() };
    assert_eq!(
        resume(written(), Event::Spell(row(1, 3, "abc", true))),
        text(Status::Success, "Your spell \"Fireball\" was successfully published")
    );
    for event in others() {
        assert_eq!(resume(written(), event), failure("Failed to publish spell"));
    }
    assert_eq!(
        resume(written(), Event::Failed(RepositoryError::NotFound)),
        failure("Failed to publish spell")
    );
}

#[test]
fn withdrawing_fetches_then_clears_the_flag() {
    assert_eq!(
        unpublish_spell(3, "abc".to_string()),
        Step::Perform(
            Action::GetSpellByNanoid { user_id: 3, nanoid: "abc".to_string() },
            Pending::UnpublishLookup { user_id: 3, nanoid: "abc".to_string() },
        )
    );
    let pending = || Pending::UnpublishLookup { user_id: 3, nanoid: "abc".to_string() };
    assert_eq!(
        resume(pending(), Event::Spell(row(1, 3, "abc", true))),
        Step::Perform(
            Action::PublishSpell { user_id: 3, nanoid: "abc".to_string(), publish: false },
            Pending::UnpublishWrite { name: "Fireball".to_string() },
        )
    );
    assert_eq!(
        resume(pending(), Event::Spell(row(1, 3, "abc", false))),
        text(Status::UnprocessableEntity, "Your spell \"Fireball\" is not public")
    );
    assert_eq!(
        resume(pending(), Event::Failed(RepositoryError::NotFound)),
        text(Status::NotFound, "You don't have a spell with the id \"abc\" in your spellbook")
    );
    for event in others() {
        assert_eq!(resume(pending(), event), failure("Failed to retrieve spell"));
    }
    let written = || Pending::UnpublishWrite { name: "Fireball".to_string() };
    assert_eq!(
        resume(written(), Event::Spell(row(1, 3, "abc", false))),
        text(Status::Success, "Your spell \"Fireball\" was successfully unpublished")
    );
    for event in others() {
        assert_eq!(resume(written(), event), failure("Failed to unpublish spell"));
    }
}

#[test]
fn a_search_asks_with_one_condition_for_each_filter() {
    let request = QuerySpellsRequest {
        name: Some("fire".to_string()),
        level: None,
        casting_time: None,
        magic_school: Some("evo".to_string()),
        concentration: Some(false),
        range: None,
        duration: None,
    };
    assert_eq!(
        query_spells(3, request),
        Step::Perform(
            Action::QuerySpells {
                filters: vec![
                    Predicate::Owner(3),
                    Predicate::Ilike(Column::Name, "%fire%".to_string()),
                    Predicate::Ilike(Column::MagicSchool, "%evo%".to_string()),
                    Predicate::Concentration(false),
                ],
            },
            Pending::QuerySpells,
        )
    );
    assert_eq!(
        resume(Pending::QuerySpells, Event::Spells(vec![row(1, 3, "abc", false)])),
        Step::Respond(Response {
            status: Status::Success,
            body: Body::Spells(vec![resource(false)]),
        })
    );
    for event in others() {
        assert_eq!(resume(Pending::QuerySpells, event), failure("Failed to query spells"));
    }
}

#[test]
fn a_public_search_asks_for_published_rows_whoever_calls() {
    let request = || QueryPublicSpellsRequest {
        name: None,
        level: Some("3".to_string()),
        casting_time: None,
        magic_school: None,
        concentration: None,
        range: None,
        duration: None,
        username: Some("ali".to_string()),
    };
    let expected = Step::Perform(
        Action::QueryPublicSpells {
            filters: vec![
                Predicate::Published(true),
                Predicate::Ilike(Column::Level, "%3%".to_string()),
                Predicate::Ilike(Column::Username, "%ali%".to_string()),
            ],
        },
        Pending::QueryPublicSpells,
    );
    assert_eq!(query_public_spells(3, request()), expected);
    assert_eq!(query_public_spells(4, request()), expected);
    let owner = User { id: 1, username: "alice".to_string(), key_hash: "12".to_string() };
    assert_eq!(
        resume(Pending::QueryPublicSpells, Event::PublicSpells(vec![(row(1, 1, "abc", true), owner)])),
        Step::Respond(Response {
            status: Status::Success,
            body: Body::PublicSpells(vec![PublicSpellResource {
                name: "Fireball".to_string(),
                level: "Level 3".to_string(),
                casting_time: "1 action".to_string(),
                magic_school: "Evocation".to_string(),
                concentration: false,
                range: "150 feet".to_string(),
                duration: "Instantaneous".to_string(),
                description: "boom".to_string(),
                username: "alice".to_string(),
            }]),
        })
    );
    for event in others() {
        assert_eq!(
            resume(Pending::QueryPublicSpells, event),
            failure("Failed to retrieve public spells")
        );
    }
    assert_eq!(
        resume(Pending::QueryPublicSpells, Event::Spells(vec![])),
        failure("Failed to retrieve public spells")
    );
}

#[test]
fn copying_fetches_the_public_row_then_looks_its_name_up() {
    assert_eq!(
        copy_public_spell(4, GetPublicSpellRequest { nanoid: "abc".to_string() }),
        Step::Perform(
            Action::GetPublicSpell { nanoid: "abc".to_string() },
            Pending::CopyFetch { user_id: 4, nanoid: "abc".to_string() },
        )
    );
    let pending = || Pending::CopyFetch { user_id: 4, nanoid: "abc".to_string() };
    assert_eq!(
        resume(pending(), Event::Spell(row(1, 3, "abc", true))),
        Step::Perform(
            Action::GetSpellByName { user_id: 4, name: "Fireball".to_string() },
            Pending::CopyLookup { user_id: 4, spell: row(1, 3, "abc", true) },
        )
    );
    assert_eq!(
        resume(pending(), Event::Failed(RepositoryError::NotFound)),
        text(Status::NotFound, "A public spell with the id \"abc\" does not exist")
    );
    for event in others() {
        assert_eq!(resume(pending(), event), failure("Failed to retrieve published spell"));
    }
}

#[test]
fn a_copy_is_stored_for_the_caller_unpublished_under_a_new_handle() {
    let pending = || Pending::CopyLookup { user_id: 4, spell: row(1, 3, "abc", true) };
    let mut found = row(8, 4, "mine", false);
    found.name = "fireball".to_string();
    assert_eq!(
        resume(pending(), Event::Spell(found)),
        text(
            Status::UnprocessableEntity,
            "You already have a spell with the name \"fireball\" in your spellbook",
        )
    );
    let expected = Step::Perform(
        Action::InsertSpell { new_spell: new_row(4, "V1StGXR8_Z5jdHi6B-myT") },
        Pending::CopyInsert,
    );
    let id = || "V1StGXR8_Z5jdHi6B-myT".to_string();
    assert_eq!(resume_with(pending(), Event::Failed(RepositoryError::NotFound), id()), expected);
    for event in others() {
        assert_eq!(resume_with(pending(), event, id()), expected);
    }
    match resume(pending(), Event::Failed(RepositoryError::NotFound)) {
        Step::Perform(Action::InsertSpell { new_spell }, Pending::CopyInsert) => {
            assert_ne!(new_spell.nanoid, "abc");
            assert_eq!(new_spell.nanoid.chars().count(), 21);
            assert_eq!(new_spell.user_id, 4);
            assert!(!new_spell.published);
        }
        other => panic!("{:?}", other),
    }
}

#[test]
fn a_stored_copy_is_shown() {
    assert_eq!(resume(Pending::CopyInsert, Event::Spell(row(2, 4, "new", false))), shown(false));
    for event in others() {
        assert_eq!(resume(Pending::CopyInsert, event), failure("Failed to copy spell"));
    }
}

#[test]
fn an_account_is_stored_under_the_fingerprint_of_its_key() {
    let key = "67e55044-10b1-426f-9247-bb680e5fe0c8";
    assert_eq!(
        post_user_with_key(CreateUserRequest { username: "alice".to_string() }, key.to_string()),
        Step::Perform(
            Action::InsertUser {
                new_user: NewUser {
                    username: "alice".to_string(),
                    key_hash: calculate_hash(key).to_string(),
                },
            },
            Pending::PostUser { username: "alice".to_string(), key: key.to_string() },
        )
    );
}

#[test]
fn an_account_gets_a_fresh_key() {
    let key_of = |step: Step| match step {
        Step::Perform(Action::InsertUser { new_user }, Pending::PostUser { username, key }) => {
            assert_eq!(username, "alice");
            assert_eq!(new_user.username, "alice");
            assert_eq!(new_user.key_hash, calculate_hash(&key).to_string());
            assert_ne!(new_user.key_hash, key);
            key
        }
        other => panic!("{:?}", other),
    };
    let first = key_of(post_user(CreateUserRequest { username: "alice".to_string() }));
    let second = key_of(post_user(CreateUserRequest { username: "alice".to_string() }));
    assert!(uuid::Uuid::parse_str(&first).is_ok());
    assert_ne!(first, second);
}

#[test]
fn a_stored_account_is_greeted_and_a_taken_name_refused() {
    let pending =
        || Pending::PostUser { username: "alice".to_string(), key: "the-key".to_string() };
    let user = User { id: 1, username: "alice".to_string(), key_hash: "12".to_string() };
    assert_eq!(
        resume(pending(), Event::User(user)),
        text(Status::Success, "Welcome alice! Your api key is: the-key Don't lose it!")
    );
    assert_eq!(
        resume(pending(), Event::Failed(RepositoryError::UniqueViolation)),
        text(Status::UnprocessableEntity, "The username \"alice\" is already taken")
    );
    assert_eq!(resume(pending(), Event::Failed(RepositoryError::Other)), failure("Failed to insert user"));
    assert_eq!(
        resume(pending(), Event::Failed(RepositoryError::NotFound)),
        failure("Failed to insert user")
    );
    assert_eq!(resume(pending(), Event::Deleted(0)), failure("Failed to insert user"));
}
