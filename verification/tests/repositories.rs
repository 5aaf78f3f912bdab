use spellbook_api::errors::RepositoryError;
use spellbook_api::models::spells::{NewSpell, Spell, UpdatedSpell};
use spellbook_api::models::users::{NewUser, User};
use spellbook_api::repositories::spells::{
    delete_spell, get_public_spell, get_spell_by_name, get_spell_by_nanoid, get_spells,
    insert_spell, is_published, publish_spell, query_public_spells, query_spells, update_spell,
    Column, Predicate,
};
use spellbook_api::repositories::users::{get_user_by_key_hash, get_users, insert_user};
use spellbook_api::repositories::Action;
use spellbook_api::requests::spells::{
    QueryPublicSpellsRequest, QuerySpellsRequest, UpdateSpellRequest, UpdatedSpellData,
};
use spellbook_api::resources::spells::{PublicSpellResource, SpellResource};
use spellbook_api::{IntoCollection, IntoResource};

fn spell(id: i32, name: &str) -> Spell {
    Spell {
        id,
        name: name.to_string(),
        level: "Cantrip".to_string(),
        casting_time: "1 action".to_string(),
        magic_school: "Illusion".to_string(),
        concentration: true,
        range: "30 feet".to_string(),
        duration: "1 minute".to_string(),
        description: "flicker".to_string(),
        user_id: 5,
        published: true,
        nanoid: format!("id-{}", id),
    }
}

fn all_filters() -> QueryPublicSpellsRequest {
    QueryPublicSpellsRequest {
        name: Some("a".to_string()),
        level: Some("b".to_string()),
        casting_time: Some("c".to_string()),
        magic_school: Some("d".to_string()),
        concentration: Some(true),
        range: Some("e".to_string()),
        duration: Some("f".to_string()),
        username: Some("g".to_string()),
    }
}

#[test]
fn a_search_without_filters_asks_for_the_owner_alone() {
    let request = QuerySpellsRequest {
        name: None,
        level: None,
        casting_time: None,
        magic_school: None,
        concentration: None,
        range: None,
        duration: None,
    };
    assert_eq!(query_spells(9, &request), Action::QuerySpells { filters: vec![Predicate::Owner(9)] });
}

#[test]
fn every_filter_becomes_one_condition_in_a_fixed_order() {
    let public = all_filters();
    let own = QuerySpellsRequest {
        name: public.name.clone(),
        level: public.level.clone(),
        casting_time: public.casting_time.clone(),
        magic_school: public.magic_school.clone(),
        concentration: public.concentration,
        range: public.range.clone(),
        duration: public.duration.clone(),
    };
    let fields = vec![
        Predicate::Ilike(Column::Name, "%a%".to_string()),
        Predicate::Ilike(Column::Level, "%b%".to_string()),
        Predicate::Ilike(Column::CastingTime, "%c%".to_string()),
        Predicate::Ilike(Column::MagicSchool, "%d%".to_string()),
        Predicate::Concentration(true),
        Predicate::Ilike(Column::Range, "%e%".to_string()),
        Predicate::Ilike(Column::Duration, "%f%".to_string()),
    ];
    let mut expected = vec![Predicate::Owner(9)];
    expected.extend(fields.iter().map(|p| match p {
        Predicate::Ilike(c, v) => Predicate::Ilike(*c, v.clone()),
        Predicate::Concentration(b) => Predicate::Concentration(*b),
        _ => unreachable!(),
    }));
    assert_eq!(query_spells(9, &own), Action::QuerySpells { filters: expected });
    let mut expected = vec![Predicate::Published(true)];
    expected.extend(fields);
    expected.push(Predicate::Ilike(Column::Username, "%g%".to_string()));
    assert_eq!(query_public_spells(&public), Action::QueryPublicSpells { filters: expected });
}

#[test]
fn a_filter_value_is_carried_as_it_is() {
    let mut request = all_filters();
    request.name = Some("50% o'clock; --".to_string());
    match query_public_spells(&request) {
        Action::QueryPublicSpells { filters } => {
            assert_eq!(filters[1], Predicate::Ilike(Column::Name, "%50% o'clock; --%".to_string()));
        }
        other => panic!("{:?}", other),
    }
}

#[test]
fn the_calls_on_spells_carry_their_arguments() {
    assert_eq!(get_spells(5), Action::GetSpells { user_id: 5 });
    assert_eq!(
        get_spell_by_nanoid(5, "abc"),
        Action::GetSpellByNanoid { user_id: 5, nanoid: "abc".to_string() }
    );
    assert_eq!(
        get_spell_by_name(5, "Light"),
        Action::GetSpellByName { user_id: 5, name: "Light".to_string() }
    );
    assert_eq!(get_public_spell("abc"), Action::GetPublicSpell { nanoid: "abc".to_string() });
    assert_eq!(
        delete_spell(5, "abc"),
        Action::DeleteSpell { user_id: 5, nanoid: "abc".to_string() }
    );
    assert_eq!(
        publish_spell(5, "abc", true),
        Action::PublishSpell { user_id: 5, nanoid: "abc".to_string(), publish: true }
    );
    assert_eq!(
        publish_spell(5, "abc", false),
        Action::PublishSpell { user_id: 5, nanoid: "abc".to_string(), publish: false }
    );
}

#[test]
fn the_calls_that_store_carry_the_row() {
    let new_spell = NewSpell {
        name: "Light".to_string(),
        level: "Cantrip".to_string(),
        casting_time: "1 action".to_string(),
        magic_school: "Evocation".to_string(),
        concentration: false,
        range: "Touch".to_string(),
        duration: "1 hour".to_string(),
        description: "glow".to_string(),
        user_id: 5,
        published: false,
        nanoid: "abc".to_string(),
    };
    assert_eq!(insert_spell(new_spell.clone()), Action::InsertSpell { new_spell });
    let new_user = NewUser { username: "alice".to_string(), key_hash: "12".to_string() };
    assert_eq!(insert_user(new_user.clone()), Action::InsertUser { new_user });
    assert_eq!(get_users(), Action::GetUsers);
    assert_eq!(
        get_user_by_key_hash("12".to_string()),
        Action::GetUserByKeyHash { hash: "12".to_string() }
    );
}

#[test]
fn changes_are_taken_from_the_request_field_by_field() {
    let data = UpdatedSpellData {
        name: Some("Light".to_string()),
        level: None,
        casting_time: Some("1 action".to_string()),
        magic_school: None,
        concentration: Some(false),
        range: None,
        duration: Some("1 hour".to_string()),
        description: None,
    };
    let expected = UpdatedSpell {
        name: Some("Light".to_string()),
        level: None,
        casting_time: Some("1 action".to_string()),
        magic_school: None,
        concentration: Some(false),
        range: None,
        duration: Some("1 hour".to_string()),
        description: None,
    };
    assert_eq!(UpdatedSpell::from_data(&data), expected);
    assert!(!expected.is_empty());
    let request = UpdateSpellRequest { nanoid: "abc".to_string(), updated_spell: data };
    let changes = UpdatedSpell::from_request(&request);
    assert_eq!(changes, expected);
    assert_eq!(
        update_spell(5, "abc", changes),
        Action::UpdateSpell { user_id: 5, nanoid: "abc".to_string(), changes: expected }
    );
}

#[test]
fn changes_that_set_nothing_only_read_the_spell() {
    let nothing = UpdatedSpell {
        name: None,
        level: None,
        casting_time: None,
        magic_school: None,
        concentration: None,
        range: None,
        duration: None,
        description: None,
    };
    assert_eq!(
        update_spell(5, "abc", nothing),
        Action::GetSpellByNanoid { user_id: 5, nanoid: "abc".to_string() }
    );
}

#[test]
fn changes_that_set_nothing_are_empty() {
    let nothing = UpdatedSpell {
        name: None,
        level: None,
        casting_time: None,
        magic_school: None,
        concentration: None,
        range: None,
        duration: None,
        description: None,
    };
    assert!(nothing.is_empty());
    let mut flag = nothing.clone();
    flag.concentration = Some(false);
    assert!(!flag.is_empty());
    let mut text = nothing.clone();
    text.description = Some(String::new());
    assert!(!text.is_empty());
}

#[test]
fn the_published_flag_of_a_found_row_is_read() {
    assert_eq!(is_published(Ok(spell(1, "Light"))), Ok(true));
    let mut hidden = spell(1, "Light");
    hidden.published = false;
    assert_eq!(is_published(Ok(hidden)), Ok(false));
    assert_eq!(is_published(Err(RepositoryError::NotFound)), Err(RepositoryError::NotFound));
    assert_eq!(is_published(Err(RepositoryError::Other)), Err(RepositoryError::Other));
}

#[test]
fn a_resource_hides_ids_and_owner() {
    let resource: SpellResource = spell(1, "Light").into_resource();
    assert_eq!(
        resource,
        SpellResource {
            name: "Light".to_string(),
            level: "Cantrip".to_string(),
            casting_time: "1 action".to_string(),
            magic_school: "Illusion".to_string(),
            concentration: true,
            range: "30 feet".to_string(),
            duration: "1 minute".to_string(),
            description: "flicker".to_string(),
            published: true,
        }
    );
}

#[test]
fn a_public_resource_names_the_owner() {
    let owner = User { id: 5, username: "alice".to_string(), key_hash: "12".to_string() };
    let resource: PublicSpellResource = (spell(1, "Light"), owner).into_resource();
    assert_eq!(
        resource,
        PublicSpellResource {
            name: "Light".to_string(),
            level: "Cantrip".to_string(),
            casting_time: "1 action".to_string(),
            magic_school: "Illusion".to_string(),
            concentration: true,
            range: "30 feet".to_string(),
            duration: "1 minute".to_string(),
            description: "flicker".to_string(),
            username: "alice".to_string(),
        }
    );
}

#[test]
fn a_collection_keeps_the_order_of_the_rows() {
    let rows = vec![spell(1, "Light"), spell(2, "Mending"), spell(3, "Guidance")];
    let resources: Vec<SpellResource> = rows.into_collection();
    let names: Vec<&str> = resources.iter().map(|r| r.name.as_str()).collect();
    assert_eq!(names, vec!["Light", "Mending", "Guidance"]);
    let nothing: Vec<SpellResource> = Vec::<Spell>::new().into_collection();
    assert!(nothing.is_empty());
    let alice = User { id: 5, username: "alice".to_string(), key_hash: "12".to_string() };
    let bob = User { id: 6, username: "bob".to_string(), key_hash: "13".to_string() };
    let joined: Vec<PublicSpellResource> =
        vec![(spell(1, "Light"), alice), (spell(2, "Mending"), bob)].into_collection();
    let shown: Vec<(&str, &str)> =
        joined.iter().map(|r| (r.name.as_str(), r.username.as_str())).collect();
    assert_eq!(shown, vec![("Light", "alice"), ("Mending", "bob")]);
}
