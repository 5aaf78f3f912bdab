use spellbook_api::enums::MagicSchool;
use spellbook_api::errors::{AuthError, SpellValidationError};
use spellbook_api::responses::Status;

#[test]
fn every_school_is_read_from_its_name() {
    let all = MagicSchool::variants();
    assert_eq!(all.len(), 8);
    for school in all {
        assert_eq!(MagicSchool::from_str(school.name()), Some(school));
    }
}

#[test]
fn schools_are_listed_in_their_order() {
    let names: Vec<&str> = MagicSchool::variants().iter().map(|s| s.name()).collect();
    assert_eq!(
        names,
        vec![
            "Abjuration", "Conjuration", "Divination", "Enchantment", "Evocation", "Illusion",
            "Necromancy", "Transmutation",
        ]
    );
}

#[test]
fn other_texts_name_no_school() {
    for text in ["", "abjuration", "Abjuration ", "Abjurations", "Magic", "Évocation"] {
        assert_eq!(MagicSchool::from_str(text), None);
    }
    assert_eq!(MagicSchool::from_str("Illusion"), Some(MagicSchool::Illusion));
}

#[test]
fn the_level_error_quotes_the_value() {
    let error = SpellValidationError::InvalidSpellLevel("Level 12".to_string());
    assert_eq!(
        error.message(),
        "invalid spell level \"Level 12\" expected \"Cantrip\" or \"Level [1-9]\""
    );
}

#[test]
fn the_school_error_quotes_the_value_and_lists_the_schools() {
    let error = SpellValidationError::InvalidMagicSchool("".to_string());
    assert_eq!(
        error.message(),
        "invalid school of magic \"\" expected one of: [Abjuration, Conjuration, Divination, \
         Enchantment, Evocation, Illusion, Necromancy, Transmutation]"
    );
}

#[test]
fn the_auth_error_has_its_message() {
    assert_eq!(AuthError::AuthError.message(), "Authentication failed");
}

#[test]
fn statuses_have_their_numbers() {
    assert_eq!(Status::Success.code(), 200);
    assert_eq!(Status::Unauthorized.code(), 401);
    assert_eq!(Status::NotFound.code(), 404);
    assert_eq!(Status::UnprocessableEntity.code(), 422);
    assert_eq!(Status::InternalServerError.code(), 500);
}
