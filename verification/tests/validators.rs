use spellbook_api::errors::SpellValidationError;
use spellbook_api::requests::spells::{CreateSpellRequest, UpdateSpellRequest, UpdatedSpellData};
use spellbook_api::validators::spells::{is_valid_level, is_valid_magic_school};
use spellbook_api::Validate;

fn fireball() -> CreateSpellRequest {
    CreateSpellRequest {
        name: "Fireball".to_string(),
        level: "Level 3".to_string(),
        casting_time: "1 action".to_string(),
        magic_school: "Evocation".to_string(),
        concentration: false,
        range: "150 feet".to_string(),
        duration: "Instantaneous".to_string(),
        description: "boom".to_string(),
    }
}

fn no_changes() -> UpdatedSpellData {
    UpdatedSpellData {
        name: None,
        level: None,
        casting_time: None,
        magic_school: None,
        concentration: None,
        range: None,
        duration: None,
        description: None,
    }
}

#[test]
fn levels_one_to_nine_and_cantrip_are_valid() {
    assert!(is_valid_level("Cantrip"));
    for digit in 1..=9 {
        assert!(is_valid_level(&format!("Level {}", digit)));
    }
}

#[test]
fn other_levels_are_invalid() {
    for level in [
        "", "Level 0", "Level 10", "level 3", "Level  3", "Level3", "Level 3 ", " Level 3",
        "cantrip", "Cantrip ", "Cantrips", "Level a", "Level 3\n", "Level \u{0663}", "Levél 3",
    ] {
        assert!(!is_valid_level(level), "{:?}", level);
    }
}

#[test]
fn levels_agree_with_the_pattern() {
    let pattern = regex::Regex::new("^Level [1-9]$|^Cantrip$").unwrap();
    let mut samples: Vec<String> = vec![
        "Cantrip".into(), "Level 1".into(), "Level 9".into(), "Level 0".into(),
        "Level 10".into(), "Level 5\n".into(), "\nLevel 5".into(), "Cantrip\n".into(),
        "Level\t5".into(), "LEVEL 5".into(), "Level 5|Cantrip".into(), "".into(),
    ];
    for a in ["Level ", "Cantrip", "Leve", "", " "] {
        for b in ["0", "1", "5", "9", "a", "", " ", "10"] {
            samples.push(format!("{}{}", a, b));
        }
    }
    for sample in samples {
        assert_eq!(is_valid_level(&sample), pattern.is_match(&sample), "{:?}", sample);
    }
}

#[test]
fn the_eight_schools_are_valid() {
    for school in [
        "Abjuration", "Conjuration", "Divination", "Enchantment", "Evocation", "Illusion",
        "Necromancy", "Transmutation",
    ] {
        assert!(is_valid_magic_school(school));
    }
}

#[test]
fn schools_are_compared_in_exact_case() {
    for school in ["evocation", "EVOCATION", "Evocation ", "", "Alchemy", "Evocatio"] {
        assert!(!is_valid_magic_school(school), "{:?}", school);
    }
}

#[test]
fn a_well_formed_spell_passes() {
    assert!(fireball().validate().is_ok());
}

#[test]
fn level_ten_is_refused_with_its_message() {
    let mut request = fireball();
    request.level = "Level 10".to_string();
    let error = request.validate().unwrap_err();
    assert!(matches!(&error, SpellValidationError::InvalidSpellLevel(v) if v == "Level 10"));
    assert_eq!(
        error.message(),
        "invalid spell level \"Level 10\" expected \"Cantrip\" or \"Level [1-9]\""
    );
}

#[test]
fn an_unknown_school_is_refused_with_its_message() {
    let mut request = fireball();
    request.magic_school = "Alchemy".to_string();
    let error = request.validate().unwrap_err();
    assert!(matches!(&error, SpellValidationError::InvalidMagicSchool(v) if v == "Alchemy"));
    assert_eq!(
        error.message(),
        "invalid school of magic \"Alchemy\" expected one of: [Abjuration, Conjuration, \
         Divination, Enchantment, Evocation, Illusion, Necromancy, Transmutation]"
    );
}

#[test]
fn the_level_is_checked_before_the_school() {
    let mut request = fireball();
    request.level = "Level 0".to_string();
    request.magic_school = "Alchemy".to_string();
    let error = request.validate().unwrap_err();
    assert!(matches!(error, SpellValidationError::InvalidSpellLevel(_)));
}

#[test]
fn absent_fields_of_an_update_are_not_checked() {
    assert!(no_changes().validate().is_ok());
    let mut only_name = no_changes();
    only_name.name = Some("Anything".to_string());
    assert!(only_name.validate().is_ok());
}

#[test]
fn present_fields_of_an_update_are_checked() {
    let mut bad_level = no_changes();
    bad_level.level = Some("Level 10".to_string());
    assert!(matches!(
        bad_level.validate(),
        Err(SpellValidationError::InvalidSpellLevel(v)) if v == "Level 10"
    ));
    let mut bad_school = no_changes();
    bad_school.level = Some("Cantrip".to_string());
    bad_school.magic_school = Some("illusion".to_string());
    assert!(matches!(
        bad_school.validate(),
        Err(SpellValidationError::InvalidMagicSchool(v)) if v == "illusion"
    ));
}

#[test]
fn an_update_request_is_checked_by_its_changes() {
    let mut changes = no_changes();
    changes.magic_school = Some("Necromancy".to_string());
    let request = UpdateSpellRequest { nanoid: "abc".to_string(), updated_spell: changes };
    assert!(request.validate().is_ok());
    let mut changes = no_changes();
    changes.level = Some("Level".to_string());
    let request = UpdateSpellRequest { nanoid: "abc".to_string(), updated_spell: changes };
    assert!(request.validate().is_err());
}
