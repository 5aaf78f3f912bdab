//! The rules on the level and the school of magic of a spell.

use crate::enums::MagicSchool;
use crate::errors::{SpellValidationError, SpellValidationErrorView};
use crate::models::spells::{SpellChanges, SpellContent};
use crate::requests::spells::{CreateSpellRequest, UpdatedSpellData};
use crate::Validate;
use vstd::prelude::*;
use vstd::string::*;

verus! {

/// A spell level is the word `Cantrip`, or `Level`, one space and one digit
/// from 1 to 9. Nothing may come before or after.
pub open spec fn is_spell_level(level: Seq<char>) -> bool {
    level == "Cantrip"@ || (level.len() == 7 && level.subrange(0, 6) == "Level "@ && '1'
        <= level[6] <= '9')
}

/// A school of magic is one of the eight names, in their exact spelling.
pub open spec fn is_magic_school(school: Seq<char>) -> bool {
    MagicSchool::spec_from_str(school) is Some
}

/// What checking a complete spell gives: the level is looked at first.
pub open spec fn validation(content: SpellContent) -> Result<(), SpellValidationErrorView> {
    if !is_spell_level(content.level) {
        Err(SpellValidationErrorView::InvalidSpellLevel(content.level))
    } else if !is_magic_school(content.magic_school) {
        Err(SpellValidationErrorView::InvalidMagicSchool(content.magic_school))
    } else {
        Ok(())
    }
}

/// What checking a partial update gives: a rule applies only to a field
/// that is present, and the level is looked at first.
pub open spec fn validation_of_changes(
    changes: SpellChanges,
) -> Result<(), SpellValidationErrorView> {
    if changes.level is Some && !is_spell_level(changes.level->0) {
        Err(SpellValidationErrorView::InvalidSpellLevel(changes.level->0))
    } else if changes.magic_school is Some && !is_magic_school(changes.magic_school->0) {
        Err(SpellValidationErrorView::InvalidMagicSchool(changes.magic_school->0))
    } else {
        Ok(())
    }
}

/// The outcome of a check, with the error taken by its view.
pub open spec fn outcome(
    checked: Result<(), SpellValidationError>,
) -> Result<(), SpellValidationErrorView> {
    match checked {
        Ok(_) => Ok(()),
        Err(e) => Err(e@),
    }
}

/// Whether a text is a spell level.
pub fn is_valid_level(level: &str) -> (valid: bool)
    ensures
        valid == is_spell_level(level@),
{
    proof {
        reveal_strlit("Cantrip");
        reveal_strlit("Level ");
    }
    let text = String::from_str(level);
    if text == String::from_str("Cantrip") {
        return true;
    }
    if level.unicode_len() != 7 {
        return false;
    }
    let head = String::from_str(level.substring_char(0, 6));
    let digit = level.get_char(6);
    head == String::from_str("Level ") && '1' <= digit && digit <= '9'
}

/// Whether a text names a school of magic.
pub fn is_valid_magic_school(school: &str) -> (valid: bool)
    ensures
        valid == is_magic_school(school@),
{
    MagicSchool::from_str(school).is_some()
}

impl Validate<SpellValidationError> for CreateSpellRequest {
    /// Accepts a spell whose level and school of magic are well formed, and
    /// names the first field that is not.
    fn validate(&self) -> (checked: Result<(), SpellValidationError>)
        ensures
            outcome(checked) == validation(self@),
    {
        if !is_valid_level(self.level.as_str()) {
            return Err(SpellValidationError::InvalidSpellLevel(self.level.clone()));
        }
        if !is_valid_magic_school(self.magic_school.as_str()) {
            return Err(SpellValidationError::InvalidMagicSchool(self.magic_school.clone()));
        }
        Ok(())
    }
}

impl Validate<SpellValidationError> for UpdatedSpellData {
    /// Accepts changes whose level and school of magic, where present, are
    /// well formed, and names the first field that is not.
    fn validate(&self) -> (checked: Result<(), SpellValidationError>)
        ensures
            outcome(checked) == validation_of_changes(self@),
    {
        if let Some(level) = &self.level {
            if !is_valid_level(level.as_str()) {
                return Err(SpellValidationError::InvalidSpellLevel(level.clone()));
            }
        }
        if let Some(magic_school) = &self.magic_school {
            if !is_valid_magic_school(magic_school.as_str()) {
                return Err(SpellValidationError::InvalidMagicSchool(magic_school.clone()));
            }
        }
        Ok(())
    }
}

} // verus!
