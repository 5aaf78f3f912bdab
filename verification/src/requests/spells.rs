//! Requests on spells.

use crate::errors::SpellValidationError;
use crate::models::spells::{SpellChanges, SpellContent};
use crate::text::text_view;
use crate::validators::spells::{outcome, validation_of_changes};
use crate::Validate;
use vstd::prelude::*;

verus! {

/// Asks for one of the caller's spells.
#[derive(Debug, PartialEq, Eq)]
pub struct GetSpellRequest {
    pub nanoid: String,
}

/// Asks to erase one of the caller's spells.
#[derive(Debug, PartialEq, Eq)]
pub struct DeleteSpellRequest {
    pub nanoid: String,
}

/// Names a spell of the public pool.
#[derive(Debug, PartialEq, Eq)]
pub struct GetPublicSpellRequest {
    pub nanoid: String,
}

/// A spell to add to the caller's spellbook.
#[derive(Debug, PartialEq, Eq)]
pub struct CreateSpellRequest {
    pub name: String,
    pub level: String,
    pub casting_time: String,
    pub magic_school: String,
    pub concentration: bool,
    pub range: String,
    pub duration: String,
    pub description: String,
}

/// New values for some fields of a spell. An absent field is left as it is.
#[derive(Debug, PartialEq, Eq)]
pub struct UpdatedSpellData {
    pub name: Option<String>,
    pub level: Option<String>,
    pub casting_time: Option<String>,
    pub magic_school: Option<String>,
    pub concentration: Option<bool>,
    pub range: Option<String>,
    pub duration: Option<String>,
    pub description: Option<String>,
}

/// Asks to change one of the caller's spells.
#[derive(Debug, PartialEq, Eq)]
pub struct UpdateSpellRequest {
    pub nanoid: String,
    pub updated_spell: UpdatedSpellData,
}

/// Filters for a search in the caller's spellbook. An absent field filters
/// nothing.
#[derive(Debug, PartialEq, Eq)]
pub struct QuerySpellsRequest {
    pub name: Option<String>,
    pub level: Option<String>,
    pub casting_time: Option<String>,
    pub magic_school: Option<String>,
    pub concentration: Option<bool>,
    pub range: Option<String>,
    pub duration: Option<String>,
}

/// Filters for a search in the public pool. An absent field filters
/// nothing.
#[derive(Debug, PartialEq, Eq)]
pub struct QueryPublicSpellsRequest {
    pub name: Option<String>,
    pub level: Option<String>,
    pub casting_time: Option<String>,
    pub magic_school: Option<String>,
    pub concentration: Option<bool>,
    pub range: Option<String>,
    pub duration: Option<String>,
    pub username: Option<String>,
}

pub struct UpdateSpellRequestView {
    pub nanoid: Seq<char>,
    pub changes: SpellChanges,
}

/// The filters of a search; `username` is always absent in a search of
/// one's own spellbook.
pub struct SpellFilter {
    pub name: Option<Seq<char>>,
    pub level: Option<Seq<char>>,
    pub casting_time: Option<Seq<char>>,
    pub magic_school: Option<Seq<char>>,
    pub concentration: Option<bool>,
    pub range: Option<Seq<char>>,
    pub duration: Option<Seq<char>>,
    pub username: Option<Seq<char>>,
}

impl SpellFilter {
    /// The filter that lets every row through.
    pub open spec fn none() -> SpellFilter {
        SpellFilter {
            name: None,
            level: None,
            casting_time: None,
            magic_school: None,
            concentration: None,
            range: None,
            duration: None,
            username: None,
        }
    }
}

impl View for GetSpellRequest {
    type V = Seq<char>;

    open spec fn view(&self) -> Seq<char> {
        self.nanoid@
    }
}

impl View for DeleteSpellRequest {
    type V = Seq<char>;

    open spec fn view(&self) -> Seq<char> {
        self.nanoid@
    }
}

impl View for GetPublicSpellRequest {
    type V = Seq<char>;

    open spec fn view(&self) -> Seq<char> {
        self.nanoid@
    }
}

impl View for CreateSpellRequest {
    type V = SpellContent;

    open spec fn view(&self) -> SpellContent {
        SpellContent {
            name: self.name@,
            level: self.level@,
            casting_time: self.casting_time@,
            magic_school: self.magic_school@,
            concentration: self.concentration,
            range: self.range@,
            duration: self.duration@,
            description: self.description@,
        }
    }
}

impl View for UpdatedSpellData {
    type V = SpellChanges;

    open spec fn view(&self) -> SpellChanges {
        SpellChanges {
            name: text_view(self.name),
            level: text_view(self.level),
            casting_time: text_view(self.casting_time),
            magic_school: text_view(self.magic_school),
            concentration: self.concentration,
            range: text_view(self.range),
            duration: text_view(self.duration),
            description: text_view(self.description),
        }
    }
}

impl View for UpdateSpellRequest {
    type V = UpdateSpellRequestView;

    open spec fn view(&self) -> UpdateSpellRequestView {
        UpdateSpellRequestView { nanoid: self.nanoid@, changes: self.updated_spell@ }
    }
}

impl View for QuerySpellsRequest {
    type V = SpellFilter;

    open spec fn view(&self) -> SpellFilter {
        SpellFilter {
            name: text_view(self.name),
            level: text_view(self.level),
            casting_time: text_view(self.casting_time),
            magic_school: text_view(self.magic_school),
            concentration: self.concentration,
            range: text_view(self.range),
            duration: text_view(self.duration),
            username: None,
        }
    }
}

impl View for QueryPublicSpellsRequest {
    type V = SpellFilter;

    open spec fn view(&self) -> SpellFilter {
        SpellFilter {
            name: text_view(self.name),
            level: text_view(self.level),
            casting_time: text_view(self.casting_time),
            magic_school: text_view(self.magic_school),
            concentration: self.concentration,
            range: text_view(self.range),
            duration: text_view(self.duration),
            username: text_view(self.username),
        }
    }
}

impl UpdateSpellRequest {
    /// Checks the fields that the request sets; see
    /// [`UpdatedSpellData`]'s `validate`.
    pub fn validate(&self) -> (checked: Result<(), SpellValidationError>)
        ensures
            outcome(checked) == validation_of_changes(self@.changes),
    {
        self.updated_spell.validate()
    }
}

} // verus!
