//! Spells.

use crate::requests::spells::{UpdateSpellRequest, UpdatedSpellData};
use crate::text::{clone_text, text_view};
use vstd::prelude::*;

verus! {

/// A stored spell. `user_id` names the owner; `nanoid` is the handle that
/// callers know the row by.
#[derive(Debug, PartialEq, Eq)]
pub struct Spell {
    pub id: i32,
    pub name: String,
    pub level: String,
    pub casting_time: String,
    pub magic_school: String,
    pub concentration: bool,
    pub range: String,
    pub duration: String,
    pub description: String,
    pub user_id: i32,
    pub published: bool,
    pub nanoid: String,
}

/// A spell that is not stored yet: the store assigns the `id`.
#[derive(Debug, PartialEq, Eq)]
pub struct NewSpell {
    pub name: String,
    pub level: String,
    pub casting_time: String,
    pub magic_school: String,
    pub concentration: bool,
    pub range: String,
    pub duration: String,
    pub description: String,
    pub user_id: i32,
    pub published: bool,
    pub nanoid: String,
}

/// The columns to overwrite in a stored spell. A column whose field is
/// `None` keeps its value.
#[derive(Debug, PartialEq, Eq)]
pub struct UpdatedSpell {
    pub name: Option<String>,
    pub level: Option<String>,
    pub casting_time: Option<String>,
    pub magic_school: Option<String>,
    pub concentration: Option<bool>,
    pub range: Option<String>,
    pub duration: Option<String>,
    pub description: Option<String>,
}

/// What a spell says: the eight fields that a caller writes and reads.
pub struct SpellContent {
    pub name: Seq<char>,
    pub level: Seq<char>,
    pub casting_time: Seq<char>,
    pub magic_school: Seq<char>,
    pub concentration: bool,
    pub range: Seq<char>,
    pub duration: Seq<char>,
    pub description: Seq<char>,
}

pub struct SpellView {
    pub id: i32,
    pub content: SpellContent,
    pub user_id: i32,
    pub published: bool,
    pub nanoid: Seq<char>,
}

pub struct NewSpellView {
    pub content: SpellContent,
    pub user_id: i32,
    pub published: bool,
    pub nanoid: Seq<char>,
}

/// For each of the eight fields, the new value if there is one.
pub struct SpellChanges {
    pub name: Option<Seq<char>>,
    pub level: Option<Seq<char>>,
    pub casting_time: Option<Seq<char>>,
    pub magic_school: Option<Seq<char>>,
    pub concentration: Option<bool>,
    pub range: Option<Seq<char>>,
    pub duration: Option<Seq<char>>,
    pub description: Option<Seq<char>>,
}

impl SpellChanges {
    /// The changes that change nothing.
    pub open spec fn none() -> SpellChanges {
        SpellChanges {
            name: None,
            level: None,
            casting_time: None,
            magic_school: None,
            concentration: None,
            range: None,
            duration: None,
            description: None,
        }
    }

    /// The content after the changes: each field that is present replaces
    /// the old value, each absent one leaves it.
    pub open spec fn apply(self, old: SpellContent) -> SpellContent {
        SpellContent {
            name: if let Some(v) = self.name { v } else { old.name },
            level: if let Some(v) = self.level { v } else { old.level },
            casting_time: if let Some(v) = self.casting_time { v } else { old.casting_time },
            magic_school: if let Some(v) = self.magic_school { v } else { old.magic_school },
            concentration: if let Some(v) = self.concentration { v } else { old.concentration },
            range: if let Some(v) = self.range { v } else { old.range },
            duration: if let Some(v) = self.duration { v } else { old.duration },
            description: if let Some(v) = self.description { v } else { old.description },
        }
    }
}

impl View for Spell {
    type V = SpellView;

    open spec fn view(&self) -> SpellView {
        SpellView {
            id: self.id,
            content: SpellContent {
                name: self.name@,
                level: self.level@,
                casting_time: self.casting_time@,
                magic_school: self.magic_school@,
                concentration: self.concentration,
                range: self.range@,
                duration: self.duration@,
                description: self.description@,
            },
            user_id: self.user_id,
            published: self.published,
            nanoid: self.nanoid@,
        }
    }
}

impl View for NewSpell {
    type V = NewSpellView;

    open spec fn view(&self) -> NewSpellView {
        NewSpellView {
            content: SpellContent {
                name: self.name@,
                level: self.level@,
                casting_time: self.casting_time@,
                magic_school: self.magic_school@,
                concentration: self.concentration,
                range: self.range@,
                duration: self.duration@,
                description: self.description@,
            },
            user_id: self.user_id,
            published: self.published,
            nanoid: self.nanoid@,
        }
    }
}

impl View for UpdatedSpell {
    type V = SpellChanges;

    open spec fn view(&self) -> SpellChanges {
        SpellChanges {
            name: text_view(self.name),
            level: text_view(self.level),
            casting_time: text_view(self.casting_time),
            magic_school: text_view(self.magic_school),
            concentration: self.concentration,
            range: text_view(self.range),
            duration: text_view(self.duration),
            description: text_view(self.description),
        }
    }
}

impl Clone for Spell {
    fn clone(&self) -> (copy: Self)
        ensures
            copy@ == self@,
    {
        Spell {
            id: self.id,
            name: self.name.clone(),
            level: self.level.clone(),
            casting_time: self.casting_time.clone(),
            magic_school: self.magic_school.clone(),
            concentration: self.concentration,
            range: self.range.clone(),
            duration: self.duration.clone(),
            description: self.description.clone(),
            user_id: self.user_id,
            published: self.published,
            nanoid: self.nanoid.clone(),
        }
    }
}

impl Clone for NewSpell {
    fn clone(&self) -> (copy: Self)
        ensures
            copy@ == self@,
    {
        NewSpell {
            name: self.name.clone(),
            level: self.level.clone(),
            casting_time: self.casting_time.clone(),
            magic_school: self.magic_school.clone(),
            concentration: self.concentration,
            range: self.range.clone(),
            duration: self.duration.clone(),
            description: self.description.clone(),
            user_id: self.user_id,
            published: self.published,
            nanoid: self.nanoid.clone(),
        }
    }
}

impl Clone for UpdatedSpell {
    fn clone(&self) -> (copy: Self)
        ensures
            copy@ == self@,
    {
        UpdatedSpell {
            name: clone_text(&self.name),
            level: clone_text(&self.level),
            casting_time: clone_text(&self.casting_time),
            magic_school: clone_text(&self.magic_school),
            concentration: self.concentration,
            range: clone_text(&self.range),
            duration: clone_text(&self.duration),
            description: clone_text(&self.description),
        }
    }
}

impl UpdatedSpell {
    /// The changes that an update request asks for.
    pub fn from_request(request: &UpdateSpellRequest) -> (changes: UpdatedSpell)
        ensures
            changes@ == request@.changes,
    {
        Self::from_data(&request.updated_spell)
    }

    /// The changes that the body of an update request asks for.
    pub fn from_data(data: &UpdatedSpellData) -> (changes: UpdatedSpell)
        ensures
            changes@ == data@,
    {
        UpdatedSpell {
            name: clone_text(&data.name),
            level: clone_text(&data.level),
            casting_time: clone_text(&data.casting_time),
            magic_school: clone_text(&data.magic_school),
            concentration: data.concentration,
            range: clone_text(&data.range),
            duration: clone_text(&data.duration),
            description: clone_text(&data.description),
        }
    }

    /// Whether no column is to be overwritten.
    pub fn is_empty(&self) -> (empty: bool)
        ensures
            empty == (self@ == SpellChanges::none()),
    {
        self.name.is_none() && self.level.is_none() && self.casting_time.is_none()
            && self.magic_school.is_none() && self.concentration.is_none()
            && self.range.is_none() && self.duration.is_none() && self.description.is_none()
    }
}

} // verus!
