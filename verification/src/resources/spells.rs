//! Spells as callers see them.

use crate::models::spells::{Spell, SpellContent, SpellView};
use crate::models::users::{User, UserView};
use crate::{IntoCollection, IntoResource};
use vstd::prelude::*;

verus! {

/// A spell as its owner sees it.
#[derive(Debug, PartialEq, Eq)]
pub struct SpellResource {
    pub name: String,
    pub level: String,
    pub casting_time: String,
    pub magic_school: String,
    pub concentration: bool,
    pub range: String,
    pub duration: String,
    pub description: String,
    pub published: bool,
}

/// A published spell as any caller sees it, with its owner's name.
#[derive(Debug, PartialEq, Eq)]
pub struct PublicSpellResource {
    pub name: String,
    pub level: String,
    pub casting_time: String,
    pub magic_school: String,
    pub concentration: bool,
    pub range: String,
    pub duration: String,
    pub description: String,
    pub username: String,
}

pub struct SpellResourceView {
    pub content: SpellContent,
    pub published: bool,
}

pub struct PublicSpellResourceView {
    pub content: SpellContent,
    pub username: Seq<char>,
}

impl View for SpellResource {
    type V = SpellResourceView;

    open spec fn view(&self) -> SpellResourceView {
        SpellResourceView {
            content: SpellContent {
                name: self.name@,
                level: self.level@,
                casting_time: self.casting_time@,
                magic_school: self.magic_school@,
                concentration: self.concentration,
                range: self.range@,
                duration: self.duration@,
                description: self.description@,
            },
            published: self.published,
        }
    }
}

impl View for PublicSpellResource {
    type V = PublicSpellResourceView;

    open spec fn view(&self) -> PublicSpellResourceView {
        PublicSpellResourceView {
            content: SpellContent {
                name: self.name@,
                level: self.level@,
                casting_time: self.casting_time@,
                magic_school: self.magic_school@,
                concentration: self.concentration,
                range: self.range@,
                duration: self.duration@,
                description: self.description@,
            },
            username: self.username@,
        }
    }
}

/// What the owner is shown of a row: its content and whether it is
/// published.
pub open spec fn resource_of(spell: SpellView) -> SpellResourceView {
    SpellResourceView { content: spell.content, published: spell.published }
}

/// What any caller is shown of a published row: its content and the name
/// of its owner.
pub open spec fn public_resource_of(spell: SpellView, owner: UserView) -> PublicSpellResourceView {
    PublicSpellResourceView { content: spell.content, username: owner.username }
}

/// The rows of a list, each by its view.
pub open spec fn spell_views(spells: Seq<Spell>) -> Seq<SpellView> {
    Seq::new(spells.len(), |i: int| spells[i]@)
}

/// The rows of a joined list, each by its views.
pub open spec fn owned_spell_views(rows: Seq<(Spell, User)>) -> Seq<(SpellView, UserView)> {
    Seq::new(rows.len(), |i: int| (rows[i].0@, rows[i].1@))
}

/// The resources of a list, each by its view.
pub open spec fn resource_views(resources: Seq<SpellResource>) -> Seq<SpellResourceView> {
    Seq::new(resources.len(), |i: int| resources[i]@)
}

/// The public resources of a list, each by its view.
pub open spec fn public_resource_views(resources: Seq<PublicSpellResource>) -> Seq<
    PublicSpellResourceView,
> {
    Seq::new(resources.len(), |i: int| resources[i]@)
}

/// The list that the owner is shown: one resource for each row, in the
/// same order.
pub open spec fn collection_of(spells: Seq<SpellView>) -> Seq<SpellResourceView> {
    Seq::new(spells.len(), |i: int| resource_of(spells[i]))
}

/// The list that any caller is shown: one resource for each row, in the
/// same order.
pub open spec fn public_collection_of(rows: Seq<(SpellView, UserView)>) -> Seq<
    PublicSpellResourceView,
> {
    Seq::new(rows.len(), |i: int| public_resource_of(rows[i].0, rows[i].1))
}

impl IntoResource<SpellResource> for Spell {
    fn into_resource(self) -> (resource: SpellResource)
        ensures
            resource@ == resource_of(self@),
    {
        SpellResource {
            name: self.name,
            level: self.level,
            casting_time: self.casting_time,
            magic_school: self.magic_school,
            concentration: self.concentration,
            range: self.range,
            duration: self.duration,
            description: self.description,
            published: self.published,
        }
    }
}

impl IntoCollection<SpellResource> for Vec<Spell> {
    fn into_collection(self) -> (resources: Vec<SpellResource>)
        ensures
            resource_views(resources@) == collection_of(spell_views(self@)),
    {
        let mut resources: Vec<SpellResource> = Vec::new();
        let mut i: usize = 0;
        while i < self.len()
            invariant
                i <= self.len(),
                resources.len() == i,
                forall|j: int| 0 <= j < i ==> (#[trigger] resources@[j])@ == resource_of(self@[j]@),
            decreases self.len() - i,
        {
            resources.push(self[i].clone().into_resource());
            i += 1;
        }
        assert(resource_views(resources@) =~= collection_of(spell_views(self@)));
        resources
    }
}

impl IntoResource<PublicSpellResource> for (Spell, User) {
    fn into_resource(self) -> (resource: PublicSpellResource)
        ensures
            resource@ == public_resource_of(self.0@, self.1@),
    {
        PublicSpellResource {
            name: self.0.name,
            level: self.0.level,
            casting_time: self.0.casting_time,
            magic_school: self.0.magic_school,
            concentration: self.0.concentration,
            range: self.0.range,
            duration: self.0.duration,
            description: self.0.description,
            username: self.1.username,
        }
    }
}

impl IntoCollection<PublicSpellResource> for Vec<(Spell, User)> {
    fn into_collection(self) -> (resources: Vec<PublicSpellResource>)
        ensures
            public_resource_views(resources@) == public_collection_of(owned_spell_views(self@)),
    {
        let mut resources: Vec<PublicSpellResource> = Vec::new();
        let mut i: usize = 0;
        while i < self.len()
            invariant
                i <= self.len(),
                resources.len() == i,
                forall|j: int|
                    0 <= j < i ==> (#[trigger] resources@[j])@ == public_resource_of(
                        self@[j].0@,
                        self@[j].1@,
                    ),
            decreases self.len() - i,
        {
            let spell = self[i].0.clone();
            let owner = self[i].1.clone();
            resources.push((spell, owner).into_resource());
            i += 1;
        }
        assert(public_resource_views(resources@) =~= public_collection_of(
            owned_spell_views(self@),
        ));
        resources
    }
}

} // verus!
