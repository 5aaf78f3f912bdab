//! The calls that the endpoints make on the store, and the answers they
//! get, as plain values. Whoever holds the connection performs an
//! [`Action`] and hands back the [`Event`].

use crate::errors::RepositoryError;
use crate::models::spells::{NewSpell, NewSpellView, Spell, SpellChanges, SpellView, UpdatedSpell};
use crate::models::users::{NewUser, NewUserView, User, UserView};
use crate::repositories::spells::{predicate_views, Predicate, PredicateView};
use crate::resources::spells::{owned_spell_views, spell_views};
use vstd::prelude::*;

pub mod spells;
pub mod users;

verus! {

/// One call on the store.
#[derive(Debug, PartialEq, Eq)]
pub enum Action {
    /// All spells of one owner.
    GetSpells { user_id: i32 },
    /// The spell of one owner with the given handle.
    GetSpellByNanoid { user_id: i32, nanoid: String },
    /// The spell of one owner with the given name, in any case.
    GetSpellByName { user_id: i32, name: String },
    /// The published spell with the given handle, whoever owns it.
    GetPublicSpell { nanoid: String },
    /// Stores a new spell.
    InsertSpell { new_spell: NewSpell },
    /// Overwrites columns of the spell of one owner with the given handle.
    UpdateSpell { user_id: i32, nanoid: String, changes: UpdatedSpell },
    /// Erases the spell of one owner with the given handle.
    DeleteSpell { user_id: i32, nanoid: String },
    /// Sets the published flag of the spell of one owner with the given
    /// handle.
    PublishSpell { user_id: i32, nanoid: String, publish: bool },
    /// The spells that meet every one of the predicates.
    QuerySpells { filters: Vec<Predicate> },
    /// The spells that meet every one of the predicates, each with its
    /// owner.
    QueryPublicSpells { filters: Vec<Predicate> },
    /// All accounts.
    GetUsers,
    /// The account whose stored key fingerprint is the given text.
    GetUserByKeyHash { hash: String },
    /// Stores a new account.
    InsertUser { new_user: NewUser },
}

/// What the store answered.
#[derive(Debug, PartialEq, Eq)]
pub enum Event {
    Spell(Spell),
    Spells(Vec<Spell>),
    PublicSpells(Vec<(Spell, User)>),
    /// The number of rows that were erased.
    Deleted(usize),
    User(User),
    Users(Vec<User>),
    Failed(RepositoryError),
}

pub enum ActionView {
    GetSpells { user_id: i32 },
    GetSpellByNanoid { user_id: i32, nanoid: Seq<char> },
    GetSpellByName { user_id: i32, name: Seq<char> },
    GetPublicSpell { nanoid: Seq<char> },
    InsertSpell { new_spell: NewSpellView },
    UpdateSpell { user_id: i32, nanoid: Seq<char>, changes: SpellChanges },
    DeleteSpell { user_id: i32, nanoid: Seq<char> },
    PublishSpell { user_id: i32, nanoid: Seq<char>, publish: bool },
    QuerySpells { filters: Seq<PredicateView> },
    QueryPublicSpells { filters: Seq<PredicateView> },
    GetUsers,
    GetUserByKeyHash { hash: Seq<char> },
    InsertUser { new_user: NewUserView },
}

pub enum EventView {
    Spell(SpellView),
    Spells(Seq<SpellView>),
    PublicSpells(Seq<(SpellView, UserView)>),
    Deleted(usize),
    User(UserView),
    Users(Seq<UserView>),
    Failed(RepositoryError),
}

/// The accounts of a list, each by its view.
pub open spec fn user_views(users: Seq<User>) -> Seq<UserView> {
    Seq::new(users.len(), |i: int| users[i]@)
}

impl View for Action {
    type V = ActionView;

    open spec fn view(&self) -> ActionView {
        match self {
            Action::GetSpells { user_id } => ActionView::GetSpells { user_id: *user_id },
            Action::GetSpellByNanoid { user_id, nanoid } => ActionView::GetSpellByNanoid {
                user_id: *user_id,
                nanoid: nanoid@,
            },
            Action::GetSpellByName { user_id, name } => ActionView::GetSpellByName {
                user_id: *user_id,
                name: name@,
            },
            Action::GetPublicSpell { nanoid } => ActionView::GetPublicSpell { nanoid: nanoid@ },
            Action::InsertSpell { new_spell } => ActionView::InsertSpell {
                new_spell: new_spell@,
            },
            Action::UpdateSpell { user_id, nanoid, changes } => ActionView::UpdateSpell {
                user_id: *user_id,
                nanoid: nanoid@,
                changes: changes@,
            },
            Action::DeleteSpell { user_id, nanoid } => ActionView::DeleteSpell {
                user_id: *user_id,
                nanoid: nanoid@,
            },
            Action::PublishSpell { user_id, nanoid, publish } => ActionView::PublishSpell {
                user_id: *user_id,
                nanoid: nanoid@,
                publish: *publish,
            },
            Action::QuerySpells { filters } => ActionView::QuerySpells {
                filters: predicate_views(filters@),
            },
            Action::QueryPublicSpells { filters } => ActionView::QueryPublicSpells {
                filters: predicate_views(filters@),
            },
            Action::GetUsers => ActionView::GetUsers,
            Action::GetUserByKeyHash { hash } => ActionView::GetUserByKeyHash { hash: hash@ },
            Action::InsertUser { new_user } => ActionView::InsertUser { new_user: new_user@ },
        }
    }
}

impl View for Event {
    type V = EventView;

    open spec fn view(&self) -> EventView {
        match self {
            Event::Spell(spell) => EventView::Spell(spell@),
            Event::Spells(spells) => EventView::Spells(spell_views(spells@)),
            Event::PublicSpells(rows) => EventView::PublicSpells(owned_spell_views(rows@)),
            Event::Deleted(count) => EventView::Deleted(*count),
            Event::User(user) => EventView::User(user@),
            Event::Users(users) => EventView::Users(user_views(users@)),
            Event::Failed(error) => EventView::Failed(*error),
        }
    }
}

} // verus!
