//! A model of the store: the two tables as sequences of rows, and what
//! each call of the repository answers and changes. Nothing here runs; the
//! model is what the laws of the catalog are stated over.

use crate::errors::RepositoryError;
use crate::handlers::{next_step, StepView};
use crate::models::spells::{NewSpellView, SpellView};
use crate::models::users::{NewUserView, UserView};
use crate::repositories::spells::{Column, PredicateView};
use crate::repositories::{ActionView, EventView};
use crate::validators::spells::{is_magic_school, is_spell_level};
use vstd::prelude::*;

verus! {

/// The state of the store.
pub struct Catalog {
    pub users: Seq<UserView>,
    pub spells: Seq<SpellView>,
    /// How the store folds the case of a name before it compares names.
    pub lower: spec_fn(Seq<char>) -> Seq<char>,
    /// How the store matches a text against a pattern, letters compared in
    /// any case.
    pub ilike: spec_fn(Seq<char>, Seq<char>) -> bool,
}

/// What a call looks for in the table of spells.
pub enum Wanted {
    /// The row of an owner with a handle.
    Handle { user_id: i32, nanoid: Seq<char> },
    /// The row of an owner with a name, in any case.
    Name { user_id: i32, name: Seq<char> },
    /// The published row with a handle.
    Public { nanoid: Seq<char> },
}

impl Catalog {
    /// Whether two names are the same to the store.
    pub open spec fn same_name(self, a: Seq<char>, b: Seq<char>) -> bool {
        (self.lower)(a) == (self.lower)(b)
    }

    /// Whether a row is what a call looks for.
    pub open spec fn is_wanted(self, wanted: Wanted, row: SpellView) -> bool {
        match wanted {
            Wanted::Handle { user_id, nanoid } => row.user_id == user_id && row.nanoid == nanoid,
            Wanted::Name { user_id, name } => row.user_id == user_id && self.same_name(
                row.content.name,
                name,
            ),
            Wanted::Public { nanoid } => row.published && row.nanoid == nanoid,
        }
    }

    /// Whether the row at a position is what a call looks for.
    pub open spec fn is_wanted_at(self, wanted: Wanted, i: int) -> bool {
        0 <= i < self.spells.len() && self.is_wanted(wanted, self.spells[i])
    }

    /// The position of a row that a call looks for, if there is one. Where
    /// several rows qualify, the store is free to take any of them.
    pub open spec fn position(self, wanted: Wanted) -> Option<int> {
        if exists|i: int| self.is_wanted_at(wanted, i) {
            Some(choose|i: int| self.is_wanted_at(wanted, i))
        } else {
            None
        }
    }

    /// The answer to a call that looks for one row.
    pub open spec fn found(self, wanted: Wanted) -> EventView {
        match self.position(wanted) {
            Some(i) => EventView::Spell(self.spells[i]),
            None => EventView::Failed(RepositoryError::NotFound),
        }
    }

    /// Whether the account at a position has the id.
    pub open spec fn is_user_at(self, user_id: i32, u: int) -> bool {
        0 <= u < self.users.len() && self.users[u].id == user_id
    }

    /// Whether an account with the id exists.
    pub open spec fn has_user(self, user_id: i32) -> bool {
        exists|u: int| self.is_user_at(user_id, u)
    }

    /// The account with the id.
    pub open spec fn owner_of(self, user_id: i32) -> UserView {
        self.users[choose|u: int| self.is_user_at(user_id, u)]
    }

    /// Whether a row would break a unique index if it stood in the table
    /// beside the rows that are there, the one at `except` left aside: the
    /// index on the handle, or the one on the owner and the folded name.
    pub open spec fn clashes(self, row: SpellView, except: int) -> bool {
        exists|i: int|
            0 <= i < self.spells.len() && i != except && self.clash(#[trigger] self.spells[i], row)
    }

    /// Whether two rows cannot stand in the table together.
    pub open spec fn clash(self, a: SpellView, b: SpellView) -> bool {
        a.nanoid == b.nanoid || (a.user_id == b.user_id && self.same_name(
            a.content.name,
            b.content.name,
        ))
    }

    /// The text that a predicate on a column is about.
    pub open spec fn column_text(self, column: Column, row: SpellView) -> Seq<char> {
        match column {
            Column::Name => row.content.name,
            Column::Level => row.content.level,
            Column::CastingTime => row.content.casting_time,
            Column::MagicSchool => row.content.magic_school,
            Column::Range => row.content.range,
            Column::Duration => row.content.duration,
            Column::Username => self.owner_of(row.user_id).username,
        }
    }

    /// Whether a row meets one condition.
    pub open spec fn holds(self, predicate: PredicateView, row: SpellView) -> bool {
        match predicate {
            PredicateView::Owner(user_id) => row.user_id == user_id,
            PredicateView::Published(published) => row.published == published,
            PredicateView::Concentration(concentration) => row.content.concentration
                == concentration,
            PredicateView::Ilike(column, pattern) => (self.ilike)(
                self.column_text(column, row),
                pattern,
            ),
        }
    }

    /// Whether a row meets every condition of a list.
    pub open spec fn passes(self, filters: Seq<PredicateView>, row: SpellView) -> bool {
        forall|k: int| 0 <= k < filters.len() ==> self.holds(#[trigger] filters[k], row)
    }

    /// The rows that meet every condition of a list, in the order of the
    /// table.
    pub open spec fn select(self, filters: Seq<PredicateView>) -> Seq<SpellView> {
        self.spells.filter(|row: SpellView| self.passes(filters, row))
    }

    /// Whether no spell has the id.
    pub open spec fn spell_id_is_free(self, id: i32) -> bool {
        forall|i: int| 0 <= i < self.spells.len() ==> (#[trigger] self.spells[i]).id != id
    }

    /// Whether no account has the id.
    pub open spec fn user_id_is_free(self, id: i32) -> bool {
        !self.has_user(id)
    }

    /// The id that the store gives the next spell: one that is free.
    pub open spec fn next_spell_id(self) -> i32 {
        choose|id: i32| self.spell_id_is_free(id)
    }

    /// The id that the store gives the next account: one that is free.
    pub open spec fn next_user_id(self) -> i32 {
        choose|id: i32| self.user_id_is_free(id)
    }

    /// The catalog with another table of spells.
    pub open spec fn with_spells(self, spells: Seq<SpellView>) -> Catalog {
        Catalog { spells, ..self }
    }

    /// What a new spell is stored as.
    pub open spec fn stored(self, new_spell: NewSpellView) -> SpellView {
        SpellView {
            id: self.next_spell_id(),
            content: new_spell.content,
            user_id: new_spell.user_id,
            published: new_spell.published,
            nanoid: new_spell.nanoid,
        }
    }

    /// Stores a new spell, unless a unique index or the reference to the
    /// owner's account forbids it.
    pub open spec fn insert_spell(self, new_spell: NewSpellView) -> (Catalog, EventView) {
        let row = self.stored(new_spell);
        if self.clashes(row, -1) {
            (self, EventView::Failed(RepositoryError::UniqueViolation))
        } else if !self.has_user(row.user_id) {
            (self, EventView::Failed(RepositoryError::Other))
        } else {
            (self.with_spells(self.spells.push(row)), EventView::Spell(row))
        }
    }

    /// Puts another row in the place of the one that a call looks for,
    /// unless a unique index forbids it.
    pub open spec fn replace(self, wanted: Wanted, change: spec_fn(SpellView) -> SpellView) -> (
        Catalog,
        EventView,
    ) {
        match self.position(wanted) {
            None => (self, EventView::Failed(RepositoryError::NotFound)),
            Some(i) => {
                let row = change(self.spells[i]);
                if self.clashes(row, i) {
                    (self, EventView::Failed(RepositoryError::UniqueViolation))
                } else {
                    (self.with_spells(self.spells.update(i, row)), EventView::Spell(row))
                }
            },
        }
    }

    /// Erases the row that a call looks for. In a table where no two rows
    /// share a handle, that is every row the call could mean.
    pub open spec fn delete_spell(self, wanted: Wanted) -> (Catalog, EventView) {
        match self.position(wanted) {
            None => (self, EventView::Deleted(0)),
            Some(i) => (self.with_spells(self.spells.remove(i)), EventView::Deleted(1)),
        }
    }

    /// Whether the account at a position is stored under the key
    /// fingerprint.
    pub open spec fn holds_key_at(self, hash: Seq<char>, u: int) -> bool {
        0 <= u < self.users.len() && self.users[u].key_hash == hash
    }

    /// Whether the account at a position has the name.
    pub open spec fn is_named_at(self, username: Seq<char>, u: int) -> bool {
        0 <= u < self.users.len() && self.users[u].username == username
    }

    /// The answer to a call that looks for the account with a key
    /// fingerprint. Where several accounts qualify, the store is free to
    /// take any of them.
    pub open spec fn found_user(self, hash: Seq<char>) -> EventView {
        if exists|u: int| self.holds_key_at(hash, u) {
            EventView::User(self.users[choose|u: int| self.holds_key_at(hash, u)])
        } else {
            EventView::Failed(RepositoryError::NotFound)
        }
    }

    /// Stores a new account, unless its name is taken.
    pub open spec fn insert_user(self, new_user: NewUserView) -> (Catalog, EventView) {
        if exists|u: int| self.is_named_at(new_user.username, u) {
            (self, EventView::Failed(RepositoryError::UniqueViolation))
        } else {
            let row = UserView {
                id: self.next_user_id(),
                username: new_user.username,
                key_hash: new_user.key_hash,
            };
            (Catalog { users: self.users.push(row), ..self }, EventView::User(row))
        }
    }

    /// What a call of the repository answers, and the state it leaves.
    pub open spec fn perform(self, action: ActionView) -> (Catalog, EventView) {
        match action {
            ActionView::GetSpells { user_id } => (
                self,
                EventView::Spells(self.select(seq![PredicateView::Owner(user_id)])),
            ),
            ActionView::GetSpellByNanoid { user_id, nanoid } => (
                self,
                self.found(Wanted::Handle { user_id, nanoid }),
            ),
            ActionView::GetSpellByName { user_id, name } => (
                self,
                self.found(Wanted::Name { user_id, name }),
            ),
            ActionView::GetPublicSpell { nanoid } => (self, self.found(Wanted::Public { nanoid })),
            ActionView::InsertSpell { new_spell } => self.insert_spell(new_spell),
            ActionView::UpdateSpell { user_id, nanoid, changes } => self.replace(
                Wanted::Handle { user_id, nanoid },
                |row: SpellView| SpellView { content: changes.apply(row.content), ..row },
            ),
            ActionView::DeleteSpell { user_id, nanoid } => self.delete_spell(
                Wanted::Handle { user_id, nanoid },
            ),
            ActionView::PublishSpell { user_id, nanoid, publish } => self.replace(
                Wanted::Handle { user_id, nanoid },
                |row: SpellView| SpellView { published: publish, ..row },
            ),
            ActionView::QuerySpells { filters } => (self, EventView::Spells(self.select(filters))),
            ActionView::QueryPublicSpells { filters } => (
                self,
                EventView::PublicSpells(
                    self.select(filters).map_values(
                        |row: SpellView| (row, self.owner_of(row.user_id)),
                    ),
                ),
            ),
            ActionView::GetUsers => (self, EventView::Users(self.users)),
            ActionView::GetUserByKeyHash { hash } => (self, self.found_user(hash)),
            ActionView::InsertUser { new_user } => self.insert_user(new_user),
        }
    }

    /// One round of a conversation: the store performs what the step asks
    /// for, and the endpoint takes its answer. A step that carries the
    /// response stays as it is.
    pub open spec fn advance(self, step: StepView, nanoid: Seq<char>) -> (Catalog, StepView) {
        match step {
            StepView::Respond(_) => (self, step),
            StepView::Perform(action, pending) => {
                let (after, event) = self.perform(action);
                (after, next_step(pending, event, nanoid))
            },
        }
    }

    /// A whole conversation, from the first step of an endpoint to its
    /// response: three rounds, which is as many as the longest one takes.
    /// `nanoid` is the fresh handle, for the endpoints that store a row.
    pub open spec fn run(self, step: StepView, nanoid: Seq<char>) -> (Catalog, StepView) {
        let (first, step1) = self.advance(step, nanoid);
        let (second, step2) = first.advance(step1, nanoid);
        second.advance(step2, nanoid)
    }

    // ------------------------------------------------------------ invariants

    /// No two spells share a handle.
    pub open spec fn handles_are_unique(self) -> bool {
        forall|i: int, j: int|
            0 <= i < self.spells.len() && 0 <= j < self.spells.len() && i != j ==> (
            #[trigger] self.spells[i]).nanoid != (#[trigger] self.spells[j]).nanoid
    }

    /// No two spells of one owner have the same name, in whatever case.
    pub open spec fn names_are_unique(self) -> bool {
        forall|i: int, j: int|
            0 <= i < self.spells.len() && 0 <= j < self.spells.len() && i != j && (
            #[trigger] self.spells[i]).user_id == (#[trigger] self.spells[j]).user_id
                ==> !self.same_name(self.spells[i].content.name, self.spells[j].content.name)
    }

    /// Every spell belongs to an account that exists.
    pub open spec fn owners_exist(self) -> bool {
        forall|i: int|
            0 <= i < self.spells.len() ==> self.has_user((#[trigger] self.spells[i]).user_id)
    }

    /// The level and the school of magic of every spell are well formed.
    pub open spec fn fields_are_valid(self) -> bool {
        forall|i: int|
            0 <= i < self.spells.len() ==> is_spell_level((#[trigger] self.spells[i]).content.level)
                && is_magic_school(self.spells[i].content.magic_school)
    }

    /// No two accounts share a name.
    pub open spec fn usernames_are_unique(self) -> bool {
        forall|u: int, v: int|
            0 <= u < self.users.len() && 0 <= v < self.users.len() && u != v ==> (
            #[trigger] self.users[u]).username != (#[trigger] self.users[v]).username
    }

    /// What the store keeps true by itself, through its unique indexes and
    /// the reference from spells to accounts.
    pub open spec fn is_consistent(self) -> bool {
        &&& self.handles_are_unique()
        &&& self.names_are_unique()
        &&& self.owners_exist()
        &&& self.usernames_are_unique()
    }

    /// What holds of the store at rest: what it keeps true by itself, and
    /// what the endpoints add by checking before they store.
    pub open spec fn well_formed(self) -> bool {
        self.is_consistent() && self.fields_are_valid()
    }
}

/// A row that a lookup answers with stands in the table and is what the
/// call looks for; a lookup that answers with no row says that there is
/// none.
pub proof fn lemma_found_row_is_in_table(catalog: Catalog, wanted: Wanted)
    ensures
        catalog.found(wanted) matches EventView::Spell(row) ==> exists|i: int|
            #[trigger] catalog.is_wanted_at(wanted, i) && catalog.spells[i] == row,
        catalog.found(wanted) is Spell || catalog.found(wanted) == EventView::Failed(
            RepositoryError::NotFound,
        ),
{
    if let Some(i) = catalog.position(wanted) {
        assert(catalog.is_wanted_at(wanted, i));
    }
}

/// In a table where no two rows share a handle, a lookup by handle finds
/// the one row that has it.
pub proof fn lemma_position_of_handle(catalog: Catalog, user_id: i32, nanoid: Seq<char>, i: int)
    requires
        catalog.handles_are_unique(),
        0 <= i < catalog.spells.len(),
        catalog.spells[i].user_id == user_id,
        catalog.spells[i].nanoid == nanoid,
    ensures
        catalog.position(Wanted::Handle { user_id, nanoid }) == Some(i),
{
    let wanted = Wanted::Handle { user_id, nanoid };
    assert(catalog.is_wanted_at(wanted, i));
    let k = catalog.position(wanted).unwrap();
    assert(catalog.is_wanted_at(wanted, k));
    assert(catalog.spells[k].nanoid == catalog.spells[i].nanoid);
}

/// A row that keeps the handle, the owner and the name of the row at a
/// position breaks no unique index when it takes that row's place.
pub proof fn lemma_no_clash_in_place(catalog: Catalog, i: int, row: SpellView)
    requires
        catalog.is_consistent(),
        0 <= i < catalog.spells.len(),
        row.nanoid == catalog.spells[i].nanoid,
        row.user_id == catalog.spells[i].user_id,
        row.content.name == catalog.spells[i].content.name,
    ensures
        !catalog.clashes(row, i),
{
    assert forall|k: int| 0 <= k < catalog.spells.len() && k != i implies !catalog.clash(
        #[trigger] catalog.spells[k],
        row,
    ) by {
        assert(catalog.spells[k].nanoid != catalog.spells[i].nanoid);
        if catalog.spells[k].user_id == catalog.spells[i].user_id {
            assert(!catalog.same_name(
                catalog.spells[k].content.name,
                catalog.spells[i].content.name,
            ));
        }
    }
}

/// An account that exists still exists where the table of accounts only
/// grew or stayed.
pub proof fn lemma_owner_is_kept(before: Catalog, after: Catalog, user_id: i32)
    requires
        before.has_user(user_id),
        before.users.len() <= after.users.len(),
        forall|u: int| 0 <= u < before.users.len() ==> after.users[u] == #[trigger] before.users[u],
    ensures
        after.has_user(user_id),
{
    let u = choose|u: int| before.is_user_at(user_id, u);
    assert(after.users[u] == before.users[u]);
    assert(after.is_user_at(user_id, u));
}

} // verus!
