//! The endpoints. Each one is a short conversation with the store: a
//! function named after the endpoint takes the request and gives the first
//! [`Step`], and [`resume`] takes the store's answer and gives the next
//! one, until a step carries the response.

use crate::identifiers::{is_nanoid, new_nanoid};
use crate::models::spells::{Spell, SpellChanges, SpellContent, SpellView, UpdatedSpell};
use crate::repositories::{Action, ActionView, Event, EventView};
use crate::requests::spells::CreateSpellRequest;
use crate::responses::{Response, ResponseView};
use vstd::prelude::*;

pub mod spells;
pub mod users;

verus! {

/// What an endpoint is waiting for: which answer of the store comes next,
/// and what of the request is still needed then.
#[derive(Debug, PartialEq, Eq)]
pub enum Pending {
    GetSpells,
    GetSpell { nanoid: String },
    /// A spell was submitted; the store is asked whether its name is taken.
    PostSpellLookup { user_id: i32, request: CreateSpellRequest },
    PostSpellInsert,
    /// A new name was submitted; the store is asked whether it is taken.
    UpdateSpellLookup { user_id: i32, nanoid: String, changes: UpdatedSpell },
    UpdateSpellWrite { nanoid: String },
    DeleteSpell { nanoid: String },
    PublishLookup { user_id: i32, nanoid: String },
    PublishWrite { name: String },
    UnpublishLookup { user_id: i32, nanoid: String },
    UnpublishWrite { name: String },
    QuerySpells,
    QueryPublicSpells,
    /// A public spell is to be copied; the store is asked for it.
    CopyFetch { user_id: i32, nanoid: String },
    /// The public spell is here; the store is asked whether the caller has
    /// one of that name.
    CopyLookup { user_id: i32, spell: Spell },
    CopyInsert,
    /// An account is being made; `key` is shown to the caller once it is
    /// stored.
    PostUser { username: String, key: String },
}

/// What is to be done next for a request.
#[derive(Debug, PartialEq, Eq)]
pub enum Step {
    /// The request is answered.
    Respond(Response),
    /// The store is to perform the action; its answer goes to [`resume`]
    /// together with what is pending.
    Perform(Action, Pending),
}

pub enum PendingView {
    GetSpells,
    GetSpell { nanoid: Seq<char> },
    PostSpellLookup { user_id: i32, request: SpellContent },
    PostSpellInsert,
    UpdateSpellLookup { user_id: i32, nanoid: Seq<char>, changes: SpellChanges },
    UpdateSpellWrite { nanoid: Seq<char> },
    DeleteSpell { nanoid: Seq<char> },
    PublishLookup { user_id: i32, nanoid: Seq<char> },
    PublishWrite { name: Seq<char> },
    UnpublishLookup { user_id: i32, nanoid: Seq<char> },
    UnpublishWrite { name: Seq<char> },
    QuerySpells,
    QueryPublicSpells,
    CopyFetch { user_id: i32, nanoid: Seq<char> },
    CopyLookup { user_id: i32, spell: SpellView },
    CopyInsert,
    PostUser { username: Seq<char>, key: Seq<char> },
}

pub enum StepView {
    Respond(ResponseView),
    Perform(ActionView, PendingView),
}

impl View for Pending {
    type V = PendingView;

    open spec fn view(&self) -> PendingView {
        match self {
            Pending::GetSpells => PendingView::GetSpells,
            Pending::GetSpell { nanoid } => PendingView::GetSpell { nanoid: nanoid@ },
            Pending::PostSpellLookup { user_id, request } => PendingView::PostSpellLookup {
                user_id: *user_id,
                request: request@,
            },
            Pending::PostSpellInsert => PendingView::PostSpellInsert,
            Pending::UpdateSpellLookup { user_id, nanoid, changes } => {
                PendingView::UpdateSpellLookup {
                    user_id: *user_id,
                    nanoid: nanoid@,
                    changes: changes@,
                }
            },
            Pending::UpdateSpellWrite { nanoid } => PendingView::UpdateSpellWrite {
                nanoid: nanoid@,
            },
            Pending::DeleteSpell { nanoid } => PendingView::DeleteSpell { nanoid: nanoid@ },
            Pending::PublishLookup { user_id, nanoid } => PendingView::PublishLookup {
                user_id: *user_id,
                nanoid: nanoid@,
            },
            Pending::PublishWrite { name } => PendingView::PublishWrite { name: name@ },
            Pending::UnpublishLookup { user_id, nanoid } => PendingView::UnpublishLookup {
                user_id: *user_id,
                nanoid: nanoid@,
            },
            Pending::UnpublishWrite { name } => PendingView::UnpublishWrite { name: name@ },
            Pending::QuerySpells => PendingView::QuerySpells,
            Pending::QueryPublicSpells => PendingView::QueryPublicSpells,
            Pending::CopyFetch { user_id, nanoid } => PendingView::CopyFetch {
                user_id: *user_id,
                nanoid: nanoid@,
            },
            Pending::CopyLookup { user_id, spell } => PendingView::CopyLookup {
                user_id: *user_id,
                spell: spell@,
            },
            Pending::CopyInsert => PendingView::CopyInsert,
            Pending::PostUser { username, key } => PendingView::PostUser {
                username: username@,
                key: key@,
            },
        }
    }
}

impl View for Step {
    type V = StepView;

    open spec fn view(&self) -> StepView {
        match self {
            Step::Respond(response) => StepView::Respond(response@),
            Step::Perform(action, pending) => StepView::Perform(action@, pending@),
        }
    }
}

/// Whether the next step stores a new row, which needs a fresh handle:
/// when a name was looked up for a new spell or a copy, and no row came
/// back.
pub open spec fn needs_nanoid(pending: PendingView, event: EventView) -> bool {
    (pending is PostSpellLookup || pending is CopyLookup) && !(event is Spell)
}

/// The step that follows the store's answer. `nanoid` is the handle for a
/// row that the step stores; it plays no part unless [`needs_nanoid`].
pub open spec fn next_step(pending: PendingView, event: EventView, nanoid: Seq<char>) -> StepView {
    match pending {
        PendingView::GetSpells => spells::spells_listed(event),
        PendingView::GetSpell { nanoid: asked } => spells::spell_fetched(asked, event),
        PendingView::PostSpellLookup { user_id, request } => spells::new_name_looked_up(
            user_id,
            request,
            event,
            nanoid,
        ),
        PendingView::PostSpellInsert => spells::new_spell_stored(event),
        PendingView::UpdateSpellLookup { user_id, nanoid: asked, changes } => {
            spells::changed_name_looked_up(user_id, asked, changes, event)
        },
        PendingView::UpdateSpellWrite { nanoid: asked } => spells::changes_stored(asked, event),
        PendingView::DeleteSpell { nanoid: asked } => spells::spell_erased(asked, event),
        PendingView::PublishLookup { user_id, nanoid: asked } => spells::fetched_to_publish(
            user_id,
            asked,
            event,
        ),
        PendingView::PublishWrite { name } => spells::publication_stored(name, event),
        PendingView::UnpublishLookup { user_id, nanoid: asked } => spells::fetched_to_unpublish(
            user_id,
            asked,
            event,
        ),
        PendingView::UnpublishWrite { name } => spells::withdrawal_stored(name, event),
        PendingView::QuerySpells => spells::spells_found(event),
        PendingView::QueryPublicSpells => spells::public_spells_found(event),
        PendingView::CopyFetch { user_id, nanoid: asked } => spells::public_spell_fetched(
            user_id,
            asked,
            event,
        ),
        PendingView::CopyLookup { user_id, spell } => spells::copied_name_looked_up(
            user_id,
            spell,
            event,
            nanoid,
        ),
        PendingView::CopyInsert => spells::copy_stored(event),
        PendingView::PostUser { username, key } => users::user_stored(username, key, event),
    }
}

/// The step that follows the store's answer, for a given fresh handle.
pub fn resume_with(pending: Pending, event: Event, nanoid: String) -> (step: Step)
    ensures
        step@ == next_step(pending@, event@, nanoid@),
{
    match pending {
        Pending::GetSpells => spells::on_spells_listed(event),
        Pending::GetSpell { nanoid: asked } => spells::on_spell_fetched(asked, event),
        Pending::PostSpellLookup { user_id, request } => spells::on_new_name_looked_up(
            user_id,
            request,
            event,
            nanoid,
        ),
        Pending::PostSpellInsert => spells::on_new_spell_stored(event),
        Pending::UpdateSpellLookup { user_id, nanoid: asked, changes } => {
            spells::on_changed_name_looked_up(user_id, asked, changes, event)
        },
        Pending::UpdateSpellWrite { nanoid: asked } => spells::on_changes_stored(asked, event),
        Pending::DeleteSpell { nanoid: asked } => spells::on_spell_erased(asked, event),
        Pending::PublishLookup { user_id, nanoid: asked } => spells::on_fetched_to_publish(
            user_id,
            asked,
            event,
        ),
        Pending::PublishWrite { name } => spells::on_publication_stored(name, event),
        Pending::UnpublishLookup { user_id, nanoid: asked } => spells::on_fetched_to_unpublish(
            user_id,
            asked,
            event,
        ),
        Pending::UnpublishWrite { name } => spells::on_withdrawal_stored(name, event),
        Pending::QuerySpells => spells::on_spells_found(event),
        Pending::QueryPublicSpells => spells::on_public_spells_found(event),
        Pending::CopyFetch { user_id, nanoid: asked } => spells::on_public_spell_fetched(
            user_id,
            asked,
            event,
        ),
        Pending::CopyLookup { user_id, spell } => spells::on_copied_name_looked_up(
            user_id,
            spell,
            event,
            nanoid,
        ),
        Pending::CopyInsert => spells::on_copy_stored(event),
        Pending::PostUser { username, key } => users::on_user_stored(username, key, event),
    }
}

/// The step that follows the store's answer. Where the step stores a new
/// row, the row gets a fresh handle.
pub fn resume(pending: Pending, event: Event) -> (step: Step)
    ensures
        exists|nanoid: Seq<char>|
            is_nanoid(nanoid) && step@ == #[trigger] next_step(pending@, event@, nanoid),
{
    let fresh = match (&pending, &event) {
        (Pending::PostSpellLookup { .. }, Event::Spell(_)) => false,
        (Pending::CopyLookup { .. }, Event::Spell(_)) => false,
        (Pending::PostSpellLookup { .. }, _) => true,
        (Pending::CopyLookup { .. }, _) => true,
        _ => false,
    };
    assert(fresh == needs_nanoid(pending@, event@));
    if fresh {
        let nanoid = new_nanoid();
        resume_with(pending, event, nanoid)
    } else {
        let ghost any = Seq::new(21, |i: int| '_');
        assert(is_nanoid(any));
        assert(next_step(pending@, event@, any) == next_step(pending@, event@, Seq::empty()));
        resume_with(pending, event, String::new())
    }
}

} // verus!
