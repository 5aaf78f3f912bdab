//! The endpoints on spells. For each endpoint there is the function that
//! takes the request, and for each answer of the store that it waits for a
//! pair: a specification that says what follows the answer, and the
//! function that decides so.

use crate::errors::RepositoryError;
use crate::handlers::{Pending, PendingView, Step, StepView};
use crate::models::spells::{
    NewSpell, NewSpellView, Spell, SpellChanges, SpellContent, SpellView, UpdatedSpell,
};
use crate::repositories;
use crate::repositories::spells::{change_of, own_filters, public_filters};
use crate::repositories::{ActionView, Event, EventView};
use crate::requests::spells::{
    CreateSpellRequest, DeleteSpellRequest, GetPublicSpellRequest, GetSpellRequest,
    QueryPublicSpellsRequest, QuerySpellsRequest, UpdateSpellRequest, UpdateSpellRequestView,
};
use crate::resources::spells::{collection_of, public_collection_of, resource_of};
use crate::responses::{Body, Response, ResponseView, Status};
use crate::text::join3;
use crate::validators::spells::{validation, validation_of_changes};
use crate::{IntoCollection, IntoResource, Validate};
use vstd::prelude::*;
use vstd::string::*;

verus! {

// ------------------------------------------------------------ what is said

/// Said where a caller names a spell that is not theirs or does not exist.
pub open spec fn not_in_spellbook(nanoid: Seq<char>) -> Seq<char> {
    "You don't have a spell with the id \""@ + nanoid + "\" in your spellbook"@
}

/// The same, as the endpoints that change or erase a spell say it: with a
/// full stop.
pub open spec fn not_in_spellbook_stop(nanoid: Seq<char>) -> Seq<char> {
    "You don't have a spell with the id \""@ + nanoid + "\" in your spellbook."@
}

/// Said where a caller already has a spell of the name, in whatever case.
pub open spec fn name_taken(name: Seq<char>) -> Seq<char> {
    "You already have a spell with the name \""@ + name + "\" in your spellbook."@
}

/// The same, as the endpoint that copies a public spell says it: without
/// the full stop.
pub open spec fn name_taken_by_copy(name: Seq<char>) -> Seq<char> {
    "You already have a spell with the name \""@ + name + "\" in your spellbook"@
}

/// Said where a spell is to be published that is published.
pub open spec fn already_published(name: Seq<char>) -> Seq<char> {
    "Your spell \""@ + name + "\" is already published"@
}

/// Said once a spell is published.
pub open spec fn now_published(name: Seq<char>) -> Seq<char> {
    "Your spell \""@ + name + "\" was successfully published"@
}

/// Said where a spell is to be withdrawn that is not published.
pub open spec fn not_public(name: Seq<char>) -> Seq<char> {
    "Your spell \""@ + name + "\" is not public"@
}

/// Said once a spell is withdrawn.
pub open spec fn now_unpublished(name: Seq<char>) -> Seq<char> {
    "Your spell \""@ + name + "\" was successfully unpublished"@
}

/// Said where no published spell has the handle.
pub open spec fn no_public_spell(nanoid: Seq<char>) -> Seq<char> {
    "A public spell with the id \""@ + nanoid + "\" does not exist"@
}

fn say_not_in_spellbook(nanoid: &String) -> (text: String)
    ensures
        text@ == not_in_spellbook(nanoid@),
{
    join3("You don't have a spell with the id \"", nanoid.as_str(), "\" in your spellbook")
}

fn say_not_in_spellbook_stop(nanoid: &String) -> (text: String)
    ensures
        text@ == not_in_spellbook_stop(nanoid@),
{
    join3("You don't have a spell with the id \"", nanoid.as_str(), "\" in your spellbook.")
}

fn say_name_taken(name: &String) -> (text: String)
    ensures
        text@ == name_taken(name@),
{
    join3("You already have a spell with the name \"", name.as_str(), "\" in your spellbook.")
}

fn say_name_taken_by_copy(name: &String) -> (text: String)
    ensures
        text@ == name_taken_by_copy(name@),
{
    join3("You already have a spell with the name \"", name.as_str(), "\" in your spellbook")
}

fn say_already_published(name: &String) -> (text: String)
    ensures
        text@ == already_published(name@),
{
    join3("Your spell \"", name.as_str(), "\" is already published")
}

fn say_now_published(name: &String) -> (text: String)
    ensures
        text@ == now_published(name@),
{
    join3("Your spell \"", name.as_str(), "\" was successfully published")
}

fn say_not_public(name: &String) -> (text: String)
    ensures
        text@ == not_public(name@),
{
    join3("Your spell \"", name.as_str(), "\" is not public")
}

fn say_now_unpublished(name: &String) -> (text: String)
    ensures
        text@ == now_unpublished(name@),
{
    join3("Your spell \"", name.as_str(), "\" was successfully unpublished")
}

fn say_no_public_spell(nanoid: &String) -> (text: String)
    ensures
        text@ == no_public_spell(nanoid@),
{
    join3("A public spell with the id \"", nanoid.as_str(), "\" does not exist")
}

// ------------------------------------------------------------ how it ends

/// The step that answers in plain text.
pub open spec fn respond(status: Status, text: Seq<char>) -> StepView {
    StepView::Respond(ResponseView::text(status, text))
}

/// The step that shows one row to its owner.
pub open spec fn shown(row: SpellView) -> StepView {
    StepView::Respond(ResponseView::spell(resource_of(row)))
}

/// The step that shows a list of rows to their owner.
pub open spec fn listed(rows: Seq<SpellView>) -> StepView {
    StepView::Respond(ResponseView::spells(collection_of(rows)))
}

/// The step that tells of a failure of the store. The caller learns no
/// more than which operation failed.
pub open spec fn failed(text: Seq<char>) -> StepView {
    respond(Status::InternalServerError, text)
}

pub(crate) fn answer(status: Status, text: String) -> (step: Step)
    ensures
        step@ == respond(status, text@),
{
    Step::Respond(Response::text(status, text))
}

pub(crate) fn fail(text: &str) -> (step: Step)
    ensures
        step@ == failed(text@),
{
    Step::Respond(Response::fixed(Status::InternalServerError, text))
}

fn show(row: Spell) -> (step: Step)
    ensures
        step@ == shown(row@),
{
    Step::Respond(Response { status: Status::Success, body: Body::Spell(row.into_resource()) })
}

fn list(rows: Vec<Spell>) -> (step: Step)
    ensures
        step@ == listed(crate::resources::spells::spell_views(rows@)),
{
    Step::Respond(Response { status: Status::Success, body: Body::Spells(rows.into_collection()) })
}

// ------------------------------------------------------------ list

/// Lists the caller's spells.
pub fn get_spells(user_id: i32) -> (step: Step)
    ensures
        step@ == StepView::Perform(ActionView::GetSpells { user_id }, PendingView::GetSpells),
{
    Step::Perform(repositories::spells::get_spells(user_id), Pending::GetSpells)
}

/// After the list was asked for: the rows as resources, or a failure.
pub open spec fn spells_listed(event: EventView) -> StepView {
    match event {
        EventView::Spells(rows) => listed(rows),
        _ => failed("Failed to retrieve spells"@),
    }
}

/// Decides as [`spells_listed`] says.
pub fn on_spells_listed(event: Event) -> (step: Step)
    ensures
        step@ == spells_listed(event@),
{
    match event {
        Event::Spells(rows) => list(rows),
        _ => fail("Failed to retrieve spells"),
    }
}

// ------------------------------------------------------------ fetch

/// Shows one of the caller's spells.
pub fn get_spell(user_id: i32, request: GetSpellRequest) -> (step: Step)
    ensures
        step@ == StepView::Perform(
            ActionView::GetSpellByNanoid { user_id, nanoid: request@ },
            PendingView::GetSpell { nanoid: request@ },
        ),
{
    let action = repositories::spells::get_spell_by_nanoid(user_id, request.nanoid.as_str());
    Step::Perform(action, Pending::GetSpell { nanoid: request.nanoid })
}

/// After one spell was asked for: the row as a resource, `404` where there
/// is none, or a failure.
pub open spec fn spell_fetched(nanoid: Seq<char>, event: EventView) -> StepView {
    match event {
        EventView::Spell(row) => shown(row),
        EventView::Failed(RepositoryError::NotFound) => respond(
            Status::NotFound,
            not_in_spellbook(nanoid),
        ),
        _ => failed("Failed to retrieve spell"@),
    }
}

/// Decides as [`spell_fetched`] says.
pub fn on_spell_fetched(nanoid: String, event: Event) -> (step: Step)
    ensures
        step@ == spell_fetched(nanoid@, event@),
{
    match event {
        Event::Spell(row) => show(row),
        Event::Failed(RepositoryError::NotFound) => answer(
            Status::NotFound,
            say_not_in_spellbook(&nanoid),
        ),
        _ => fail("Failed to retrieve spell"),
    }
}

// ------------------------------------------------------------ create

/// The row that a submitted spell becomes: owned by the caller, not
/// published, under the given handle.
pub open spec fn new_spell_of(user_id: i32, request: SpellContent, nanoid: Seq<char>)
    -> NewSpellView {
    NewSpellView { content: request, user_id, published: false, nanoid }
}

/// What a submitted spell leads to first: a refusal where a field breaks a
/// rule, else the question whether the caller has a spell of that name.
pub open spec fn spell_submitted(user_id: i32, request: SpellContent) -> StepView {
    match validation(request) {
        Err(e) => respond(Status::UnprocessableEntity, e.message()),
        Ok(_) => StepView::Perform(
            ActionView::GetSpellByName { user_id, name: request.name },
            PendingView::PostSpellLookup { user_id, request },
        ),
    }
}

/// Adds a spell to the caller's spellbook.
pub fn post_spell(user_id: i32, request: CreateSpellRequest) -> (step: Step)
    ensures
        step@ == spell_submitted(user_id, request@),
{
    match request.validate() {
        Err(e) => answer(Status::UnprocessableEntity, e.message()),
        Ok(_) => {
            let action = repositories::spells::get_spell_by_name(user_id, request.name.as_str());
            Step::Perform(action, Pending::PostSpellLookup { user_id, request })
        },
    }
}

/// After the name of a new spell was looked up: a refusal where a row came
/// back, else the new row is stored. The refusal quotes the name as the
/// stored row has it.
pub open spec fn new_name_looked_up(
    user_id: i32,
    request: SpellContent,
    event: EventView,
    nanoid: Seq<char>,
) -> StepView {
    match event {
        EventView::Spell(found) => respond(
            Status::UnprocessableEntity,
            name_taken(found.content.name),
        ),
        _ => StepView::Perform(
            ActionView::InsertSpell { new_spell: new_spell_of(user_id, request, nanoid) },
            PendingView::PostSpellInsert,
        ),
    }
}

/// Decides as [`new_name_looked_up`] says.
pub fn on_new_name_looked_up(
    user_id: i32,
    request: CreateSpellRequest,
    event: Event,
    nanoid: String,
) -> (step: Step)
    ensures
        step@ == new_name_looked_up(user_id, request@, event@, nanoid@),
{
    match event {
        Event::Spell(found) => answer(Status::UnprocessableEntity, say_name_taken(&found.name)),
        _ => {
            let new_spell = NewSpell {
                name: request.name,
                level: request.level,
                casting_time: request.casting_time,
                magic_school: request.magic_school,
                concentration: request.concentration,
                range: request.range,
                duration: request.duration,
                description: request.description,
                user_id,
                published: false,
                nanoid,
            };
            Step::Perform(repositories::spells::insert_spell(new_spell), Pending::PostSpellInsert)
        },
    }
}

/// After a new spell was stored: the row as a resource, or a failure.
pub open spec fn new_spell_stored(event: EventView) -> StepView {
    match event {
        EventView::Spell(row) => shown(row),
        _ => failed("Failed to insert spell"@),
    }
}

/// Decides as [`new_spell_stored`] says.
pub fn on_new_spell_stored(event: Event) -> (step: Step)
    ensures
        step@ == new_spell_stored(event@),
{
    match event {
        Event::Spell(row) => show(row),
        _ => fail("Failed to insert spell"),
    }
}

// ------------------------------------------------------------ update

/// The call that changes a spell, and what is pending after it.
pub open spec fn store_changes(user_id: i32, nanoid: Seq<char>, changes: SpellChanges)
    -> StepView {
    StepView::Perform(
        change_of(user_id, nanoid, changes),
        PendingView::UpdateSpellWrite { nanoid },
    )
}

/// What submitted changes lead to first: a refusal where a field that is
/// present breaks a rule; where a new name is among them, the question
/// whether the caller has a spell of that name; else the changes are
/// stored.
pub open spec fn changes_submitted(user_id: i32, request: UpdateSpellRequestView) -> StepView {
    match validation_of_changes(request.changes) {
        Err(e) => respond(Status::UnprocessableEntity, e.message()),
        Ok(_) => match request.changes.name {
            Some(name) => StepView::Perform(
                ActionView::GetSpellByName { user_id, name },
                PendingView::UpdateSpellLookup {
                    user_id,
                    nanoid: request.nanoid,
                    changes: request.changes,
                },
            ),
            None => store_changes(user_id, request.nanoid, request.changes),
        },
    }
}

fn perform_update(user_id: i32, nanoid: String, changes: UpdatedSpell) -> (step: Step)
    ensures
        step@ == store_changes(user_id, nanoid@, changes@),
{
    let action = repositories::spells::update_spell(user_id, nanoid.as_str(), changes);
    Step::Perform(action, Pending::UpdateSpellWrite { nanoid })
}

/// Changes one of the caller's spells.
pub fn update_spell(user_id: i32, request: UpdateSpellRequest) -> (step: Step)
    ensures
        step@ == changes_submitted(user_id, request@),
{
    match request.validate() {
        Err(e) => answer(Status::UnprocessableEntity, e.message()),
        Ok(_) => {
            let changes = UpdatedSpell::from_request(&request);
            match &request.updated_spell.name {
                Some(name) => {
                    let action = repositories::spells::get_spell_by_name(user_id, name.as_str());
                    Step::Perform(
                        action,
                        Pending::UpdateSpellLookup { user_id, nanoid: request.nanoid, changes },
                    )
                },
                None => perform_update(user_id, request.nanoid, changes),
            }
        },
    }
}

/// After a new name was looked up: a refusal where another row of the
/// caller has it; else the changes are stored. A row that has the name and
/// is the one to change is no obstacle.
pub open spec fn changed_name_looked_up(
    user_id: i32,
    nanoid: Seq<char>,
    changes: SpellChanges,
    event: EventView,
) -> StepView {
    match event {
        EventView::Spell(found) if found.nanoid != nanoid => respond(
            Status::UnprocessableEntity,
            name_taken(found.content.name),
        ),
        _ => store_changes(user_id, nanoid, changes),
    }
}

/// Decides as [`changed_name_looked_up`] says.
pub fn on_changed_name_looked_up(
    user_id: i32,
    nanoid: String,
    changes: UpdatedSpell,
    event: Event,
) -> (step: Step)
    ensures
        step@ == changed_name_looked_up(user_id, nanoid@, changes@, event@),
{
    if let Event::Spell(found) = event {
        if !(found.nanoid == nanoid) {
            return answer(Status::UnprocessableEntity, say_name_taken(&found.name));
        }
    }
    perform_update(user_id, nanoid, changes)
}

/// After changes were stored: the row as a resource, `404` where there is
/// none, or a failure.
pub open spec fn changes_stored(nanoid: Seq<char>, event: EventView) -> StepView {
    match event {
        EventView::Spell(row) => shown(row),
        EventView::Failed(RepositoryError::NotFound) => respond(
            Status::NotFound,
            not_in_spellbook_stop(nanoid),
        ),
        _ => failed("Failed to update spell"@),
    }
}

/// Decides as [`changes_stored`] says.
pub fn on_changes_stored(nanoid: String, event: Event) -> (step: Step)
    ensures
        step@ == changes_stored(nanoid@, event@),
{
    match event {
        Event::Spell(row) => show(row),
        Event::Failed(RepositoryError::NotFound) => answer(
            Status::NotFound,
            say_not_in_spellbook_stop(&nanoid),
        ),
        _ => fail("Failed to update spell"),
    }
}

// ------------------------------------------------------------ delete

/// Erases one of the caller's spells.
pub fn delete_spell(user_id: i32, request: DeleteSpellRequest) -> (step: Step)
    ensures
        step@ == StepView::Perform(
            ActionView::DeleteSpell { user_id, nanoid: request@ },
            PendingView::DeleteSpell { nanoid: request@ },
        ),
{
    let action = repositories::spells::delete_spell(user_id, request.nanoid.as_str());
    Step::Perform(action, Pending::DeleteSpell { nanoid: request.nanoid })
}

/// After a spell was to be erased: success where exactly one row went,
/// `404` for any other count, or a failure.
pub open spec fn spell_erased(nanoid: Seq<char>, event: EventView) -> StepView {
    match event {
        EventView::Deleted(count) => if count == 1 {
            respond(Status::Success, "The spell was successfully erased from your spellbook"@)
        } else {
            respond(Status::NotFound, not_in_spellbook_stop(nanoid))
        },
        _ => failed("Failed to erase spell"@),
    }
}

/// Decides as [`spell_erased`] says.
pub fn on_spell_erased(nanoid: String, event: Event) -> (step: Step)
    ensures
        step@ == spell_erased(nanoid@, event@),
{
    match event {
        Event::Deleted(count) => if count == 1 {
            answer(
                Status::Success,
                String::from_str("The spell was successfully erased from your spellbook"),
            )
        } else {
            answer(Status::NotFound, say_not_in_spellbook_stop(&nanoid))
        },
        _ => fail("Failed to erase spell"),
    }
}

// ------------------------------------------------------------ publish

/// Opens one of the caller's spells to the public pool.
pub fn publish_spell(user_id: i32, nanoid: String) -> (step: Step)
    ensures
        step@ == StepView::Perform(
            ActionView::GetSpellByNanoid { user_id, nanoid: nanoid@ },
            PendingView::PublishLookup { user_id, nanoid: nanoid@ },
        ),
{
    let action = repositories::spells::get_spell_by_nanoid(user_id, nanoid.as_str());
    Step::Perform(action, Pending::PublishLookup { user_id, nanoid })
}

/// After the spell to publish was fetched: a refusal where it is published
/// already, else the flag is set; `404` where there is no such spell.
pub open spec fn fetched_to_publish(user_id: i32, nanoid: Seq<char>, event: EventView)
    -> StepView {
    match event {
        EventView::Spell(row) => if row.published {
            respond(Status::UnprocessableEntity, already_published(row.content.name))
        } else {
            StepView::Perform(
                ActionView::PublishSpell { user_id, nanoid, publish: true },
                PendingView::PublishWrite { name: row.content.name },
            )
        },
        EventView::Failed(RepositoryError::NotFound) => respond(
            Status::NotFound,
            not_in_spellbook(nanoid),
        ),
        _ => failed("Failed to retrieve spell"@),
    }
}

/// Decides as [`fetched_to_publish`] says.
pub fn on_fetched_to_publish(user_id: i32, nanoid: String, event: Event) -> (step: Step)
    ensures
        step@ == fetched_to_publish(user_id, nanoid@, event@),
{
    match event {
        Event::Spell(row) => if row.published {
            answer(Status::UnprocessableEntity, say_already_published(&row.name))
        } else {
            let action = repositories::spells::publish_spell(user_id, nanoid.as_str(), true);
            Step::Perform(action, Pending::PublishWrite { name: row.name })
        },
        Event::Failed(RepositoryError::NotFound) => answer(
            Status::NotFound,
            say_not_in_spellbook(&nanoid),
        ),
        _ => fail("Failed to retrieve spell"),
    }
}

/// After the flag was to be set: a confirmation, or a failure.
pub open spec fn publication_stored(name: Seq<char>, event: EventView) -> StepView {
    match event {
        EventView::Spell(_) => respond(Status::Success, now_published(name)),
        _ => failed("Failed to publish spell"@),
    }
}

/// Decides as [`publication_stored`] says.
pub fn on_publication_stored(name: String, event: Event) -> (step: Step)
    ensures
        step@ == publication_stored(name@, event@),
{
    match event {
        Event::Spell(_) => answer(Status::Success, say_now_published(&name)),
        _ => fail("Failed to publish spell"),
    }
}

// ------------------------------------------------------------ unpublish

/// Withdraws one of the caller's spells from the public pool.
pub fn unpublish_spell(user_id: i32, nanoid: String) -> (step: Step)
    ensures
        step@ == StepView::Perform(
            ActionView::GetSpellByNanoid { user_id, nanoid: nanoid@ },
            PendingView::UnpublishLookup { user_id, nanoid: nanoid@ },
        ),
{
    let action = repositories::spells::get_spell_by_nanoid(user_id, nanoid.as_str());
    Step::Perform(action, Pending::UnpublishLookup { user_id, nanoid })
}

/// After the spell to withdraw was fetched: a refusal where it is not
/// published, else the flag is cleared; `404` where there is no such
/// spell.
pub open spec fn fetched_to_unpublish(user_id: i32, nanoid: Seq<char>, event: EventView)
    -> StepView {
    match event {
        EventView::Spell(row) => if !row.published {
            respond(Status::UnprocessableEntity, not_public(row.content.name))
        } else {
            StepView::Perform(
                ActionView::PublishSpell { user_id, nanoid, publish: false },
                PendingView::UnpublishWrite { name: row.content.name },
            )
        },
        EventView::Failed(RepositoryError::NotFound) => respond(
            Status::NotFound,
            not_in_spellbook(nanoid),
        ),
        _ => failed("Failed to retrieve spell"@),
    }
}

/// Decides as [`fetched_to_unpublish`] says.
pub fn on_fetched_to_unpublish(user_id: i32, nanoid: String, event: Event) -> (step: Step)
    ensures
        step@ == fetched_to_unpublish(user_id, nanoid@, event@),
{
    match event {
        Event::Spell(row) => if !row.published {
            answer(Status::UnprocessableEntity, say_not_public(&row.name))
        } else {
            let action = repositories::spells::publish_spell(user_id, nanoid.as_str(), false);
            Step::Perform(action, Pending::UnpublishWrite { name: row.name })
        },
        Event::Failed(RepositoryError::NotFound) => answer(
            Status::NotFound,
            say_not_in_spellbook(&nanoid),
        ),
        _ => fail("Failed to retrieve spell"),
    }
}

/// After the flag was to be cleared: a confirmation, or a failure.
pub open spec fn withdrawal_stored(name: Seq<char>, event: EventView) -> StepView {
    match event {
        EventView::Spell(_) => respond(Status::Success, now_unpublished(name)),
        _ => failed("Failed to unpublish spell"@),
    }
}

/// Decides as [`withdrawal_stored`] says.
pub fn on_withdrawal_stored(name: String, event: Event) -> (step: Step)
    ensures
        step@ == withdrawal_stored(name@, event@),
{
    match event {
        Event::Spell(_) => answer(Status::Success, say_now_unpublished(&name)),
        _ => fail("Failed to unpublish spell"),
    }
}

// ------------------------------------------------------------ search

/// Searches the caller's spellbook.
pub fn query_spells(user_id: i32, request: QuerySpellsRequest) -> (step: Step)
    ensures
        step@ == StepView::Perform(
            ActionView::QuerySpells { filters: own_filters(user_id, request@) },
            PendingView::QuerySpells,
        ),
{
    Step::Perform(repositories::spells::query_spells(user_id, &request), Pending::QuerySpells)
}

/// After the caller's spellbook was searched: the rows as resources, or a
/// failure.
pub open spec fn spells_found(event: EventView) -> StepView {
    match event {
        EventView::Spells(rows) => listed(rows),
        _ => failed("Failed to query spells"@),
    }
}

/// Decides as [`spells_found`] says.
pub fn on_spells_found(event: Event) -> (step: Step)
    ensures
        step@ == spells_found(event@),
{
    match event {
        Event::Spells(rows) => list(rows),
        _ => fail("Failed to query spells"),
    }
}

/// Searches the public pool. Who asks makes no difference to what is
/// found.
pub fn query_public_spells(user_id: i32, request: QueryPublicSpellsRequest) -> (step: Step)
    ensures
        step@ == StepView::Perform(
            ActionView::QueryPublicSpells { filters: public_filters(request@) },
            PendingView::QueryPublicSpells,
        ),
{
    Step::Perform(repositories::spells::query_public_spells(&request), Pending::QueryPublicSpells)
}

/// After the public pool was searched: the rows as public resources, or a
/// failure.
pub open spec fn public_spells_found(event: EventView) -> StepView {
    match event {
        EventView::PublicSpells(rows) => StepView::Respond(
            ResponseView::public_spells(public_collection_of(rows)),
        ),
        _ => failed("Failed to retrieve public spells"@),
    }
}

/// Decides as [`public_spells_found`] says.
pub fn on_public_spells_found(event: Event) -> (step: Step)
    ensures
        step@ == public_spells_found(event@),
{
    match event {
        Event::PublicSpells(rows) => Step::Respond(
            Response { status: Status::Success, body: Body::PublicSpells(rows.into_collection()) },
        ),
        _ => fail("Failed to retrieve public spells"),
    }
}

// ------------------------------------------------------------ copy

/// The row that a copy of a spell becomes: the same content, owned by the
/// caller, not published, under the given handle.
pub open spec fn copy_of(user_id: i32, spell: SpellView, nanoid: Seq<char>) -> NewSpellView {
    NewSpellView { content: spell.content, user_id, published: false, nanoid }
}

/// Copies a spell of the public pool into the caller's spellbook.
pub fn copy_public_spell(user_id: i32, request: GetPublicSpellRequest) -> (step: Step)
    ensures
        step@ == StepView::Perform(
            ActionView::GetPublicSpell { nanoid: request@ },
            PendingView::CopyFetch { user_id, nanoid: request@ },
        ),
{
    let action = repositories::spells::get_public_spell(request.nanoid.as_str());
    Step::Perform(action, Pending::CopyFetch { user_id, nanoid: request.nanoid })
}

/// After the public spell was asked for: the question whether the caller
/// has a spell of its name; `404` where no published spell has the handle.
pub open spec fn public_spell_fetched(user_id: i32, nanoid: Seq<char>, event: EventView)
    -> StepView {
    match event {
        EventView::Spell(spell) => StepView::Perform(
            ActionView::GetSpellByName { user_id, name: spell.content.name },
            PendingView::CopyLookup { user_id, spell },
        ),
        EventView::Failed(RepositoryError::NotFound) => respond(
            Status::NotFound,
            no_public_spell(nanoid),
        ),
        _ => failed("Failed to retrieve published spell"@),
    }
}

/// Decides as [`public_spell_fetched`] says.
pub fn on_public_spell_fetched(user_id: i32, nanoid: String, event: Event) -> (step: Step)
    ensures
        step@ == public_spell_fetched(user_id, nanoid@, event@),
{
    match event {
        Event::Spell(spell) => {
            let action = repositories::spells::get_spell_by_name(user_id, spell.name.as_str());
            Step::Perform(action, Pending::CopyLookup { user_id, spell })
        },
        Event::Failed(RepositoryError::NotFound) => answer(
            Status::NotFound,
            say_no_public_spell(&nanoid),
        ),
        _ => fail("Failed to retrieve published spell"),
    }
}

/// After the name of the copy was looked up: a refusal where a row came
/// back, else the copy is stored.
pub open spec fn copied_name_looked_up(
    user_id: i32,
    spell: SpellView,
    event: EventView,
    nanoid: Seq<char>,
) -> StepView {
    match event {
        EventView::Spell(found) => respond(
            Status::UnprocessableEntity,
            name_taken_by_copy(found.content.name),
        ),
        _ => StepView::Perform(
            ActionView::InsertSpell { new_spell: copy_of(user_id, spell, nanoid) },
            PendingView::CopyInsert,
        ),
    }
}

/// Decides as [`copied_name_looked_up`] says.
pub fn on_copied_name_looked_up(
    user_id: i32,
    spell: Spell,
    event: Event,
    nanoid: String,
) -> (step: Step)
    ensures
        step@ == copied_name_looked_up(user_id, spell@, event@, nanoid@),
{
    match event {
        Event::Spell(found) => answer(
            Status::UnprocessableEntity,
            say_name_taken_by_copy(&found.name),
        ),
        _ => {
            let copy = NewSpell {
                name: spell.name,
                level: spell.level,
                casting_time: spell.casting_time,
                magic_school: spell.magic_school,
                concentration: spell.concentration,
                range: spell.range,
                duration: spell.duration,
                description: spell.description,
                user_id,
                published: false,
                nanoid,
            };
            Step::Perform(repositories::spells::insert_spell(copy), Pending::CopyInsert)
        },
    }
}

/// After the copy was stored: the new row as a resource, or a failure.
pub open spec fn copy_stored(event: EventView) -> StepView {
    match event {
        EventView::Spell(row) => shown(row),
        _ => failed("Failed to copy spell"@),
    }
}

/// Decides as [`copy_stored`] says.
pub fn on_copy_stored(event: Event) -> (step: Step)
    ensures
        step@ == copy_stored(event@),
{
    match event {
        Event::Spell(row) => show(row),
        _ => fail("Failed to copy spell"),
    }
}

} // verus!
