//! A spell belongs to one account: only its owner changes or erases it,
//! only its owner is shown it while it is not published, and a copy is a
//! new spell of the one who copies.

use crate::catalog::{
    lemma_found_row_is_in_table, lemma_no_clash_in_place, lemma_position_of_handle, Catalog,
    Wanted,
};
use crate::handlers::spells::{copy_of, new_spell_of, not_in_spellbook_stop, respond};
use crate::handlers::{PendingView, StepView};
use crate::laws::consistency::lemma_store_stays_consistent;
use crate::laws::{caller, first_step, serve, Call};
use crate::models::spells::{SpellChanges, SpellContent, SpellView};
use crate::repositories::ActionView;
use crate::requests::spells::UpdateSpellRequestView;
use crate::resources::spells::{resource_of, SpellResourceView};
use crate::responses::{ResponseView, Status};
use crate::validators::spells::validation;
use vstd::prelude::*;

verus! {

/// Whether a step, and the steps that can follow it, store, change and
/// erase only spells of the given owner, and no account.
pub open spec fn acts_for(step: StepView, owner: i32) -> bool {
    match step {
        StepView::Respond(_) => true,
        StepView::Perform(action, pending) => {
            &&& !(action is InsertUser)
            &&& action matches ActionView::InsertSpell { new_spell } ==> new_spell.user_id
                == owner
            &&& action matches ActionView::UpdateSpell { user_id, .. } ==> user_id == owner
            &&& action matches ActionView::DeleteSpell { user_id, .. } ==> user_id == owner
            &&& action matches ActionView::PublishSpell { user_id, .. } ==> user_id == owner
            &&& pending matches PendingView::PostSpellLookup { user_id, .. } ==> user_id == owner
            &&& pending matches PendingView::UpdateSpellLookup { user_id, .. } ==> user_id
                == owner
            &&& pending matches PendingView::PublishLookup { user_id, .. } ==> user_id == owner
            &&& pending matches PendingView::UnpublishLookup { user_id, .. } ==> user_id == owner
            &&& pending matches PendingView::CopyFetch { user_id, .. } ==> user_id == owner
            &&& pending matches PendingView::CopyLookup { user_id, .. } ==> user_id == owner
            &&& !(pending is PostUser)
        },
    }
}

proof fn lemma_push_keeps_others(rows: Seq<SpellView>, added: SpellView, row: SpellView)
    requires
        added != row,
    ensures
        rows.contains(row) <==> rows.push(added).contains(row),
{
    if rows.contains(row) {
        let k = choose|k: int| 0 <= k < rows.len() && rows[k] == row;
        assert(rows.push(added)[k] == row);
    }
    if rows.push(added).contains(row) {
        let k = choose|k: int| 0 <= k < rows.push(added).len() && rows.push(added)[k] == row;
        assert(rows[k] == row);
    }
}

proof fn lemma_update_keeps_others(rows: Seq<SpellView>, i: int, changed: SpellView, row: SpellView)
    requires
        0 <= i < rows.len(),
        rows[i] != row,
        changed != row,
    ensures
        rows.contains(row) <==> rows.update(i, changed).contains(row),
{
    let after = rows.update(i, changed);
    if rows.contains(row) {
        let k = choose|k: int| 0 <= k < rows.len() && rows[k] == row;
        assert(after[k] == row);
    }
    if after.contains(row) {
        let k = choose|k: int| 0 <= k < after.len() && after[k] == row;
        assert(rows[k] == row);
    }
}

proof fn lemma_remove_keeps_others(rows: Seq<SpellView>, i: int, row: SpellView)
    requires
        0 <= i < rows.len(),
        rows[i] != row,
    ensures
        rows.contains(row) <==> rows.remove(i).contains(row),
{
    let after = rows.remove(i);
    if rows.contains(row) {
        let k = choose|k: int| 0 <= k < rows.len() && rows[k] == row;
        let moved = if k < i {
            k
        } else {
            k - 1
        };
        assert(after[moved] == row);
    }
    if after.contains(row) {
        let k = choose|k: int| 0 <= k < after.len() && after[k] == row;
        let origin = if k < i {
            k
        } else {
            k + 1
        };
        assert(rows[origin] == row);
    }
}

proof fn lemma_round_leaves_others_alone(
    catalog: Catalog,
    step: StepView,
    nanoid: Seq<char>,
    owner: i32,
    row: SpellView,
)
    requires
        acts_for(step, owner),
        row.user_id != owner,
    ensures
        acts_for(catalog.advance(step, nanoid).1, owner),
        catalog.advance(step, nanoid).0.users == catalog.users,
        catalog.spells.contains(row) <==> catalog.advance(step, nanoid).0.spells.contains(row),
{
    if let StepView::Perform(action, pending) = step {
        let after = catalog.perform(action).0;
        match action {
            ActionView::InsertSpell { new_spell } => {
                let stored = catalog.stored(new_spell);
                if after != catalog {
                    assert(after.spells == catalog.spells.push(stored));
                    lemma_push_keeps_others(catalog.spells, stored, row);
                }
            },
            ActionView::UpdateSpell { user_id, nanoid: asked, changes } => {
                let wanted = Wanted::Handle { user_id, nanoid: asked };
                if let Some(i) = catalog.position(wanted) {
                    assert(catalog.is_wanted_at(wanted, i));
                    let old_row = catalog.spells[i];
                    let new_row = SpellView { content: changes.apply(old_row.content), ..old_row };
                    if after != catalog {
                        assert(after.spells == catalog.spells.update(i, new_row));
                        lemma_update_keeps_others(catalog.spells, i, new_row, row);
                    }
                }
            },
            ActionView::PublishSpell { user_id, nanoid: asked, publish } => {
                let wanted = Wanted::Handle { user_id, nanoid: asked };
                if let Some(i) = catalog.position(wanted) {
                    assert(catalog.is_wanted_at(wanted, i));
                    let old_row = catalog.spells[i];
                    let new_row = SpellView { published: publish, ..old_row };
                    if after != catalog {
                        assert(after.spells == catalog.spells.update(i, new_row));
                        lemma_update_keeps_others(catalog.spells, i, new_row, row);
                    }
                }
            },
            ActionView::DeleteSpell { user_id, nanoid: asked } => {
                let wanted = Wanted::Handle { user_id, nanoid: asked };
                if let Some(i) = catalog.position(wanted) {
                    assert(catalog.is_wanted_at(wanted, i));
                    assert(after.spells == catalog.spells.remove(i));
                    lemma_remove_keeps_others(catalog.spells, i, row);
                }
            },
            ActionView::GetSpellByNanoid { user_id, nanoid: asked } => {
                lemma_found_row_is_in_table(catalog, Wanted::Handle { user_id, nanoid: asked });
            },
            _ => {},
        }
    }
}

/// A request on spells stores, changes and erases only spells of the
/// caller: every row of another owner is in the store afterwards exactly
/// if it was there before, and no account is made.
pub proof fn lemma_requests_touch_only_the_callers_spells(
    catalog: Catalog,
    call: Call,
    nanoid: Seq<char>,
    row: SpellView,
)
    requires
        caller(call) matches Some(owner) && row.user_id != owner,
    ensures
        serve(catalog, call, nanoid).0.users == catalog.users,
        catalog.spells.contains(row) <==> serve(catalog, call, nanoid).0.spells.contains(row),
{
    let owner = caller(call).unwrap();
    let step0 = first_step(call);
    assert(acts_for(step0, owner));
    lemma_round_leaves_others_alone(catalog, step0, nanoid, owner, row);
    let (first, step1) = catalog.advance(step0, nanoid);
    lemma_round_leaves_others_alone(first, step1, nanoid, owner, row);
    let (second, step2) = first.advance(step1, nanoid);
    lemma_round_leaves_others_alone(second, step2, nanoid, owner, row);
}

/// A caller who asks for a spell by its handle is shown it only if it is
/// the caller's own, and the store stays as it was.
pub proof fn lemma_fetch_shows_only_own_spells(
    catalog: Catalog,
    user_id: i32,
    nanoid: Seq<char>,
    fresh: Seq<char>,
)
    ensures
        ({
            let (after, step) = serve(catalog, Call::GetSpell { user_id, nanoid }, fresh);
            &&& after == catalog
            &&& step matches StepView::Respond(response)
            &&& response.status == Status::Success ==> exists|i: int|
                0 <= i < catalog.spells.len() && (#[trigger] catalog.spells[i]).user_id == user_id
                    && catalog.spells[i].nanoid == nanoid && response == ResponseView::spell(
                    resource_of(catalog.spells[i]),
                )
        }),
{
    let wanted = Wanted::Handle { user_id, nanoid };
    lemma_found_row_is_in_table(catalog, wanted);
    if let Some(i) = catalog.position(wanted) {
        assert(catalog.is_wanted_at(wanted, i));
    }
}

/// A successful copy of a public spell adds one row and changes no other.
/// The new row belongs to the caller, is not published, has the fresh
/// handle, which is not the handle of the public spell, and says what the
/// public spell says. The caller is shown the new row.
pub proof fn lemma_copy_is_a_private_twin(
    catalog: Catalog,
    user_id: i32,
    nanoid: Seq<char>,
    fresh: Seq<char>,
)
    requires
        catalog.is_consistent(),
    ensures
        ({
            let (after, step) = serve(catalog, Call::CopyPublicSpell { user_id, nanoid }, fresh);
            step matches StepView::Respond(response) && (response.status == Status::Success ==> {
                &&& catalog.position(Wanted::Public { nanoid }) matches Some(p)
                &&& catalog.spells[p].published
                &&& catalog.spells[p].nanoid == nanoid
                &&& after.spells.len() == catalog.spells.len() + 1
                &&& after.spells.drop_last() == catalog.spells
                &&& after.users == catalog.users
                &&& after.spells.last().user_id == user_id
                &&& after.spells.last().published == false
                &&& after.spells.last().nanoid == fresh
                &&& after.spells.last().nanoid != catalog.spells[p].nanoid
                &&& after.spells.last().content == catalog.spells[p].content
                &&& response == ResponseView::spell(resource_of(after.spells.last()))
            })
        }),
{
    let after = serve(catalog, Call::CopyPublicSpell { user_id, nanoid }, fresh).0;
    let wanted = Wanted::Public { nanoid };
    if let Some(p) = catalog.position(wanted) {
        assert(catalog.is_wanted_at(wanted, p));
        let public = catalog.spells[p];
        let taken = catalog.found(Wanted::Name { user_id, name: public.content.name });
        if !(taken is Spell) {
            let twin = catalog.stored(copy_of(user_id, public, fresh));
            if !catalog.clashes(twin, -1) && catalog.has_user(user_id) {
                assert(after.spells == catalog.spells.push(twin));
                assert(after.spells.drop_last() =~= catalog.spells);
                assert(!catalog.clash(catalog.spells[p], twin));
            }
        }
    }
}

/// After a spell was added, asking for it by the handle it got shows what
/// was submitted, not published.
pub proof fn lemma_created_spell_reads_back(
    catalog: Catalog,
    user_id: i32,
    request: SpellContent,
    fresh: Seq<char>,
    later: Seq<char>,
)
    requires
        catalog.is_consistent(),
    ensures
        ({
            let (after, step) = serve(catalog, Call::PostSpell { user_id, request }, fresh);
            let shown = ResponseView::spell(
                SpellResourceView { content: request, published: false },
            );
            step matches StepView::Respond(response) && (response.status == Status::Success ==> {
                &&& response == shown
                &&& serve(after, Call::GetSpell { user_id, nanoid: fresh }, later) == (
                    after,
                    StepView::Respond(shown),
                )
            })
        }),
{
    let after = serve(catalog, Call::PostSpell { user_id, request }, fresh).0;
    if validation(request) is Ok {
        let taken = catalog.found(Wanted::Name { user_id, name: request.name });
        if !(taken is Spell) {
            let new_spell = new_spell_of(user_id, request, fresh);
            let row = catalog.stored(new_spell);
            if !catalog.clashes(row, -1) && catalog.has_user(user_id) {
                lemma_store_stays_consistent(catalog, ActionView::InsertSpell { new_spell });
                assert(after.spells == catalog.spells.push(row));
                lemma_position_of_handle(after, user_id, fresh, catalog.spells.len() as int);
            }
        }
    }
}

/// An update that sets no field leaves the store as it was, row for row;
/// the caller is shown the row, or told that there is none.
pub proof fn lemma_empty_update_changes_nothing(
    catalog: Catalog,
    user_id: i32,
    nanoid: Seq<char>,
    fresh: Seq<char>,
)
    requires
        catalog.is_consistent(),
    ensures
        ({
            let request = UpdateSpellRequestView { nanoid, changes: SpellChanges::none() };
            let (after, step) = serve(catalog, Call::UpdateSpell { user_id, request }, fresh);
            &&& after == catalog
            &&& step == match catalog.position(Wanted::Handle { user_id, nanoid }) {
                Some(i) => StepView::Respond(ResponseView::spell(resource_of(catalog.spells[i]))),
                None => respond(Status::NotFound, not_in_spellbook_stop(nanoid)),
            }
        }),
{
    let wanted = Wanted::Handle { user_id, nanoid };
    if let Some(i) = catalog.position(wanted) {
        assert(catalog.is_wanted_at(wanted, i));
        let row = catalog.spells[i];
        let same = SpellView { content: SpellChanges::none().apply(row.content), ..row };
        assert(same == row);
        lemma_no_clash_in_place(catalog, i, row);
        assert(catalog.spells.update(i, row) =~= catalog.spells);
    }
}

} // verus!
