//! The store stays as it should be: its unique indexes and references hold
//! after every call, and the fields that the endpoints check stay well
//! formed after every request.

use crate::catalog::{
    lemma_found_row_is_in_table, lemma_owner_is_kept, Catalog, Wanted,
};
use crate::handlers::{PendingView, StepView};
use crate::laws::{first_step, serve, Call};
use crate::models::spells::{NewSpellView, SpellContent, SpellView};
use crate::repositories::ActionView;
use crate::validators::spells::{is_magic_school, is_spell_level, validation_of_changes};
use vstd::prelude::*;

verus! {

/// Whatever is asked of the store, it keeps its unique indexes and its
/// references: no two spells share a handle, no two spells of one owner
/// share a name in whatever case, every spell has an owner, and no two
/// accounts share a name.
pub proof fn lemma_store_stays_consistent(catalog: Catalog, action: ActionView)
    requires
        catalog.is_consistent(),
    ensures
        catalog.perform(action).0.is_consistent(),
{
    match action {
        ActionView::InsertSpell { new_spell } => {
            lemma_insert_keeps_consistent(catalog, new_spell);
        },
        ActionView::UpdateSpell { user_id, nanoid, changes } => {
            lemma_replace_keeps_consistent(
                catalog,
                Wanted::Handle { user_id, nanoid },
                |row: SpellView| SpellView { content: changes.apply(row.content), ..row },
            );
        },
        ActionView::PublishSpell { user_id, nanoid, publish } => {
            lemma_replace_keeps_consistent(
                catalog,
                Wanted::Handle { user_id, nanoid },
                |row: SpellView| SpellView { published: publish, ..row },
            );
        },
        ActionView::DeleteSpell { user_id, nanoid } => {
            lemma_delete_keeps_consistent(catalog, Wanted::Handle { user_id, nanoid });
        },
        ActionView::InsertUser { new_user } => {
            let after = catalog.insert_user(new_user).0;
            if after != catalog {
                assert(after.users == catalog.users.push(after.users.last()));
                assert forall|u: int| 0 <= u < catalog.users.len() implies (
                #[trigger] catalog.users[u]).username != new_user.username by {
                    assert(!catalog.is_named_at(new_user.username, u));
                }
                assert forall|i: int| 0 <= i < after.spells.len() implies after.has_user(
                    (#[trigger] after.spells[i]).user_id,
                ) by {
                    lemma_owner_is_kept(catalog, after, catalog.spells[i].user_id);
                }
            }
        },
        _ => {},
    }
}

proof fn lemma_insert_keeps_consistent(catalog: Catalog, new_spell: NewSpellView)
    requires
        catalog.is_consistent(),
    ensures
        catalog.insert_spell(new_spell).0.is_consistent(),
{
    let after = catalog.insert_spell(new_spell).0;
    let row = catalog.stored(new_spell);
    if !catalog.clashes(row, -1) && catalog.has_user(row.user_id) {
        let n = catalog.spells.len() as int;
        assert(after.spells == catalog.spells.push(row));
        assert forall|i: int| 0 <= i < n implies !catalog.clash(
            #[trigger] catalog.spells[i],
            row,
        ) by {}
        assert(after.handles_are_unique());
        assert(after.names_are_unique());
        assert forall|i: int| 0 <= i < after.spells.len() implies after.has_user(
            (#[trigger] after.spells[i]).user_id,
        ) by {
            if i < n {
                lemma_owner_is_kept(catalog, after, catalog.spells[i].user_id);
            } else {
                lemma_owner_is_kept(catalog, after, row.user_id);
            }
        }
    }
}

proof fn lemma_replace_keeps_consistent(
    catalog: Catalog,
    wanted: Wanted,
    change: spec_fn(SpellView) -> SpellView,
)
    requires
        catalog.is_consistent(),
        forall|row: SpellView| (#[trigger] change(row)).user_id == row.user_id,
    ensures
        catalog.replace(wanted, change).0.is_consistent(),
{
    let after = catalog.replace(wanted, change).0;
    if let Some(i) = catalog.position(wanted) {
        assert(catalog.is_wanted_at(wanted, i));
        let row = change(catalog.spells[i]);
        if !catalog.clashes(row, i) {
            assert(after.spells == catalog.spells.update(i, row));
            assert forall|k: int| 0 <= k < catalog.spells.len() && k != i implies !catalog.clash(
                #[trigger] catalog.spells[k],
                row,
            ) by {}
            assert(after.handles_are_unique());
            assert(after.names_are_unique());
            assert forall|k: int| 0 <= k < after.spells.len() implies after.has_user(
                (#[trigger] after.spells[k]).user_id,
            ) by {
                lemma_owner_is_kept(catalog, after, catalog.spells[k].user_id);
            }
        }
    }
}

/// The position in a table of the row that stands at `k` once the row at
/// `i` is taken out.
pub open spec fn before_removal(i: int, k: int) -> int {
    if k < i {
        k
    } else {
        k + 1
    }
}

proof fn lemma_delete_keeps_consistent(catalog: Catalog, wanted: Wanted)
    requires
        catalog.is_consistent(),
    ensures
        catalog.delete_spell(wanted).0.is_consistent(),
{
    let after = catalog.delete_spell(wanted).0;
    if let Some(i) = catalog.position(wanted) {
        assert(catalog.is_wanted_at(wanted, i));
        assert(after.spells == catalog.spells.remove(i));
        assert forall|k: int| 0 <= k < after.spells.len() implies #[trigger] after.spells[k]
            == catalog.spells[before_removal(i, k)] by {}
        assert forall|a: int, b: int|
            0 <= a < after.spells.len() && 0 <= b < after.spells.len() && a != b implies (
        #[trigger] after.spells[a]).nanoid != (#[trigger] after.spells[b]).nanoid by {
            let a0 = before_removal(i, a);
            let b0 = before_removal(i, b);
            assert(catalog.spells[a0].nanoid != catalog.spells[b0].nanoid);
        }
        assert forall|a: int, b: int|
            0 <= a < after.spells.len() && 0 <= b < after.spells.len() && a != b && (
            #[trigger] after.spells[a]).user_id == (
            #[trigger] after.spells[b]).user_id implies !after.same_name(
            after.spells[a].content.name,
            after.spells[b].content.name,
        ) by {
            let a0 = before_removal(i, a);
            let b0 = before_removal(i, b);
            assert(catalog.spells[a0].user_id == catalog.spells[b0].user_id);
        }
        assert forall|k: int| 0 <= k < after.spells.len() implies after.has_user(
            (#[trigger] after.spells[k]).user_id,
        ) by {
            lemma_owner_is_kept(catalog, after, catalog.spells[before_removal(i, k)].user_id);
        }
    }
}

/// Whether the level and the school of magic of a spell are well formed.
pub open spec fn has_valid_fields(content: SpellContent) -> bool {
    is_spell_level(content.level) && is_magic_school(content.magic_school)
}

/// Whether a step, and the steps that can follow it, store only spells
/// whose fields are well formed.
pub open spec fn stores_valid_fields(step: StepView) -> bool {
    match step {
        StepView::Respond(_) => true,
        StepView::Perform(action, pending) => {
            &&& action matches ActionView::InsertSpell { new_spell } ==> has_valid_fields(
                new_spell.content,
            )
            &&& action matches ActionView::UpdateSpell { changes, .. } ==> validation_of_changes(
                changes,
            ) is Ok
            &&& pending matches PendingView::PostSpellLookup { request, .. } ==> has_valid_fields(
                request,
            )
            &&& pending matches PendingView::UpdateSpellLookup { changes, .. }
                ==> validation_of_changes(changes) is Ok
            &&& pending matches PendingView::CopyLookup { spell, .. } ==> has_valid_fields(
                spell.content,
            )
        },
    }
}

proof fn lemma_round_keeps_well_formed(catalog: Catalog, step: StepView, nanoid: Seq<char>)
    requires
        catalog.well_formed(),
        stores_valid_fields(step),
    ensures
        catalog.advance(step, nanoid).0.well_formed(),
        stores_valid_fields(catalog.advance(step, nanoid).1),
{
    if let StepView::Perform(action, pending) = step {
        lemma_store_stays_consistent(catalog, action);
        let after = catalog.perform(action).0;
        match action {
            ActionView::GetSpellByNanoid { user_id, nanoid: asked } => {
                lemma_found_row_is_in_table(catalog, Wanted::Handle { user_id, nanoid: asked });
            },
            ActionView::GetSpellByName { user_id, name } => {
                lemma_found_row_is_in_table(catalog, Wanted::Name { user_id, name });
            },
            ActionView::GetPublicSpell { nanoid: asked } => {
                lemma_found_row_is_in_table(catalog, Wanted::Public { nanoid: asked });
            },
            ActionView::InsertSpell { new_spell } => {
                if after != catalog {
                    assert(after.spells == catalog.spells.push(catalog.stored(new_spell)));
                }
            },
            ActionView::UpdateSpell { user_id, nanoid: asked, changes } => {
                let wanted = Wanted::Handle { user_id, nanoid: asked };
                if let Some(i) = catalog.position(wanted) {
                    assert(catalog.is_wanted_at(wanted, i));
                    let old_row = catalog.spells[i];
                    let row = SpellView { content: changes.apply(old_row.content), ..old_row };
                    if after != catalog {
                        assert(after.spells == catalog.spells.update(i, row));
                        assert(has_valid_fields(old_row.content));
                        assert(has_valid_fields(row.content));
                    }
                }
            },
            ActionView::PublishSpell { user_id, nanoid: asked, publish } => {
                let wanted = Wanted::Handle { user_id, nanoid: asked };
                if let Some(i) = catalog.position(wanted) {
                    assert(catalog.is_wanted_at(wanted, i));
                    let old_row = catalog.spells[i];
                    let row = SpellView { published: publish, ..old_row };
                    if after != catalog {
                        assert(after.spells == catalog.spells.update(i, row));
                        assert(has_valid_fields(old_row.content));
                    }
                }
            },
            ActionView::DeleteSpell { user_id, nanoid: asked } => {
                let wanted = Wanted::Handle { user_id, nanoid: asked };
                if let Some(i) = catalog.position(wanted) {
                    assert(catalog.is_wanted_at(wanted, i));
                    assert(after.spells == catalog.spells.remove(i));
                    assert forall|k: int| 0 <= k < after.spells.len() implies has_valid_fields(
                        (#[trigger] after.spells[k]).content,
                    ) by {
                        assert(has_valid_fields(catalog.spells[before_removal(i, k)].content));
                    }
                }
            },
            _ => {},
        }
    }
}

/// Whatever a caller asks for, the store is left as it should be: no two
/// spells of one owner with the same name in whatever case, no two spells
/// with one handle, every spell with an owner, and every level and school
/// of magic well formed.
pub proof fn lemma_requests_keep_the_store_well_formed(
    catalog: Catalog,
    call: Call,
    nanoid: Seq<char>,
)
    requires
        catalog.well_formed(),
    ensures
        serve(catalog, call, nanoid).0.well_formed(),
{
    let step0 = first_step(call);
    assert(stores_valid_fields(step0));
    lemma_round_keeps_well_formed(catalog, step0, nanoid);
    let (first, step1) = catalog.advance(step0, nanoid);
    lemma_round_keeps_well_formed(first, step1, nanoid);
    let (second, step2) = first.advance(step1, nanoid);
    lemma_round_keeps_well_formed(second, step2, nanoid);
}

/// In a store that is as it should be, two spells of one owner never have
/// the same name, however the letters are cased.
pub proof fn lemma_names_of_one_owner_differ(catalog: Catalog, i: int, j: int)
    requires
        catalog.well_formed(),
        0 <= i < catalog.spells.len(),
        0 <= j < catalog.spells.len(),
        i != j,
        catalog.spells[i].user_id == catalog.spells[j].user_id,
    ensures
        (catalog.lower)(catalog.spells[i].content.name) != (catalog.lower)(
            catalog.spells[j].content.name,
        ),
{
}

/// The store after a sequence of requests, each with the fresh handle it
/// was given.
pub open spec fn after_calls(catalog: Catalog, calls: Seq<(Call, Seq<char>)>) -> Catalog
    decreases calls.len(),
{
    if calls.len() == 0 {
        catalog
    } else {
        serve(after_calls(catalog, calls.drop_last()), calls.last().0, calls.last().1).0
    }
}

/// A store that starts empty is as it should be after every request,
/// whatever the requests were.
pub proof fn lemma_the_store_is_always_well_formed(
    catalog: Catalog,
    calls: Seq<(Call, Seq<char>)>,
)
    requires
        catalog.spells.len() == 0,
        catalog.users.len() == 0,
    ensures
        after_calls(catalog, calls).well_formed(),
    decreases calls.len(),
{
    if calls.len() > 0 {
        lemma_the_store_is_always_well_formed(catalog, calls.drop_last());
        lemma_requests_keep_the_store_well_formed(
            after_calls(catalog, calls.drop_last()),
            calls.last().0,
            calls.last().1,
        );
    }
}

} // verus!
