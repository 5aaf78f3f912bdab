//! The published flag of a spell follows what its owner asks for, one
//! request at a time.

use crate::catalog::{lemma_no_clash_in_place, lemma_position_of_handle, Catalog, Wanted};
use crate::handlers::spells::{
    already_published, not_in_spellbook, not_public, now_published, now_unpublished, respond,
};
use crate::handlers::StepView;
use crate::laws::consistency::lemma_store_stays_consistent;
use crate::laws::{serve, Call};
use crate::models::spells::SpellView;
use crate::repositories::ActionView;
use crate::responses::Status;
use vstd::prelude::*;

verus! {

/// The store with the published flag of one row set as given.
pub open spec fn with_flag(catalog: Catalog, i: int, published: bool) -> Catalog {
    catalog.with_spells(catalog.spells.update(i, SpellView { published, ..catalog.spells[i] }))
}

/// Publishing a spell that is not published sets the flag and changes
/// nothing else; publishing one that is published is refused with `422` and
/// changes nothing; a handle that is not the caller's gives `404`.
pub proof fn lemma_publish_sets_the_flag_once(
    catalog: Catalog,
    user_id: i32,
    nanoid: Seq<char>,
    fresh: Seq<char>,
)
    requires
        catalog.is_consistent(),
    ensures
        ({
            let (after, step) = serve(catalog, Call::PublishSpell { user_id, nanoid }, fresh);
            match catalog.position(Wanted::Handle { user_id, nanoid }) {
                None => after == catalog && step == respond(
                    Status::NotFound,
                    not_in_spellbook(nanoid),
                ),
                Some(i) => {
                    let row = catalog.spells[i];
                    if row.published {
                        after == catalog && step == respond(
                            Status::UnprocessableEntity,
                            already_published(row.content.name),
                        )
                    } else {
                        after == with_flag(catalog, i, true) && step == respond(
                            Status::Success,
                            now_published(row.content.name),
                        )
                    }
                },
            }
        }),
{
    let wanted = Wanted::Handle { user_id, nanoid };
    if let Some(i) = catalog.position(wanted) {
        assert(catalog.is_wanted_at(wanted, i));
        let row = catalog.spells[i];
        lemma_no_clash_in_place(catalog, i, SpellView { published: true, ..row });
    }
}

/// Withdrawing a spell that is published clears the flag and changes
/// nothing else; withdrawing one that is not published is refused with
/// `422` and changes nothing; a handle that is not the caller's gives
/// `404`.
pub proof fn lemma_unpublish_clears_the_flag_once(
    catalog: Catalog,
    user_id: i32,
    nanoid: Seq<char>,
    fresh: Seq<char>,
)
    requires
        catalog.is_consistent(),
    ensures
        ({
            let (after, step) = serve(catalog, Call::UnpublishSpell { user_id, nanoid }, fresh);
            match catalog.position(Wanted::Handle { user_id, nanoid }) {
                None => after == catalog && step == respond(
                    Status::NotFound,
                    not_in_spellbook(nanoid),
                ),
                Some(i) => {
                    let row = catalog.spells[i];
                    if !row.published {
                        after == catalog && step == respond(
                            Status::UnprocessableEntity,
                            not_public(row.content.name),
                        )
                    } else {
                        after == with_flag(catalog, i, false) && step == respond(
                            Status::Success,
                            now_unpublished(row.content.name),
                        )
                    }
                },
            }
        }),
{
    let wanted = Wanted::Handle { user_id, nanoid };
    if let Some(i) = catalog.position(wanted) {
        assert(catalog.is_wanted_at(wanted, i));
        let row = catalog.spells[i];
        lemma_no_clash_in_place(catalog, i, SpellView { published: false, ..row });
    }
}

/// The request that sets the published flag of a spell as given.
pub open spec fn toggle(user_id: i32, nanoid: Seq<char>, publish: bool) -> Call {
    if publish {
        Call::PublishSpell { user_id, nanoid }
    } else {
        Call::UnpublishSpell { user_id, nanoid }
    }
}

/// What the owner is told when asking for the flag to be set as given:
/// a refusal where the flag is so already, else a confirmation.
pub open spec fn toggle_answer(row: SpellView, publish: bool) -> StepView {
    if row.published == publish {
        respond(
            Status::UnprocessableEntity,
            if publish {
                already_published(row.content.name)
            } else {
                not_public(row.content.name)
            },
        )
    } else {
        respond(
            Status::Success,
            if publish {
                now_published(row.content.name)
            } else {
                now_unpublished(row.content.name)
            },
        )
    }
}

/// One request of the owner to publish or withdraw a spell: the flag ends
/// as asked and nothing else changes; the request is refused with `422`
/// exactly when the flag was already as asked.
pub proof fn lemma_toggle_by_owner(catalog: Catalog, i: int, publish: bool, fresh: Seq<char>)
    requires
        catalog.is_consistent(),
        0 <= i < catalog.spells.len(),
    ensures
        ({
            let row = catalog.spells[i];
            serve(catalog, toggle(row.user_id, row.nanoid, publish), fresh) == (
                with_flag(catalog, i, publish),
                toggle_answer(row, publish),
            )
        }),
{
    let row = catalog.spells[i];
    lemma_position_of_handle(catalog, row.user_id, row.nanoid, i);
    if publish {
        lemma_publish_sets_the_flag_once(catalog, row.user_id, row.nanoid, fresh);
    } else {
        lemma_unpublish_clears_the_flag_once(catalog, row.user_id, row.nanoid, fresh);
    }
    if row.published == publish {
        assert(catalog.spells.update(i, row) =~= catalog.spells);
    }
}

/// The store after the owner of a spell has asked, one request after the
/// other, for its flag to be set as each of `targets` says.
pub open spec fn after_toggles(
    catalog: Catalog,
    user_id: i32,
    nanoid: Seq<char>,
    targets: Seq<bool>,
    fresh: Seq<char>,
) -> Catalog
    decreases targets.len(),
{
    if targets.len() == 0 {
        catalog
    } else {
        serve(
            after_toggles(catalog, user_id, nanoid, targets.drop_last(), fresh),
            toggle(user_id, nanoid, targets.last()),
            fresh,
        ).0
    }
}

/// After any sequence of requests of the owner to publish or withdraw a
/// spell, the flag is as the last request asked, and nothing else in the
/// store has changed.
pub proof fn lemma_flag_follows_the_requests(
    catalog: Catalog,
    i: int,
    targets: Seq<bool>,
    fresh: Seq<char>,
)
    requires
        catalog.is_consistent(),
        0 <= i < catalog.spells.len(),
    ensures
        ({
            let row = catalog.spells[i];
            after_toggles(catalog, row.user_id, row.nanoid, targets, fresh) == if targets.len()
                == 0 {
                catalog
            } else {
                with_flag(catalog, i, targets.last())
            }
        }),
    decreases targets.len(),
{
    let row = catalog.spells[i];
    if targets.len() > 0 {
        let earlier = targets.drop_last();
        lemma_flag_follows_the_requests(catalog, i, earlier, fresh);
        let before = after_toggles(catalog, row.user_id, row.nanoid, earlier, fresh);
        if earlier.len() > 0 {
            lemma_no_clash_in_place(catalog, i, SpellView { published: earlier.last(), ..row });
            lemma_position_of_handle(catalog, row.user_id, row.nanoid, i);
            lemma_store_stays_consistent(
                catalog,
                ActionView::PublishSpell {
                    user_id: row.user_id,
                    nanoid: row.nanoid,
                    publish: earlier.last(),
                },
            );
            assert(before.is_consistent());
        }
        lemma_toggle_by_owner(before, i, targets.last(), fresh);
        assert(with_flag(before, i, targets.last()).spells =~= with_flag(
            catalog,
            i,
            targets.last(),
        ).spells);
    }
}

} // verus!
