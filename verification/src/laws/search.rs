//! What a search finds: rows in its scope that meet every condition asked
//! for, whatever the order of the conditions.

use crate::catalog::Catalog;
use crate::laws::{serve, Call};
use crate::models::spells::SpellView;
use crate::repositories::spells::{own_filters, public_filters, PredicateView};
use crate::requests::spells::SpellFilter;
use vstd::prelude::*;

verus! {

/// A search with no filter asks the store for the condition on the owner
/// alone, which is what listing asks for: both show the same rows in the
/// same order.
pub proof fn lemma_unfiltered_query_lists_all(catalog: Catalog, user_id: i32, fresh: Seq<char>)
    ensures
        own_filters(user_id, SpellFilter::none()) == seq![PredicateView::Owner(user_id)],
        serve(catalog, Call::QuerySpells { user_id, filter: SpellFilter::none() }, fresh) == serve(
            catalog,
            Call::GetSpells { user_id },
            fresh,
        ),
{
    assert(own_filters(user_id, SpellFilter::none()) =~= seq![PredicateView::Owner(user_id)]);
}

/// Listing, and so a search with no filter, finds every spell of the owner
/// and no other: a row is found exactly if it is in the table and belongs
/// to the owner.
pub proof fn lemma_listing_finds_every_own_spell(catalog: Catalog, user_id: i32, row: SpellView)
    ensures
        catalog.select(seq![PredicateView::Owner(user_id)]).contains(row) <==> (
        catalog.spells.contains(row) && row.user_id == user_id),
{
    let filters = seq![PredicateView::Owner(user_id)];
    let test = |row: SpellView| catalog.passes(filters, row);
    if catalog.select(filters).contains(row) {
        catalog.spells.lemma_filter_contains_rev(test, row);
        let k = choose|k: int|
            0 <= k < catalog.select(filters).len() && catalog.select(filters)[k] == row;
        catalog.spells.lemma_filter_pred(test, k);
        assert(catalog.holds(filters[0], row));
    }
    if catalog.spells.contains(row) && row.user_id == user_id {
        let i = choose|i: int| 0 <= i < catalog.spells.len() && catalog.spells[i] == row;
        assert(catalog.passes(filters, row));
        catalog.spells.lemma_filter_contains(test, i);
    }
}

/// A search in the public pool with no filter finds every published spell
/// and no other, whoever owns it.
pub proof fn lemma_public_pool_is_what_is_published(catalog: Catalog, row: SpellView)
    ensures
        public_filters(SpellFilter::none()) == seq![PredicateView::Published(true)],
        catalog.select(public_filters(SpellFilter::none())).contains(row) <==> (
        catalog.spells.contains(row) && row.published),
{
    let filters = seq![PredicateView::Published(true)];
    assert(public_filters(SpellFilter::none()) =~= filters);
    let test = |row: SpellView| catalog.passes(filters, row);
    if catalog.select(filters).contains(row) {
        catalog.spells.lemma_filter_contains_rev(test, row);
        let k = choose|k: int|
            0 <= k < catalog.select(filters).len() && catalog.select(filters)[k] == row;
        catalog.spells.lemma_filter_pred(test, k);
        assert(catalog.holds(filters[0], row));
    }
    if catalog.spells.contains(row) && row.published {
        let i = choose|i: int| 0 <= i < catalog.spells.len() && catalog.spells[i] == row;
        assert(catalog.passes(filters, row));
        catalog.spells.lemma_filter_contains(test, i);
    }
}

/// A search in one's own spellbook shows only one's own spells, and a
/// search in the public pool shows only published ones, whatever the
/// filters are.
pub proof fn lemma_searches_keep_to_their_scope(
    catalog: Catalog,
    user_id: i32,
    filter: SpellFilter,
)
    ensures
        forall|k: int|
            0 <= k < catalog.select(own_filters(user_id, filter)).len() ==> (
            #[trigger] catalog.select(own_filters(user_id, filter))[k]).user_id == user_id,
        forall|k: int|
            0 <= k < catalog.select(public_filters(filter)).len() ==> (#[trigger] catalog.select(
                public_filters(filter),
            )[k]).published,
{
    let own = own_filters(user_id, filter);
    let public = public_filters(filter);
    assert(own[0] == PredicateView::Owner(user_id));
    assert(public[0] == PredicateView::Published(true));
    assert forall|k: int| 0 <= k < catalog.select(own).len() implies (#[trigger] catalog.select(
        own,
    )[k]).user_id == user_id by {
        catalog.spells.lemma_filter_pred(|row: SpellView| catalog.passes(own, row), k);
        assert(catalog.holds(own[0], catalog.select(own)[k]));
    }
    assert forall|k: int| 0 <= k < catalog.select(public).len() implies (
    #[trigger] catalog.select(public)[k]).published by {
        catalog.spells.lemma_filter_pred(|row: SpellView| catalog.passes(public, row), k);
        assert(catalog.holds(public[0], catalog.select(public)[k]));
    }
}

/// The rows that a search finds depend on which conditions are asked for,
/// not on their order.
pub proof fn lemma_order_of_filters_is_irrelevant(
    catalog: Catalog,
    filters: Seq<PredicateView>,
    reordered: Seq<PredicateView>,
)
    requires
        forall|p: PredicateView| filters.contains(p) <==> reordered.contains(p),
    ensures
        catalog.select(filters) == catalog.select(reordered),
{
    assert forall|row: SpellView| #[trigger]
        catalog.passes(filters, row) == catalog.passes(reordered, row) by {
        if catalog.passes(filters, row) {
            assert forall|k: int| 0 <= k < reordered.len() implies catalog.holds(
                #[trigger] reordered[k],
                row,
            ) by {
                assert(reordered.contains(reordered[k]));
                let j = choose|j: int| 0 <= j < filters.len() && filters[j] == reordered[k];
                assert(catalog.holds(filters[j], row));
            }
        }
        if catalog.passes(reordered, row) {
            assert forall|k: int| 0 <= k < filters.len() implies catalog.holds(
                #[trigger] filters[k],
                row,
            ) by {
                assert(filters.contains(filters[k]));
                let j = choose|j: int| 0 <= j < reordered.len() && reordered[j] == filters[k];
                assert(catalog.holds(reordered[j], row));
            }
        }
    }
    lemma_same_test_same_rows(
        catalog.spells,
        |row: SpellView| catalog.passes(filters, row),
        |row: SpellView| catalog.passes(reordered, row),
    );
}

proof fn lemma_same_test_same_rows(
    rows: Seq<SpellView>,
    test: spec_fn(SpellView) -> bool,
    other: spec_fn(SpellView) -> bool,
)
    requires
        forall|row: SpellView| #[trigger] test(row) == other(row),
    ensures
        rows.filter(test) == rows.filter(other),
    decreases rows.len(),
{
    reveal(Seq::filter);
    if rows.len() > 0 {
        lemma_same_test_same_rows(rows.drop_last(), test, other);
    }
}

} // verus!
