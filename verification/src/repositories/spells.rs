//! The calls on the table of spells, and the conditions that a search
//! puts on its rows.

use crate::errors::RepositoryError;
use crate::models::spells::{NewSpell, Spell, SpellChanges, UpdatedSpell};
use crate::repositories::{Action, ActionView};
use crate::requests::spells::{QueryPublicSpellsRequest, QuerySpellsRequest, SpellFilter};
use crate::text::join3;
use vstd::prelude::*;
use vstd::string::*;

verus! {

/// A column that holds text and can be searched.
#[derive(Clone, Copy, Debug, PartialEq, Eq, Structural)]
pub enum Column {
    Name,
    Level,
    CastingTime,
    MagicSchool,
    Range,
    Duration,
    /// The name of the owner, in the joined table of accounts.
    Username,
}

/// One condition on a row. The value is carried beside the column, never
/// written into the text of a query.
#[derive(Debug, PartialEq, Eq)]
pub enum Predicate {
    /// The row belongs to this owner.
    Owner(i32),
    /// The published flag has this value.
    Published(bool),
    /// The concentration flag has this value.
    Concentration(bool),
    /// The column matches the pattern, letters compared in any case.
    Ilike(Column, String),
}

pub enum PredicateView {
    Owner(i32),
    Published(bool),
    Concentration(bool),
    Ilike(Column, Seq<char>),
}

impl View for Predicate {
    type V = PredicateView;

    open spec fn view(&self) -> PredicateView {
        match self {
            Predicate::Owner(user_id) => PredicateView::Owner(*user_id),
            Predicate::Published(published) => PredicateView::Published(*published),
            Predicate::Concentration(concentration) => PredicateView::Concentration(
                *concentration,
            ),
            Predicate::Ilike(column, pattern) => PredicateView::Ilike(*column, pattern@),
        }
    }
}

/// The predicates of a list, each by its view.
pub open spec fn predicate_views(filters: Seq<Predicate>) -> Seq<PredicateView> {
    Seq::new(filters.len(), |i: int| filters[i]@)
}

/// The pattern that matches the texts which hold `value` somewhere.
pub open spec fn containing(value: Seq<char>) -> Seq<char> {
    "%"@ + value + "%"@
}

/// The condition that a filter on a text column stands for: none where the
/// filter is absent.
pub open spec fn text_filter(column: Column, value: Option<Seq<char>>) -> Seq<PredicateView> {
    match value {
        Some(v) => seq![PredicateView::Ilike(column, containing(v))],
        None => Seq::empty(),
    }
}

/// The condition that a filter on the concentration flag stands for: none
/// where the filter is absent.
pub open spec fn flag_filter(value: Option<bool>) -> Seq<PredicateView> {
    match value {
        Some(v) => seq![PredicateView::Concentration(v)],
        None => Seq::empty(),
    }
}

/// The given conditions, followed by one condition on a field of a spell for
/// each filter that is present.
pub open spec fn with_field_filters(base: Seq<PredicateView>, filter: SpellFilter) -> Seq<
    PredicateView,
> {
    base + text_filter(Column::Name, filter.name) + text_filter(Column::Level, filter.level)
        + text_filter(Column::CastingTime, filter.casting_time) + text_filter(
        Column::MagicSchool,
        filter.magic_school,
    ) + flag_filter(filter.concentration) + text_filter(Column::Range, filter.range)
        + text_filter(Column::Duration, filter.duration)
}

/// The conditions of a search in one owner's spellbook. The condition on
/// the owner is always there.
pub open spec fn own_filters(user_id: i32, filter: SpellFilter) -> Seq<PredicateView> {
    with_field_filters(seq![PredicateView::Owner(user_id)], filter)
}

/// The conditions of a search in the public pool. The condition on the
/// published flag is always there.
pub open spec fn public_filters(filter: SpellFilter) -> Seq<PredicateView> {
    with_field_filters(seq![PredicateView::Published(true)], filter) + text_filter(
        Column::Username,
        filter.username,
    )
}

fn add_text_filter(filters: &mut Vec<Predicate>, column: Column, value: &Option<String>)
    ensures
        predicate_views(final(filters)@) == predicate_views(old(filters)@) + text_filter(
            column,
            crate::text::text_view(*value),
        ),
{
    if let Some(v) = value {
        let pattern = join3("%", v.as_str(), "%");
        filters.push(Predicate::Ilike(column, pattern));
    }
    assert(predicate_views(filters@) =~= predicate_views(old(filters)@) + text_filter(
        column,
        crate::text::text_view(*value),
    ));
}

fn add_flag_filter(filters: &mut Vec<Predicate>, value: Option<bool>)
    ensures
        predicate_views(final(filters)@) == predicate_views(old(filters)@) + flag_filter(value),
{
    if let Some(v) = value {
        filters.push(Predicate::Concentration(v));
    }
    assert(predicate_views(filters@) =~= predicate_views(old(filters)@) + flag_filter(value));
}

/// Asks for all spells of one owner.
pub fn get_spells(u_id: i32) -> (action: Action)
    ensures
        action@ == (ActionView::GetSpells { user_id: u_id }),
{
    Action::GetSpells { user_id: u_id }
}

/// Asks for the spell with the given handle. The owner is part of the
/// question, so that no caller reads another's row.
pub fn get_spell_by_nanoid(u_id: i32, n_id: &str) -> (action: Action)
    ensures
        action@ == (ActionView::GetSpellByNanoid { user_id: u_id, nanoid: n_id@ }),
{
    Action::GetSpellByNanoid { user_id: u_id, nanoid: String::from_str(n_id) }
}

/// Asks for the spell of one owner with the given name, in any case.
pub fn get_spell_by_name(u_id: i32, spell_name: &str) -> (action: Action)
    ensures
        action@ == (ActionView::GetSpellByName { user_id: u_id, name: spell_name@ }),
{
    Action::GetSpellByName { user_id: u_id, name: String::from_str(spell_name) }
}

/// Asks for the published spell with the given handle.
pub fn get_public_spell(n_id: &str) -> (action: Action)
    ensures
        action@ == (ActionView::GetPublicSpell { nanoid: n_id@ }),
{
    Action::GetPublicSpell { nanoid: String::from_str(n_id) }
}

/// Asks to store a new spell.
pub fn insert_spell(new_spell: NewSpell) -> (action: Action)
    ensures
        action@ == (ActionView::InsertSpell { new_spell: new_spell@ }),
{
    Action::InsertSpell { new_spell }
}

/// The call that changes a spell as asked: the columns are overwritten
/// where there is one to overwrite; where there is none, the spell is read,
/// which is all that such a change comes to.
pub open spec fn change_of(user_id: i32, nanoid: Seq<char>, changes: SpellChanges) -> ActionView {
    if changes == SpellChanges::none() {
        ActionView::GetSpellByNanoid { user_id, nanoid }
    } else {
        ActionView::UpdateSpell { user_id, nanoid, changes }
    }
}

/// Asks to overwrite the given columns of a spell. Changes that set no
/// column are no statement to the store: the spell is asked for instead.
pub fn update_spell(u_id: i32, n_id: &str, updated_spell: UpdatedSpell) -> (action: Action)
    ensures
        action@ == change_of(u_id, n_id@, updated_spell@),
{
    if updated_spell.is_empty() {
        get_spell_by_nanoid(u_id, n_id)
    } else {
        Action::UpdateSpell {
            user_id: u_id,
            nanoid: String::from_str(n_id),
            changes: updated_spell,
        }
    }
}

/// Asks to erase a spell.
pub fn delete_spell(u_id: i32, n_id: &str) -> (action: Action)
    ensures
        action@ == (ActionView::DeleteSpell { user_id: u_id, nanoid: n_id@ }),
{
    Action::DeleteSpell { user_id: u_id, nanoid: String::from_str(n_id) }
}

/// Asks to set the published flag of a spell.
pub fn publish_spell(u_id: i32, n_id: &str, publish: bool) -> (action: Action)
    ensures
        action@ == (ActionView::PublishSpell { user_id: u_id, nanoid: n_id@, publish }),
{
    Action::PublishSpell { user_id: u_id, nanoid: String::from_str(n_id), publish }
}

/// Asks for the spells of one owner that pass every filter of the search.
/// Each filter that is present adds one condition; an absent one adds
/// none.
pub fn query_spells(u_id: i32, query_data: &QuerySpellsRequest) -> (action: Action)
    ensures
        action@ == (ActionView::QuerySpells { filters: own_filters(u_id, query_data@) }),
{
    let mut filters: Vec<Predicate> = Vec::new();
    filters.push(Predicate::Owner(u_id));
    assert(predicate_views(filters@) =~= seq![PredicateView::Owner(u_id)]);
    add_text_filter(&mut filters, Column::Name, &query_data.name);
    add_text_filter(&mut filters, Column::Level, &query_data.level);
    add_text_filter(&mut filters, Column::CastingTime, &query_data.casting_time);
    add_text_filter(&mut filters, Column::MagicSchool, &query_data.magic_school);
    add_flag_filter(&mut filters, query_data.concentration);
    add_text_filter(&mut filters, Column::Range, &query_data.range);
    add_text_filter(&mut filters, Column::Duration, &query_data.duration);
    Action::QuerySpells { filters }
}

/// Asks for the published spells that pass every filter of the search,
/// each with its owner.
pub fn query_public_spells(query_data: &QueryPublicSpellsRequest) -> (action: Action)
    ensures
        action@ == (ActionView::QueryPublicSpells { filters: public_filters(query_data@) }),
{
    let mut filters: Vec<Predicate> = Vec::new();
    filters.push(Predicate::Published(true));
    assert(predicate_views(filters@) =~= seq![PredicateView::Published(true)]);
    add_text_filter(&mut filters, Column::Name, &query_data.name);
    add_text_filter(&mut filters, Column::Level, &query_data.level);
    add_text_filter(&mut filters, Column::CastingTime, &query_data.casting_time);
    add_text_filter(&mut filters, Column::MagicSchool, &query_data.magic_school);
    add_flag_filter(&mut filters, query_data.concentration);
    add_text_filter(&mut filters, Column::Range, &query_data.range);
    add_text_filter(&mut filters, Column::Duration, &query_data.duration);
    add_text_filter(&mut filters, Column::Username, &query_data.username);
    Action::QueryPublicSpells { filters }
}

/// Whether the spell that was asked for is published.
pub fn is_published(
    found: Result<Spell, RepositoryError>,
) -> (published: Result<bool, RepositoryError>)
    ensures
        published == match found {
            Ok(spell) => Ok::<bool, RepositoryError>(spell.published),
            Err(error) => Err(error),
        },
{
    match found {
        Ok(spell) => Ok(spell.published),
        Err(error) => Err(error),
    }
}

} // verus!
