//! What holds of the catalog whatever is asked of it. Each law is proved
//! over the model of the store in [`crate::catalog`] and the steps that the
//! endpoints take.

use crate::catalog::Catalog;
use crate::handlers::spells::{changes_submitted, spell_submitted};
use crate::handlers::users::user_submitted;
use crate::handlers::{PendingView, StepView};
use crate::models::spells::SpellContent;
use crate::repositories::spells::{own_filters, public_filters};
use crate::repositories::ActionView;
use crate::requests::spells::{SpellFilter, UpdateSpellRequestView};
use vstd::prelude::*;

pub mod admission;
pub mod consistency;
pub mod ownership;
pub mod publication;
pub mod search;

verus! {

/// A request to one of the endpoints, after the guard let it pass.
#[allow(inconsistent_fields)]
pub enum Call {
    GetSpells { user_id: i32 },
    GetSpell { user_id: i32, nanoid: Seq<char> },
    PostSpell { user_id: i32, request: SpellContent },
    UpdateSpell { user_id: i32, request: UpdateSpellRequestView },
    DeleteSpell { user_id: i32, nanoid: Seq<char> },
    PublishSpell { user_id: i32, nanoid: Seq<char> },
    UnpublishSpell { user_id: i32, nanoid: Seq<char> },
    QuerySpells { user_id: i32, filter: SpellFilter },
    QueryPublicSpells { user_id: i32, filter: SpellFilter },
    CopyPublicSpell { user_id: i32, nanoid: Seq<char> },
    /// The request for an account, with the key that the account gets.
    PostUser { username: Seq<char>, key: Seq<char> },
}

/// The first step that the endpoint takes for a request.
pub open spec fn first_step(call: Call) -> StepView {
    match call {
        Call::GetSpells { user_id } => StepView::Perform(
            ActionView::GetSpells { user_id },
            PendingView::GetSpells,
        ),
        Call::GetSpell { user_id, nanoid } => StepView::Perform(
            ActionView::GetSpellByNanoid { user_id, nanoid },
            PendingView::GetSpell { nanoid },
        ),
        Call::PostSpell { user_id, request } => spell_submitted(user_id, request),
        Call::UpdateSpell { user_id, request } => changes_submitted(user_id, request),
        Call::DeleteSpell { user_id, nanoid } => StepView::Perform(
            ActionView::DeleteSpell { user_id, nanoid },
            PendingView::DeleteSpell { nanoid },
        ),
        Call::PublishSpell { user_id, nanoid } => StepView::Perform(
            ActionView::GetSpellByNanoid { user_id, nanoid },
            PendingView::PublishLookup { user_id, nanoid },
        ),
        Call::UnpublishSpell { user_id, nanoid } => StepView::Perform(
            ActionView::GetSpellByNanoid { user_id, nanoid },
            PendingView::UnpublishLookup { user_id, nanoid },
        ),
        Call::QuerySpells { user_id, filter } => StepView::Perform(
            ActionView::QuerySpells { filters: own_filters(user_id, filter) },
            PendingView::QuerySpells,
        ),
        Call::QueryPublicSpells { user_id, filter } => StepView::Perform(
            ActionView::QueryPublicSpells { filters: public_filters(filter) },
            PendingView::QueryPublicSpells,
        ),
        Call::CopyPublicSpell { user_id, nanoid } => StepView::Perform(
            ActionView::GetPublicSpell { nanoid },
            PendingView::CopyFetch { user_id, nanoid },
        ),
        Call::PostUser { username, key } => user_submitted(username, key),
    }
}

/// The account that a request acts for. The request for an account acts
/// for none.
pub open spec fn caller(call: Call) -> Option<i32> {
    match call {
        Call::GetSpells { user_id } => Some(user_id),
        Call::GetSpell { user_id, .. } => Some(user_id),
        Call::PostSpell { user_id, .. } => Some(user_id),
        Call::UpdateSpell { user_id, .. } => Some(user_id),
        Call::DeleteSpell { user_id, .. } => Some(user_id),
        Call::PublishSpell { user_id, .. } => Some(user_id),
        Call::UnpublishSpell { user_id, .. } => Some(user_id),
        Call::QuerySpells { user_id, .. } => Some(user_id),
        Call::QueryPublicSpells { user_id, .. } => Some(user_id),
        Call::CopyPublicSpell { user_id, .. } => Some(user_id),
        Call::PostUser { .. } => None,
    }
}

/// The state that a request leaves and the step that ends it, where the
/// store behaves as the model says and `nanoid` is the fresh handle.
pub open spec fn serve(catalog: Catalog, call: Call, nanoid: Seq<char>) -> (Catalog, StepView) {
    catalog.run(first_step(call), nanoid)
}

/// Every request is answered: after at most three calls on the store the
/// endpoint has its response.
pub proof fn lemma_every_call_is_answered(catalog: Catalog, call: Call, nanoid: Seq<char>)
    ensures
        serve(catalog, call, nanoid).1 is Respond,
{
}

} // verus!
