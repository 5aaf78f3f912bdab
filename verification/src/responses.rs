//! What an endpoint answers: a status and a body, as plain values that the
//! transport writes out.

use crate::resources::spells::{
    public_resource_views, resource_views, PublicSpellResource, PublicSpellResourceView,
    SpellResource, SpellResourceView,
};
use vstd::prelude::*;
use vstd::string::*;

verus! {

/// The five statuses that the endpoints answer with.
#[derive(Clone, Copy, Debug, PartialEq, Eq, Structural)]
pub enum Status {
    Success,
    Unauthorized,
    NotFound,
    UnprocessableEntity,
    InternalServerError,
}

/// The body of an answer: plain text, or resources to be written as JSON.
#[derive(Debug, PartialEq, Eq)]
pub enum Body {
    Text(String),
    Spell(SpellResource),
    Spells(Vec<SpellResource>),
    PublicSpells(Vec<PublicSpellResource>),
}

#[derive(Debug, PartialEq, Eq)]
pub struct Response {
    pub status: Status,
    pub body: Body,
}

pub enum BodyView {
    Text(Seq<char>),
    Spell(SpellResourceView),
    Spells(Seq<SpellResourceView>),
    PublicSpells(Seq<PublicSpellResourceView>),
}

pub struct ResponseView {
    pub status: Status,
    pub body: BodyView,
}

impl View for Body {
    type V = BodyView;

    open spec fn view(&self) -> BodyView {
        match self {
            Body::Text(text) => BodyView::Text(text@),
            Body::Spell(resource) => BodyView::Spell(resource@),
            Body::Spells(resources) => BodyView::Spells(resource_views(resources@)),
            Body::PublicSpells(resources) => BodyView::PublicSpells(
                public_resource_views(resources@),
            ),
        }
    }
}

impl View for Response {
    type V = ResponseView;

    open spec fn view(&self) -> ResponseView {
        ResponseView { status: self.status, body: self.body@ }
    }
}

impl Status {
    /// The number that the status is sent as.
    pub open spec fn spec_code(self) -> u16 {
        match self {
            Status::Success => 200,
            Status::Unauthorized => 401,
            Status::NotFound => 404,
            Status::UnprocessableEntity => 422,
            Status::InternalServerError => 500,
        }
    }

    /// The number that the status is sent as.
    pub fn code(&self) -> (code: u16)
        ensures
            code == self.spec_code(),
    {
        match self {
            Status::Success => 200,
            Status::Unauthorized => 401,
            Status::NotFound => 404,
            Status::UnprocessableEntity => 422,
            Status::InternalServerError => 500,
        }
    }
}

impl ResponseView {
    /// An answer in plain text.
    pub open spec fn text(status: Status, text: Seq<char>) -> ResponseView {
        ResponseView { status, body: BodyView::Text(text) }
    }

    /// A successful answer that shows one spell.
    pub open spec fn spell(resource: SpellResourceView) -> ResponseView {
        ResponseView { status: Status::Success, body: BodyView::Spell(resource) }
    }

    /// A successful answer that shows a list of spells.
    pub open spec fn spells(resources: Seq<SpellResourceView>) -> ResponseView {
        ResponseView { status: Status::Success, body: BodyView::Spells(resources) }
    }

    /// A successful answer that shows a list of published spells.
    pub open spec fn public_spells(resources: Seq<PublicSpellResourceView>) -> ResponseView {
        ResponseView { status: Status::Success, body: BodyView::PublicSpells(resources) }
    }
}

impl Response {
    /// An answer in plain text.
    pub fn text(status: Status, text: String) -> (response: Response)
        ensures
            response@ == ResponseView::text(status, text@),
    {
        Response { status, body: Body::Text(text) }
    }

    /// An answer whose text is fixed.
    pub fn fixed(status: Status, text: &str) -> (response: Response)
        ensures
            response@ == ResponseView::text(status, text@),
    {
        Response { status, body: Body::Text(String::from_str(text)) }
    }
}

} // verus!
