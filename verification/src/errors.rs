//! What can be wrong with a request, and how it is told to the caller.

use crate::enums::MagicSchool;
use crate::text::join3;
use vstd::prelude::*;
use vstd::string::*;

verus! {

/// A submitted field that breaks a rule of the catalog. Each variant keeps
/// the offending value.
#[derive(Debug, PartialEq, Eq)]
pub enum SpellValidationError {
    InvalidSpellLevel(String),
    InvalidMagicSchool(String),
}

/// A failed attempt to tell who is calling.
#[derive(Clone, Copy, Debug, PartialEq, Eq, Structural)]
pub enum AuthError {
    AuthError,
}

/// How a repository call can fail, as far as the endpoints tell failures
/// apart.
#[derive(Clone, Copy, Debug, PartialEq, Eq, Structural)]
pub enum RepositoryError {
    /// No row matched.
    NotFound,
    /// A unique index refused the row.
    UniqueViolation,
    /// Any other failure of the store.
    Other,
}

pub enum SpellValidationErrorView {
    InvalidSpellLevel(Seq<char>),
    InvalidMagicSchool(Seq<char>),
}

impl View for SpellValidationError {
    type V = SpellValidationErrorView;

    open spec fn view(&self) -> SpellValidationErrorView {
        match self {
            SpellValidationError::InvalidSpellLevel(value) => {
                SpellValidationErrorView::InvalidSpellLevel(value@)
            },
            SpellValidationError::InvalidMagicSchool(value) => {
                SpellValidationErrorView::InvalidMagicSchool(value@)
            },
        }
    }
}

/// The names of the given schools, separated by a comma and a space.
pub open spec fn school_names(schools: Seq<MagicSchool>) -> Seq<char>
    decreases schools.len(),
{
    if schools.len() == 0 {
        Seq::empty()
    } else if schools.len() == 1 {
        schools[0].spec_name()
    } else {
        school_names(schools.drop_last()) + ", "@ + schools.last().spec_name()
    }
}

impl SpellValidationErrorView {
    /// The sentence shown to the caller.
    pub open spec fn message(self) -> Seq<char> {
        match self {
            SpellValidationErrorView::InvalidSpellLevel(value) => {
                "invalid spell level \""@ + value
                    + "\" expected \"Cantrip\" or \"Level [1-9]\""@
            },
            SpellValidationErrorView::InvalidMagicSchool(value) => {
                "invalid school of magic \""@ + value + "\" expected one of: ["@ + school_names(
                    MagicSchool::spec_variants(),
                ) + "]"@
            },
        }
    }
}

fn list_schools() -> (names: String)
    ensures
        names@ == school_names(MagicSchool::spec_variants()),
{
    let all = MagicSchool::variants();
    let mut names = String::new();
    let mut i: usize = 0;
    while i < all.len()
        invariant
            i <= all.len(),
            all@ == MagicSchool::spec_variants(),
            names@ == school_names(all@.take(i as int)),
        decreases all.len() - i,
    {
        if i > 0 {
            names.append(", ");
        }
        names.append(all[i].name());
        proof {
            let before = all@.take(i as int);
            let now = all@.take(i + 1);
            assert(now.drop_last() =~= before);
            assert(now.last() == all@[i as int]);
            if i == 0 {
                assert(names@ =~= all@[0].spec_name());
            }
        }
        i += 1;
    }
    assert(all@.take(all.len() as int) =~= all@);
    names
}

impl SpellValidationError {
    /// The sentence shown to the caller.
    pub fn message(&self) -> (text: String)
        ensures
            text@ == self@.message(),
    {
        match self {
            SpellValidationError::InvalidSpellLevel(value) => join3(
                "invalid spell level \"",
                value.as_str(),
                "\" expected \"Cantrip\" or \"Level [1-9]\"",
            ),
            SpellValidationError::InvalidMagicSchool(value) => {
                let mut text = join3(
                    "invalid school of magic \"",
                    value.as_str(),
                    "\" expected one of: [",
                );
                let names = list_schools();
                text.append(names.as_str());
                text.append("]");
                text
            },
        }
    }
}

impl AuthError {
    pub open spec fn spec_message(self) -> Seq<char> {
        "Authentication failed"@
    }

    /// The sentence shown to the caller.
    pub fn message(&self) -> (text: String)
        ensures
            text@ == self.spec_message(),
    {
        String::from_str("Authentication failed")
    }
}

} // verus!
