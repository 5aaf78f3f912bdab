//! The closed vocabulary of the catalog.

use vstd::prelude::*;
use vstd::string::*;

verus! {

/// The eight schools of magic a spell can belong to.
#[derive(Clone, Copy, Debug, PartialEq, Eq, Structural)]
pub enum MagicSchool {
    Abjuration,
    Conjuration,
    Divination,
    Enchantment,
    Evocation,
    Illusion,
    Necromancy,
    Transmutation,
}

impl MagicSchool {
    /// The name a school is written with.
    pub open spec fn spec_name(self) -> Seq<char> {
        match self {
            MagicSchool::Abjuration => "Abjuration"@,
            MagicSchool::Conjuration => "Conjuration"@,
            MagicSchool::Divination => "Divination"@,
            MagicSchool::Enchantment => "Enchantment"@,
            MagicSchool::Evocation => "Evocation"@,
            MagicSchool::Illusion => "Illusion"@,
            MagicSchool::Necromancy => "Necromancy"@,
            MagicSchool::Transmutation => "Transmutation"@,
        }
    }

    /// The school that a text names, letter for letter and in the same
    /// case, if it names one.
    pub open spec fn spec_from_str(s: Seq<char>) -> Option<MagicSchool> {
        if s == "Abjuration"@ {
            Some(MagicSchool::Abjuration)
        } else if s == "Conjuration"@ {
            Some(MagicSchool::Conjuration)
        } else if s == "Divination"@ {
            Some(MagicSchool::Divination)
        } else if s == "Enchantment"@ {
            Some(MagicSchool::Enchantment)
        } else if s == "Evocation"@ {
            Some(MagicSchool::Evocation)
        } else if s == "Illusion"@ {
            Some(MagicSchool::Illusion)
        } else if s == "Necromancy"@ {
            Some(MagicSchool::Necromancy)
        } else if s == "Transmutation"@ {
            Some(MagicSchool::Transmutation)
        } else {
            None
        }
    }

    /// The schools in the order in which they are listed to a user.
    pub open spec fn spec_variants() -> Seq<MagicSchool> {
        seq![
            MagicSchool::Abjuration,
            MagicSchool::Conjuration,
            MagicSchool::Divination,
            MagicSchool::Enchantment,
            MagicSchool::Evocation,
            MagicSchool::Illusion,
            MagicSchool::Necromancy,
            MagicSchool::Transmutation,
        ]
    }

    pub fn name(&self) -> (s: &'static str)
        ensures
            s@ == self.spec_name(),
    {
        match self {
            MagicSchool::Abjuration => "Abjuration",
            MagicSchool::Conjuration => "Conjuration",
            MagicSchool::Divination => "Divination",
            MagicSchool::Enchantment => "Enchantment",
            MagicSchool::Evocation => "Evocation",
            MagicSchool::Illusion => "Illusion",
            MagicSchool::Necromancy => "Necromancy",
            MagicSchool::Transmutation => "Transmutation",
        }
    }

    pub fn variants() -> (all: Vec<MagicSchool>)
        ensures
            all@ == Self::spec_variants(),
    {
        let all = vec![
            MagicSchool::Abjuration,
            MagicSchool::Conjuration,
            MagicSchool::Divination,
            MagicSchool::Enchantment,
            MagicSchool::Evocation,
            MagicSchool::Illusion,
            MagicSchool::Necromancy,
            MagicSchool::Transmutation,
        ];
        assert(all@ =~= Self::spec_variants());
        all
    }

    /// Reads a school from its name. Only the exact spelling is accepted:
    /// `evocation` names no school.
    pub fn from_str(s: &str) -> (school: Option<MagicSchool>)
        ensures
            school == Self::spec_from_str(s@),
    {
        let text = String::from_str(s);
        if text == String::from_str("Abjuration") {
            Some(MagicSchool::Abjuration)
        } else if text == String::from_str("Conjuration") {
            Some(MagicSchool::Conjuration)
        } else if text == String::from_str("Divination") {
            Some(MagicSchool::Divination)
        } else if text == String::from_str("Enchantment") {
            Some(MagicSchool::Enchantment)
        } else if text == String::from_str("Evocation") {
            Some(MagicSchool::Evocation)
        } else if text == String::from_str("Illusion") {
            Some(MagicSchool::Illusion)
        } else if text == String::from_str("Necromancy") {
            Some(MagicSchool::Necromancy)
        } else if text == String::from_str("Transmutation") {
            Some(MagicSchool::Transmutation)
        } else {
            None
        }
    }
}

/// No two schools are written alike, and each is read back from its own
/// name.
pub proof fn lemma_names_differ()
    ensures
        forall|a: MagicSchool, b: MagicSchool| a.spec_name() == b.spec_name() ==> a == b,
        forall|a: MagicSchool| MagicSchool::spec_from_str(#[trigger] a.spec_name()) == Some(a),
{
    lemma_first_letters();
}

proof fn lemma_first_letters()
    ensures
        "Abjuration"@.len() == 10 && "Abjuration"@[0] == 'A',
        "Conjuration"@.len() == 11 && "Conjuration"@[0] == 'C',
        "Divination"@.len() == 10 && "Divination"@[0] == 'D',
        "Enchantment"@.len() == 11 && "Enchantment"@[0] == 'E' && "Enchantment"@[1] == 'n',
        "Evocation"@.len() == 9 && "Evocation"@[0] == 'E' && "Evocation"@[1] == 'v',
        "Illusion"@.len() == 8 && "Illusion"@[0] == 'I',
        "Necromancy"@.len() == 10 && "Necromancy"@[0] == 'N',
        "Transmutation"@.len() == 13 && "Transmutation"@[0] == 'T',
{
    reveal_strlit("Abjuration");
    reveal_strlit("Conjuration");
    reveal_strlit("Divination");
    reveal_strlit("Enchantment");
    reveal_strlit("Evocation");
    reveal_strlit("Illusion");
    reveal_strlit("Necromancy");
    reveal_strlit("Transmutation");
}

} // verus!
