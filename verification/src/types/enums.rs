//! The closed vocabularies of the service: the gender of a voice and the
//! visibility of a character or voice.

use vstd::prelude::*;
use crate::text::same_text;

verus! {

/// The gender that a voice is labelled with.
#[derive(Debug, Clone, Copy, PartialEq, Eq, Structural)]
pub enum Gender {
    Neutral,
    Male,
    Female,
}

impl Gender {
    /// The gender that a wire name stands for: any name but `male` and
    /// `female` is `Neutral`.
    pub open spec fn of_name(name: Seq<char>) -> Gender {
        if name == "male"@ {
            Gender::Male
        } else if name == "female"@ {
            Gender::Female
        } else {
            Gender::Neutral
        }
    }

    /// The wire name of a gender.
    pub open spec fn name(self) -> Seq<char> {
        match self {
            Gender::Neutral => "neutral"@,
            Gender::Male => "male"@,
            Gender::Female => "female"@,
        }
    }

    /// Reads a wire name.
    pub fn from_string(string: &str) -> (r: Self)
        ensures
            r == Self::of_name(string@),
    {
        if same_text(string, "male") {
            Gender::Male
        } else if same_text(string, "female") {
            Gender::Female
        } else {
            Gender::Neutral
        }
    }

    /// The wire name.
    pub fn to_string(&self) -> (r: &'static str)
        ensures
            r@ == self.name(),
    {
        match self {
            Gender::Neutral => "neutral",
            Gender::Male => "male",
            Gender::Female => "female",
        }
    }

    /// Reading the wire name of a gender gives that gender back.
    pub proof fn lemma_name_round_trip(g: Gender)
        ensures
            Self::of_name(g.name()) == g,
    {
        reveal_strlit("neutral");
        reveal_strlit("male");
        reveal_strlit("female");
        assert("neutral"@.len() == 7 && "male"@.len() == 4 && "female"@.len() == 6);
    }
}

/// Who may see a character or a voice.
#[derive(Debug, Clone, Copy, PartialEq, Eq, Structural)]
pub enum Visibility {
    Hidden,
    Unlisted,
    Public,
}

impl Visibility {
    /// The visibility that a wire name stands for: any name but `PRIVATE`
    /// and `UNLISTED` is `Public`.
    pub open spec fn of_name(name: Seq<char>) -> Visibility {
        if name == "PRIVATE"@ {
            Visibility::Hidden
        } else if name == "UNLISTED"@ {
            Visibility::Unlisted
        } else {
            Visibility::Public
        }
    }

    /// The wire name of a visibility.
    pub open spec fn name(self) -> Seq<char> {
        match self {
            Visibility::Hidden => "PRIVATE"@,
            Visibility::Unlisted => "UNLISTED"@,
            Visibility::Public => "PUBLIC"@,
        }
    }

    /// Reads a wire name.
    pub fn from_string(string: &str) -> (r: Self)
        ensures
            r == Self::of_name(string@),
    {
        if same_text(string, "PRIVATE") {
            Visibility::Hidden
        } else if same_text(string, "UNLISTED") {
            Visibility::Unlisted
        } else {
            Visibility::Public
        }
    }

    /// The wire name.
    pub fn to_string(&self) -> (r: &'static str)
        ensures
            r@ == self.name(),
    {
        match self {
            Visibility::Hidden => "PRIVATE",
            Visibility::Unlisted => "UNLISTED",
            Visibility::Public => "PUBLIC",
        }
    }

    /// Reading the wire name of a visibility gives that visibility back.
    pub proof fn lemma_name_round_trip(v: Visibility)
        ensures
            Self::of_name(v.name()) == v,
    {
        reveal_strlit("PRIVATE");
        reveal_strlit("UNLISTED");
        reveal_strlit("PUBLIC");
        assert("PRIVATE"@.len() == 7 && "UNLISTED"@.len() == 8 && "PUBLIC"@.len() == 6);
        assert("PRIVATE"@[1] == 'R' && "PUBLIC"@[1] == 'U');
    }
}

} // verus!
