//! The loader strategy: which fixed script body is materialized as the final
//! "load" script.

use vstd::prelude::*;
use vstd::string::StringExecFns;
use crate::error::BuildError;
use crate::text::{eq_ignore_ascii_case, lower_char, lower_seq};

verus! {

/// The strategy used to load application source into the seed image.
#[derive(Copy, Clone, Debug, PartialEq, Eq, Structural)]
pub enum Loader {
    /// Favors load speed; not suitable for a release build.
    Cloner,
    /// Slower, but suitable for a release build.
    Metacello,
}

impl Loader {
    /// The canonical (lowercase) name of the variant.
    pub open spec fn name_spec(self) -> Seq<char> {
        match self {
            Loader::Cloner => "cloner"@,
            Loader::Metacello => "metacello"@,
        }
    }

    /// The variant whose name the string matches up to ASCII case, if any.
    pub open spec fn parse_spec(s: Seq<char>) -> Option<Loader> {
        if lower_seq(s) == "cloner"@ {
            Some(Loader::Cloner)
        } else if lower_seq(s) == "metacello"@ {
            Some(Loader::Metacello)
        } else {
            None
        }
    }

    /// Parses a loader name, ignoring ASCII case; any string outside the
    /// closed variant set is a configuration error.
    pub fn from_str(s: &str) -> (r: Result<Loader, BuildError>)
        ensures
            r is Ok <==> Loader::parse_spec(s@) is Some,
            r is Ok ==> Some(r->Ok_0) == Loader::parse_spec(s@),
            r is Err ==> r->Err_0 is Configuration,
    {
        proof {
            lemma_variant_names_lower();
        }
        if eq_ignore_ascii_case(s, "cloner") {
            Ok(Loader::Cloner)
        } else if eq_ignore_ascii_case(s, "metacello") {
            Ok(Loader::Metacello)
        } else {
            Err(BuildError::Configuration(String::from_str("unknown loader name")))
        }
    }

    /// The canonical name of the variant.
    pub fn to_string(&self) -> (r: String)
        ensures
            r@ == self.name_spec(),
    {
        match self {
            Loader::Cloner => String::from_str("cloner"),
            Loader::Metacello => String::from_str("metacello"),
        }
    }
}

/// The canonical variant names are already lowercase, and differ.
pub proof fn lemma_variant_names_lower()
    ensures
        lower_seq("cloner"@) == "cloner"@,
        lower_seq("metacello"@) == "metacello"@,
        "cloner"@ != "metacello"@,
{
    reveal_strlit("cloner");
    reveal_strlit("metacello");
    assert(lower_seq("cloner"@) =~= "cloner"@);
    assert(lower_seq("metacello"@) =~= "metacello"@);
    assert("cloner"@.len() != "metacello"@.len());
}

/// Formatting a loader and parsing the result yields the same loader back:
/// the parse/format pair is a round trip over the closed variant set.
pub proof fn lemma_loader_round_trip(l: Loader)
    ensures
        Loader::parse_spec(l.name_spec()) == Some(l),
{
    lemma_variant_names_lower();
    assert(lower_seq("cloner"@) != "metacello"@);
}

} // verus!
