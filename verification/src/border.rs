//! Policy for the domain boundary during convolution.

use vstd::prelude::*;

use crate::errors::ParseError;
use crate::text::str_eq;

verus! {

/// How the edge of the sampling domain is treated when the convolution
/// integral reaches past it.
///
/// `Fixed` clamps to the edge value. `Periodic` denotes wrap-around
/// sampling; it is accepted and stored, but the convolution itself
/// currently applies only the clamp-to-edge behaviour.
#[derive(Debug, Clone, Copy, PartialEq, Eq, Structural)]
pub enum BorderConditions {
    Fixed,
    Periodic,
}

impl Default for BorderConditions {
    fn default() -> (r: Self)
        ensures
            r == BorderConditions::Fixed,
    {
        BorderConditions::Fixed
    }
}

impl BorderConditions {
    /// The variant a text denotes: its name, and nothing else.
    pub open spec fn spec_from_str(s: Seq<char>) -> Option<BorderConditions> {
        if s == "Fixed"@ {
            Some(BorderConditions::Fixed)
        } else if s == "Periodic"@ {
            Some(BorderConditions::Periodic)
        } else {
            None
        }
    }

    /// Parses the name of a variant, as offered by the selection
    /// control: exactly `"Fixed"` or `"Periodic"`.
    pub fn from_str(s: &str) -> (r: Result<Self, ParseError>)
        ensures
            match r {
                Ok(b) => Self::spec_from_str(s@) == Some(b),
                Err(e) => Self::spec_from_str(s@) is None && e.input@ == s@,
            },
    {
        if str_eq(s, "Fixed") {
            Ok(BorderConditions::Fixed)
        } else if str_eq(s, "Periodic") {
            Ok(BorderConditions::Periodic)
        } else {
            Err(ParseError { input: s.to_owned() })
        }
    }

    /// The name of the variant, the inverse of `from_str`.
    pub fn as_str(&self) -> (r: &'static str)
        ensures
            self is Fixed ==> r@ == "Fixed"@,
            self is Periodic ==> r@ == "Periodic"@,
    {
        match self {
            BorderConditions::Fixed => "Fixed",
            BorderConditions::Periodic => "Periodic",
        }
    }
}

} // verus!
