//! Classification of a textual initial condition.
//!
//! A user may supply either an analytical formula or a literal list of
//! points; both reach the simulation through the same text field. The
//! classification is an ordered fallback, and the first grammar that
//! matches wins: the text is first offered to the expression
//! evaluator, then read as a point list, and only then rejected.
//!
//! The expression evaluator itself is an external concern; the caller
//! attempts both readings on its own types and hands the outcomes in,
//! and [`FnInputKind::classify`] decides which one stands.

use vstd::prelude::*;

use crate::errors::FormatError;

verus! {

/// An evaluable initial condition: a parsed analytical expression, or
/// a continuous representation interpolating explicit points.
#[derive(Debug, Clone)]
pub enum FnInputKind<E, P> {
    Analytical { expression: E },
    Points { spline: P },
}

impl<E, P> FnInputKind<E, P> {
    /// Decides what the initial-condition text `s` denotes, given the
    /// outcome of reading it as an expression and as a point list.
    /// The expression reading wins over the point reading; when both
    /// failed, the text is rejected by name.
    pub fn classify(s: &str, analytical: Option<E>, points: Option<P>) -> (r: Result<
        Self,
        FormatError,
    >)
        ensures
            match r {
                Ok(k) => {
                    ||| (analytical matches Some(e) && k == (FnInputKind::<E, P>::Analytical {
                        expression: e,
                    }))
                    ||| {
                        &&& analytical is None
                        &&& points matches Some(p) && k == (FnInputKind::<E, P>::Points { spline: p })
                    }
                },
                Err(e) => analytical is None && points is None && e.0@ == s@,
            },
    {
        match analytical {
            Some(expression) => Ok(FnInputKind::<E, P>::Analytical { expression }),
            None => match points {
                Some(spline) => Ok(FnInputKind::Points { spline }),
                None => Err(FormatError(s.to_owned())),
            },
        }
    }
}

/// An initial condition as the configuration holds it: the raw text
/// the user typed, next to its classified, evaluable form.
#[derive(Debug, Clone)]
pub struct FnInput<E, P> {
    pub string: String,
    pub kind: FnInputKind<E, P>,
}

impl<E, P> FnInput<E, P> {
    /// Builds the stored form of the initial-condition text `s` from
    /// the outcome of its two readings, keeping the raw text beside
    /// the classification; rejected exactly when `classify` rejects.
    pub fn from_classified(s: &str, analytical: Option<E>, points: Option<P>) -> (r: Result<
        Self,
        FormatError,
    >)
        ensures
            match r {
                Ok(f) => f.string@ == s@ && {
                    ||| (analytical matches Some(e) && f.kind == (FnInputKind::<E, P>::Analytical {
                        expression: e,
                    }))
                    ||| {
                        &&& analytical is None
                        &&& points matches Some(p) && f.kind == (FnInputKind::<E, P>::Points { spline: p })
                    }
                },
                Err(e) => analytical is None && points is None && e.0@ == s@,
            },
    {
        match FnInputKind::classify(s, analytical, points) {
            Ok(kind) => Ok(FnInput { string: s.to_owned(), kind }),
            Err(e) => Err(e),
        }
    }
}

} // verus!
