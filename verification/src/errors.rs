//! Error values reported by the simulation core.
//!
//! No error here is fatal: each one either rejects a proposed change
//! back to the caller or reports a request that would have broken an
//! invariant.

use vstd::prelude::*;

verus! {

/// The text of an initial condition matched neither the grammar of an
/// analytical expression nor the grammar of a point list. Carries the
/// rejected text.
#[derive(Debug, Clone)]
pub struct FormatError(pub String);

impl FormatError {
    /// The message shown to the user when an initial condition is rejected.
    pub fn message(&self) -> (r: String)
        ensures
            r@ == "The input was not an analytical function nor a collection of points."@,
    {
        String::from_str("The input was not an analytical function nor a collection of points.")
    }
}

/// A numeric field coming from a text control had invalid syntax.
/// Carries the rejected text.
#[derive(Debug, Clone)]
pub struct ParseError {
    pub input: String,
}

impl ParseError {
    /// The message shown to the user when a field value is rejected.
    pub fn message(&self) -> (r: String)
        ensures
            r@ == "value rejected"@,
    {
        String::from_str("value rejected")
    }
}

/// A request to view a time index that has not been computed yet.
/// Such a request is reported rather than silently clamped, so that a
/// caller which fails to bound its controls is noticed.
#[derive(Debug, Clone, Copy, PartialEq, Eq, Structural)]
pub struct SeekError {
    /// The requested time index.
    pub requested: usize,
    /// The highest computed time index at the moment of the request.
    pub max_time: usize,
}

} // verus!
