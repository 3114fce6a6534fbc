//! The configuration bundle that seeds a simulation.
//!
//! A settings value is replaced as a whole: every change request
//! either produces the fully updated value or leaves the old one
//! untouched and reports why. The two numeric text fields are parsed
//! and validated here; the initial-condition text and the kernel
//! parameters arrive already evaluated on the caller's types, since
//! reading them is numeric work.

use vstd::prelude::*;

use crate::border::BorderConditions;
use crate::errors::FormatError;
use crate::errors::ParseError;
use crate::kernel::Kernel;
use crate::kind::FnInput;
use crate::kind::FnInputKind;
use crate::text::spec_parse_usize;
use crate::text::parse_usize;

verus! {

/// The sample count a quality text denotes. A grid needs at least two
/// samples to span a domain, so a count below two is a degenerate grid
/// and is rejected as a validation error.
pub open spec fn spec_parse_quality(s: Seq<char>) -> Option<usize> {
    match spec_parse_usize(s) {
        Some(n) => if n >= 2 {
            Some(n)
        } else {
            None
        },
        None => None,
    }
}

/// A requested change to one settings field.
///
/// Text payloads carry what the user typed; the initial condition and
/// the kernel arrive already read on the caller's types, together with
/// everything that must change with them.
#[derive(Debug)]
pub enum SettingsChange<R, E, P> {
    /// Replace the initial condition with an already classified input.
    InitialConditions(FnInput<E, P>),
    /// Replace the border conditions with the variant the text names.
    BorderConditions(String),
    /// Replace the sample count with the value the text denotes.
    Quality(String),
    /// Replace the kernel, time step and derived spread together.
    TimeStep(Kernel<R>),
    /// Replace the whole bundle, as the reset control requests.
    Reset(Settings<R, E, P>),
}

/// The immutable configuration of one simulation run: the initial
/// condition, the sampling domain and resolution, the border-condition
/// mode, the kernel parameters, and the size of the drawing surface.
#[derive(Debug)]
pub struct Settings<R, E, P> {
    pub initial_conditions: FnInput<E, P>,
    pub domain: (R, R),
    pub border_conditions: BorderConditions,
    pub quality: usize,
    pub kernel: Kernel<R>,
    pub canvas_size: (u32, u32),
}

impl<R, E, P> Settings<R, E, P> {
    /// Applies one change request. A request with a valid payload
    /// replaces exactly its field (or, for a reset, the whole value);
    /// a text that denotes nothing is rejected and nothing changes.
    pub fn update(&mut self, change: SettingsChange<R, E, P>) -> (r: Result<(), ParseError>)
        ensures
            match change {
                SettingsChange::InitialConditions(f) => r is Ok && *final(self) == (Settings {
                    initial_conditions: f,
                    ..*old(self)
                }),
                SettingsChange::BorderConditions(s) => match BorderConditions::spec_from_str(s@) {
                    Some(b) => r is Ok && *final(self) == (Settings {
                        border_conditions: b,
                        ..*old(self)
                    }),
                    None => (r matches Err(e) && e.input@ == s@) && *final(self) == *old(self),
                },
                SettingsChange::Quality(s) => match spec_parse_quality(s@) {
                    Some(n) => r is Ok && *final(self) == (Settings { quality: n, ..*old(self) }),
                    None => (r matches Err(e) && e.input@ == s@) && *final(self) == *old(self),
                },
                SettingsChange::TimeStep(k) => r is Ok && *final(self) == (Settings {
                    kernel: k,
                    ..*old(self)
                }),
                SettingsChange::Reset(s) => r is Ok && *final(self) == s,
            },
    {
        match change {
            SettingsChange::InitialConditions(f) => {
                self.initial_conditions = f;
                Ok(())
            },
            SettingsChange::BorderConditions(s) => match BorderConditions::from_str(s.as_str()) {
                Ok(b) => {
                    self.border_conditions = b;
                    Ok(())
                },
                Err(e) => Err(e),
            },
            SettingsChange::Quality(s) => match parse_usize(s.as_str()) {
                Ok(n) => {
                    if n >= 2 {
                        self.quality = n;
                        Ok(())
                    } else {
                        Err(ParseError { input: s })
                    }
                },
                Err(e) => Err(e),
            },
            SettingsChange::TimeStep(k) => {
                self.kernel = k;
                Ok(())
            },
            SettingsChange::Reset(s) => {
                *self = s;
                Ok(())
            },
        }
    }

    /// Replaces the initial condition from its raw text and the
    /// outcome of its two readings, as the text control requests: the
    /// classified input takes the field, or the text is rejected by
    /// name and nothing changes.
    pub fn set_initial_conditions(
        &mut self,
        s: &str,
        analytical: Option<E>,
        points: Option<P>,
    ) -> (r: Result<(), FormatError>)
        ensures
            match r {
                Ok(()) => final(self).initial_conditions.string@ == s@ && (*final(self)
                    == (Settings {
                    initial_conditions: final(self).initial_conditions,
                    ..*old(self)
                })) && {
                    ||| (analytical matches Some(e) && final(self).initial_conditions.kind
                        == (FnInputKind::<E, P>::Analytical { expression: e }))
                    ||| {
                        &&& analytical is None
                        &&& points matches Some(p) && final(self).initial_conditions.kind
                            == (FnInputKind::<E, P>::Points { spline: p })
                    }
                },
                Err(e) => analytical is None && points is None && e.0@ == s@ && *final(self)
                    == *old(self),
            },
    {
        match FnInput::from_classified(s, analytical, points) {
            Ok(f) => {
                self.initial_conditions = f;
                Ok(())
            },
            Err(e) => Err(e),
        }
    }
}

} // verus!
