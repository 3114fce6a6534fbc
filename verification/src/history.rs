//! The simulation history: an append-only log of computed time steps
//! and the pair of time indices that ranges over it.
//!
//! Each step is the vector of sample values on the fixed spatial grid,
//! one value per grid point; the scalar type of the values is left to
//! the caller. Step `i` is the result of exactly `i` convolution
//! applications to step `0`, and the grid never refines or coarsens,
//! so every step has the length of the first.
//!
//! The caller drives the machine: when `needs_compute` holds, it
//! evaluates the convolution of the last step and hands the result to
//! `advance_computed`; otherwise `advance_scrub` moves forward inside
//! the already-computed history.

use vstd::prelude::*;

use crate::errors::SeekError;

verus! {

/// The abstract state of a [`History`]: the computed steps and the two
/// time indices.
pub struct HistoryView<Y> {
    /// Every computed step, in time order.
    pub steps: Seq<Seq<Y>>,
    /// The currently viewed time index.
    pub current_time: int,
    /// The highest time index ever computed.
    pub max_time: int,
}

impl<Y> HistoryView<Y> {
    /// The invariant of the history: the indices stay inside the log,
    /// the log holds exactly the steps up to `max_time`, and every
    /// step lives on the same non-empty grid as the first.
    pub open spec fn wf(self) -> bool {
        &&& 0 <= self.current_time <= self.max_time
        &&& self.max_time + 1 == self.steps.len()
        &&& self.steps[0].len() > 0
        &&& forall|i: int|
            0 <= i < self.steps.len() ==> #[trigger] self.steps[i].len() == self.steps[0].len()
    }

    /// The state a seek request to index `t` leaves behind: the viewed
    /// index moves when the request is in range, nothing moves when it
    /// is not.
    pub open spec fn after_seek(self, t: int) -> HistoryView<Y> {
        if 0 <= t <= self.max_time {
            HistoryView { current_time: t, ..self }
        } else {
            self
        }
    }
}

/// Seeking is idempotent: asking twice for the same time index leaves
/// the same state as asking once.
pub proof fn lemma_seek_idempotent<Y>(v: HistoryView<Y>, t: int)
    ensures
        v.after_seek(t).after_seek(t) == v.after_seek(t),
{
}

/// The value range handed to range-dependent consumers of simulation
/// output, such as a colour scale.
///
/// A computed range whose ends are not finite is a data-quality
/// condition, not a fatal one: the caller reports which ends are
/// usable, and every unusable end is replaced by the corresponding end
/// of the fixed fallback range, so that no unusable value travels on.
pub fn sanitized_range<R: Copy>(range: (R, R), min_ok: bool, max_ok: bool, fallback: (R, R)) -> (r:
    (R, R))
    ensures
        r.0 == (if min_ok {
            range.0
        } else {
            fallback.0
        }),
        r.1 == (if max_ok {
            range.1
        } else {
            fallback.1
        }),
{
    (
        if min_ok {
            range.0
        } else {
            fallback.0
        },
        if max_ok {
            range.1
        } else {
            fallback.1
        },
    )
}

/// The ordered history of all computed time steps, together with the
/// currently viewed and the highest computed time index.
pub struct History<Y> {
    steps: Vec<Vec<Y>>,
    current_time: usize,
    max_time: usize,
}

impl<Y> View for History<Y> {
    type V = HistoryView<Y>;

    closed spec fn view(&self) -> HistoryView<Y> {
        HistoryView {
            steps: self.steps@.map(|i: int, s: Vec<Y>| s@),
            current_time: self.current_time as int,
            max_time: self.max_time as int,
        }
    }
}

impl<Y> History<Y> {
    /// Shorthand for the invariant of the abstract state.
    pub open spec fn wf(&self) -> bool {
        self@.wf()
    }

    /// Seeds a fresh history from the rendered initial condition: the
    /// log holds exactly that step and both time indices are zero.
    pub fn seed(initial: Vec<Y>) -> (h: Self)
        requires
            initial@.len() > 0,
        ensures
            h.wf(),
            h@.steps == seq![initial@],
            h@.current_time == 0,
            h@.max_time == 0,
    {
        let mut steps: Vec<Vec<Y>> = Vec::new();
        steps.push(initial);
        let h = History { steps, current_time: 0, max_time: 0 };
        proof {
            assert(h@.steps =~= seq![h.steps@[0]@]);
        }
        h
    }

    /// Discards the whole history and reseeds it, as a settings change
    /// demands; the result is the state `seed` would produce.
    pub fn restart(&mut self, initial: Vec<Y>)
        requires
            initial@.len() > 0,
        ensures
            final(self).wf(),
            final(self)@.steps == seq![initial@],
            final(self)@.current_time == 0,
            final(self)@.max_time == 0,
    {
        *self = History::seed(initial);
    }

    /// Whether an advance request has reached the frontier of the
    /// computed history, so that the next step must be computed before
    /// it can be viewed.
    pub fn needs_compute(&self) -> (r: bool)
        ensures
            r == (self@.current_time == self@.max_time),
    {
        self.current_time == self.max_time
    }

    /// An advance below the frontier: a scrub forward into history
    /// that is already computed. Only the viewed index moves.
    pub fn advance_scrub(&mut self)
        requires
            old(self).wf(),
            old(self)@.current_time < old(self)@.max_time,
        ensures
            final(self).wf(),
            final(self)@.steps == old(self)@.steps,
            final(self)@.max_time == old(self)@.max_time,
            final(self)@.current_time == old(self)@.current_time + 1,
    {
        self.current_time = self.current_time + 1;
    }

    /// An advance at the frontier: appends the freshly computed step
    /// and moves both indices onto it. The new step must live on the
    /// grid of the existing steps.
    pub fn advance_computed(&mut self, step: Vec<Y>)
        requires
            old(self).wf(),
            old(self)@.current_time == old(self)@.max_time,
            step@.len() == old(self)@.steps[0].len(),
            old(self)@.max_time + 1 <= usize::MAX,
        ensures
            final(self).wf(),
            final(self)@.steps == old(self)@.steps.push(step@),
            final(self)@.max_time == old(self)@.max_time + 1,
            final(self)@.current_time == old(self)@.current_time + 1,
    {
        self.steps.push(step);
        self.current_time = self.current_time + 1;
        self.max_time = self.max_time + 1;
        proof {
            assert(self@.steps =~= old(self)@.steps.push(self.steps@.last()@));
        }
    }

    /// Sets the viewed time index directly, as the time-scrubbing
    /// control requests. An index beyond the computed frontier is
    /// rejected and reported; the state then does not change.
    pub fn seek(&mut self, t: usize) -> (r: Result<(), SeekError>)
        requires
            old(self).wf(),
        ensures
            final(self).wf(),
            final(self)@ == old(self)@.after_seek(t as int),
            t <= old(self)@.max_time <==> r is Ok,
            r matches Err(e) ==> e.requested == t && e.max_time as int == old(self)@.max_time,
    {
        if t <= self.max_time {
            self.current_time = t;
            Ok(())
        } else {
            Err(SeekError { requested: t, max_time: self.max_time })
        }
    }

    /// The currently viewed time index.
    pub fn current_time(&self) -> (r: usize)
        ensures
            r as int == self@.current_time,
    {
        self.current_time
    }

    /// The highest computed time index.
    pub fn max_time(&self) -> (r: usize)
        ensures
            r as int == self@.max_time,
    {
        self.max_time
    }

    /// The step at the currently viewed time index.
    pub fn current_representation(&self) -> (r: &Vec<Y>)
        requires
            self.wf(),
        ensures
            r@ == self@.steps[self@.current_time],
    {
        &self.steps[self.current_time]
    }

    /// Every computed step, in time order.
    pub fn all_representations(&self) -> (r: &Vec<Vec<Y>>)
        ensures
            r@.len() == self@.steps.len(),
            forall|i: int| 0 <= i < r@.len() ==> #[trigger] r@[i]@ == self@.steps[i],
    {
        &self.steps
    }
}

} // verus!
