use vstd::prelude::*;

use crate::counters::Counters;
use crate::event::PolicyViolation;
use crate::mode::AllocMode;
use crate::state::{AllocState, Span};

verus! {

/// A resumable unit of work, driven one step at a time, whose allocator
/// events are counted over all its steps.
///
/// Each step is a span of its own: the mode the guard asks for, if any, is put
/// in force just before the step and taken back just after it, so work that
/// runs between two steps is neither counted here nor held to this policy.
#[derive(Debug)]
pub struct AsyncGuard<F> {
    counts: Counters,
    future: F,
    mode: Option<AllocMode>,
}

/// What one step reports: the violation raised in a guarded step; else, once
/// the work is done, the totals of all steps with its result.
pub open spec fn step_outcome<T>(
    guarded: bool,
    start: AllocState,
    end: AllocState,
    x: Option<T>,
    counted: Counters,
) -> Result<Option<(Counters, T)>, PolicyViolation> {
    if guarded && end.raised_since(start) is Some {
        Err(end.raised_since(start)->Some_0)
    } else {
        match x {
            Some(v) => Ok(Some((counted, v))),
            None => Ok(None),
        }
    }
}

/// Counts the allocator events of `future` over all its steps.
pub fn count_alloc_future<F>(future: F) -> (g: AsyncGuard<F>)
    ensures
        g.counted() == Counters::zero(),
        g.work() == future,
        g.policy() == None::<AllocMode>,
{
    AsyncGuard { counts: Counters::new(), future, mode: None }
}

/// Counts the allocator events of `future` over all its steps, and runs each
/// step in a scope that asks for `mode`.
pub fn guard_future<F>(mode: AllocMode, future: F) -> (g: AsyncGuard<F>)
    ensures
        g.counted() == Counters::zero(),
        g.work() == future,
        g.policy() == Some(mode),
{
    AsyncGuard { counts: Counters::new(), future, mode: Some(mode) }
}

impl<F> AsyncGuard<F> {
    /// What the steps so far have counted.
    pub closed spec fn counted(self) -> Counters {
        self.counts
    }

    /// The work still to be driven.
    pub closed spec fn work(self) -> F {
        self.future
    }

    /// The mode each step asks for, if any.
    pub closed spec fn policy(self) -> Option<AllocMode> {
        self.mode
    }

    /// What the steps so far have counted.
    pub fn counts(&self) -> (r: Counters)
        ensures
            r == self.counted(),
    {
        self.counts
    }

    /// Drives the work one step: `step` advances it and returns its result
    /// once it is done.
    ///
    /// The step's events are added to the totals. Returns the violation raised
    /// in a guarded step; else `None` while the work is not done, and the totals
    /// with the result once it is.
    pub fn poll_step<T, G>(&mut self, state: &mut AllocState, step: G) -> (r: Result<
        Option<(Counters, T)>,
        PolicyViolation,
    >) where G: FnOnce(&mut F, &mut AllocState) -> Option<T>
        requires
            forall|w: &mut F, t: &mut AllocState|
                *w == old(self).work() && *t == old(state).entered_opt(old(self).policy())
                    ==> step.requires((w, t)),
        ensures
            exists|w: &mut F, t: &mut AllocState, x: Option<T>|
                {
                    &&& *w == old(self).work()
                    &&& *t == old(state).entered_opt(old(self).policy())
                    &&& step.ensures((w, t), x)
                    &&& final(self).work() == *final(w)
                    &&& *final(state) == match old(self).policy() {
                        Some(_) => final(t).restored(old(state).mode),
                        None => *final(t),
                    }
                    &&& r == step_outcome(
                        old(self).policy() is Some,
                        *old(state),
                        *final(t),
                        x,
                        final(self).counted(),
                    )
                },
            final(self).counted() == old(self).counted().total(
                final(state).counters.delta(old(state).counters),
            ),
            final(self).policy() == old(self).policy(),
    {
        let span = Span::open(state, self.mode);
        let x = step(&mut self.future, state);
        let (delta, raised) = span.close(state);
        self.counts = self.counts.plus(&delta);
        if self.mode.is_some() {
            match raised {
                Some(v) => {
                    return Err(v);
                },
                None => {},
            }
        }
        match x {
            Some(v) => Ok(Some((self.counts, v))),
            None => Ok(None),
        }
    }
}

} // verus!
