use vstd::prelude::*;

use crate::counters::Counters;
use crate::event::{AllocEvent, PolicyViolation};
use crate::mode::AllocMode;

verus! {

/// Everything one thread knows about its own allocator traffic.
///
/// Events are always counted, whatever the mode; the mode only decides whether
/// an event is a policy violation. Once a violation has been raised the thread
/// is unwinding from it, and later events are counted but not policed, until
/// [`AllocState::recover`] ends the unwinding.
#[derive(Clone, Copy, Debug, PartialEq, Eq, Structural)]
pub struct AllocState {
    /// running totals since the thread started
    pub counters: Counters,
    /// the mode in force in the innermost scope
    pub mode: AllocMode,
    /// the violation the thread is unwinding from, if any
    pub unwinding: Option<PolicyViolation>,
}

impl AllocState {
    /// The state of a fresh thread.
    pub open spec fn initial() -> AllocState {
        AllocState { counters: Counters::zero(), mode: AllocMode::Ignore, unwinding: None }
    }

    /// Whether the next event is held to the policy.
    pub open spec fn enforcing(self) -> bool {
        self.unwinding is None && self.mode.forbids()
    }

    /// The state after one allocator event.
    pub open spec fn after(self, event: AllocEvent) -> AllocState {
        AllocState {
            counters: self.counters.tally(event),
            mode: self.mode,
            unwinding: if self.enforcing() {
                Some(PolicyViolation { event })
            } else {
                self.unwinding
            },
        }
    }

    /// The state inside a scope that asks for `requested`.
    pub open spec fn entered(self, requested: AllocMode) -> AllocState {
        AllocState { mode: self.mode.entered(requested), ..self }
    }

    /// The state inside a span that asks for `requested`, if anything.
    pub open spec fn entered_opt(self, requested: Option<AllocMode>) -> AllocState {
        match requested {
            Some(m) => self.entered(m),
            None => self,
        }
    }

    /// This state with the mode put back to `mode`.
    pub open spec fn restored(self, mode: AllocMode) -> AllocState {
        AllocState { mode, ..self }
    }

    /// The violation raised between `start` and this state: the thread was not
    /// unwinding at `start` and is unwinding now.
    pub open spec fn raised_since(self, start: AllocState) -> Option<PolicyViolation> {
        if start.unwinding is None {
            self.unwinding
        } else {
            None
        }
    }

    /// The state after `events`, one after the other.
    pub open spec fn replay(self, events: Seq<AllocEvent>) -> AllocState
        decreases events.len(),
    {
        if events.len() == 0 {
            self
        } else {
            self.replay(events.drop_last()).after(events.last())
        }
    }

    /// The state of a fresh thread: nothing counted, allocation allowed.
    pub fn new() -> (r: AllocState)
        ensures
            r == AllocState::initial(),
    {
        AllocState { counters: Counters::new(), mode: AllocMode::Ignore, unwinding: None }
    }

    /// Records one allocator event, and polices it.
    ///
    /// Returns the violation when the event is not allowed here; the thread is
    /// then unwinding from it.
    pub fn record(&mut self, event: AllocEvent) -> (r: Result<(), PolicyViolation>)
        ensures
            *final(self) == old(self).after(event),
            r == if old(self).enforcing() {
                Err(PolicyViolation { event })
            } else {
                Ok(())
            },
    {
        self.counters.record(event);
        if self.unwinding.is_none() && self.mode.forbids_alloc() {
            let v = PolicyViolation { event };
            self.unwinding = Some(v);
            Err(v)
        } else {
            Ok(())
        }
    }

    /// Records the allocation of a block of `size` bytes.
    pub fn record_alloc(&mut self, size: usize, align: usize) -> (r: Result<(), PolicyViolation>)
        ensures
            *final(self) == old(self).after(AllocEvent::Alloc { size, align }),
            r == if old(self).enforcing() {
                Err(PolicyViolation { event: AllocEvent::Alloc { size, align } })
            } else {
                Ok(())
            },
    {
        self.record(AllocEvent::Alloc { size, align })
    }

    /// Records the resizing of a block of `old_size` bytes to `new_size` bytes.
    pub fn record_realloc(&mut self, old_size: usize, align: usize, new_size: usize) -> (r: Result<
        (),
        PolicyViolation,
    >)
        ensures
            *final(self) == old(self).after(AllocEvent::Realloc { old_size, align, new_size }),
            r == if old(self).enforcing() {
                Err(PolicyViolation { event: AllocEvent::Realloc { old_size, align, new_size } })
            } else {
                Ok(())
            },
    {
        self.record(AllocEvent::Realloc { old_size, align, new_size })
    }

    /// Records the release of a block of `size` bytes.
    pub fn record_dealloc(&mut self, size: usize, align: usize) -> (r: Result<(), PolicyViolation>)
        ensures
            *final(self) == old(self).after(AllocEvent::Dealloc { size, align }),
            r == if old(self).enforcing() {
                Err(PolicyViolation { event: AllocEvent::Dealloc { size, align } })
            } else {
                Ok(())
            },
    {
        self.record(AllocEvent::Dealloc { size, align })
    }

    /// Ends the unwinding, handing back the violation it came from.
    pub fn recover(&mut self) -> (r: Option<PolicyViolation>)
        ensures
            r == old(self).unwinding,
            *final(self) == (AllocState { unwinding: None, ..*old(self) }),
    {
        let r = self.unwinding;
        self.unwinding = None;
        r
    }
}

impl Default for AllocState {
    fn default() -> (r: AllocState)
        ensures
            r == AllocState::initial(),
    {
        AllocState::new()
    }
}

/// How many of `events` satisfy `p`.
pub open spec fn occurrences(events: Seq<AllocEvent>, p: spec_fn(AllocEvent) -> bool) -> nat
    decreases events.len(),
{
    if events.len() == 0 {
        0
    } else {
        occurrences(events.drop_last(), p) + if p(events.last()) {
            1nat
        } else {
            0nat
        }
    }
}

proof fn lemma_occurrences_bound(events: Seq<AllocEvent>, p: spec_fn(AllocEvent) -> bool)
    ensures
        occurrences(events, p) <= events.len(),
    decreases events.len(),
{
    if events.len() > 0 {
        lemma_occurrences_bound(events.drop_last(), p);
    }
}

/// For any events between two snapshots, whatever the mode, the counts of the
/// delta are the numbers of allocations, reallocations and deallocations
/// among them (while fewer than `usize::MAX + 1` events lie in between).
pub proof fn lemma_span_counts_events(s: AllocState, events: Seq<AllocEvent>)
    requires
        events.len() <= usize::MAX,
    ensures
        s.replay(events).counters.delta(s.counters).alloc_count == occurrences(
            events,
            |e: AllocEvent| e is Alloc,
        ),
        s.replay(events).counters.delta(s.counters).realloc_count == occurrences(
            events,
            |e: AllocEvent| e is Realloc,
        ),
        s.replay(events).counters.delta(s.counters).dealloc_count == occurrences(
            events,
            |e: AllocEvent| e is Dealloc,
        ),
    decreases events.len(),
{
    if events.len() > 0 {
        let prefix = events.drop_last();
        lemma_span_counts_events(s, prefix);
        lemma_occurrences_bound(prefix, |e: AllocEvent| e is Alloc);
        lemma_occurrences_bound(prefix, |e: AllocEvent| e is Realloc);
        lemma_occurrences_bound(prefix, |e: AllocEvent| e is Dealloc);
    }
}

/// A scoped change of mode. It remembers the mode it replaced, and
/// [`Guard::release`] puts that mode back.
#[derive(Debug)]
pub struct Guard {
    saved: AllocMode,
}

impl Guard {
    /// The mode that releasing the guard puts back.
    pub closed spec fn saved(self) -> AllocMode {
        self.saved
    }

    /// Enters a scope that asks for `mode`.
    pub fn new(state: &mut AllocState, mode: AllocMode) -> (g: Guard)
        ensures
            *final(state) == old(state).entered(mode),
            g.saved() == old(state).mode,
    {
        let saved = state.mode;
        state.mode = saved.enter(mode);
        Guard { saved }
    }

    /// Leaves the scope: the mode is the one in force before it was entered.
    pub fn release(self, state: &mut AllocState)
        ensures
            *final(state) == old(state).restored(self.saved()),
    {
        state.mode = self.saved;
    }
}

/// A measured stretch of work, optionally under a mode of its own.
#[derive(Debug)]
pub struct Span {
    start: AllocState,
    guard: Option<Guard>,
}

impl Span {
    /// A guard, if any, puts back the mode of the start.
    #[verifier::type_invariant]
    spec fn inv(self) -> bool {
        match self.guard {
            Some(g) => g.saved == self.start.mode,
            None => true,
        }
    }

    /// The state when the span was opened.
    pub closed spec fn start(self) -> AllocState {
        self.start
    }

    /// Whether the span changed the mode.
    pub closed spec fn guarded(self) -> bool {
        self.guard is Some
    }

    /// Opens a span; with `Some(mode)` the span is a scope that asks for `mode`.
    pub fn open(state: &mut AllocState, mode: Option<AllocMode>) -> (s: Span)
        ensures
            *final(state) == old(state).entered_opt(mode),
            s.start() == *old(state),
            s.guarded() == (mode is Some),
    {
        let start = *state;
        let guard = match mode {
            Some(m) => Some(Guard::new(state, m)),
            None => None,
        };
        Span { start, guard }
    }

    /// Closes the span. Returns what was counted in it, and the violation
    /// raised in it, if one was; a guarded span puts the earlier mode back.
    pub fn close(self, state: &mut AllocState) -> (r: (Counters, Option<PolicyViolation>))
        ensures
            *final(state) == if self.guarded() {
                old(state).restored(self.start().mode)
            } else {
                *old(state)
            },
            r.0 == old(state).counters.delta(self.start().counters),
            r.1 == old(state).raised_since(self.start()),
    {
        proof {
            use_type_invariant(&self);
        }
        let delta = state.counters.since(&self.start.counters);
        let raised = if self.start.unwinding.is_none() {
            state.unwinding
        } else {
            None
        };
        match self.guard {
            Some(g) => g.release(state),
            None => {},
        }
        (delta, raised)
    }
}

} // verus!
