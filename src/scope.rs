use vstd::prelude::*;

use crate::counters::Counters;
use crate::event::{AllocEvent, PolicyViolation};
use crate::mode::AllocMode;
use crate::state::{AllocState, Span};

verus! {

/// What a policed scope reports: the work's result, or the violation raised
/// while it ran (between the `start` and `end` states).
pub open spec fn outcome<R>(start: AllocState, end: AllocState, x: R) -> Result<R, PolicyViolation> {
    match end.raised_since(start) {
        Some(v) => Err(v),
        None => Ok(x),
    }
}

/// Runs `f` and counts the allocator events it makes.
///
/// Returns what was counted between the start and the end of `f`, with `f`'s
/// result. The mode is left as `f` leaves it.
pub fn count_alloc<F, R>(state: &mut AllocState, f: F) -> (r: (Counters, R)) where
    F: FnOnce(&mut AllocState) -> R,

    requires
        forall|t: &mut AllocState| *t == *old(state) ==> f.requires((t,)),
    ensures
        exists|t: &mut AllocState|
            *t == *old(state) && *final(t) == *final(state) && f.ensures((t,), r.1),
        r.0 == final(state).counters.delta(old(state).counters),
{
    let span = Span::open(state, None);
    let x = f(state);
    let (delta, _) = span.close(state);
    (delta, x)
}

/// Runs `f` in a scope that asks for `mode`.
///
/// Inside, the mode is `mode`, unless the enclosing mode is `CountAll`, which
/// stays. Afterwards the enclosing mode is back. Returns `f`'s result, or the
/// violation raised while `f` ran.
pub fn guard_fn<F, R>(state: &mut AllocState, mode: AllocMode, f: F) -> (r: Result<R, PolicyViolation>) where
    F: FnOnce(&mut AllocState) -> R,

    requires
        forall|t: &mut AllocState| *t == old(state).entered(mode) ==> f.requires((t,)),
    ensures
        exists|t: &mut AllocState, x: R|
            *t == old(state).entered(mode) && #[trigger] f.ensures((t,), x) && *final(state)
                == final(t).restored(old(state).mode) && r == outcome(*old(state), *final(t), x),
{
    let span = Span::open(state, Some(mode));
    let x = f(state);
    let (_, raised) = span.close(state);
    match raised {
        Some(v) => Err(v),
        None => Ok(x),
    }
}

/// Allows allocation while `f` runs, even inside a scope that denies it; a
/// scope that forbids it still does.
pub fn allow_alloc<F, R>(state: &mut AllocState, f: F) -> (r: Result<R, PolicyViolation>) where
    F: FnOnce(&mut AllocState) -> R,

    requires
        forall|t: &mut AllocState|
            *t == old(state).entered(AllocMode::Ignore) ==> f.requires((t,)),
    ensures
        exists|t: &mut AllocState, x: R|
            *t == old(state).entered(AllocMode::Ignore) && #[trigger] f.ensures((t,), x)
                && *final(state) == final(t).restored(old(state).mode) && r == outcome(
                *old(state),
                *final(t),
                x,
            ),
{
    guard_fn(state, AllocMode::Ignore, f)
}

/// Denies allocation while `f` runs; a nested [`allow_alloc`] allows it again.
pub fn deny_alloc<F, R>(state: &mut AllocState, f: F) -> (r: Result<R, PolicyViolation>) where
    F: FnOnce(&mut AllocState) -> R,

    requires
        forall|t: &mut AllocState|
            *t == old(state).entered(AllocMode::Count) ==> f.requires((t,)),
    ensures
        exists|t: &mut AllocState, x: R|
            *t == old(state).entered(AllocMode::Count) && #[trigger] f.ensures((t,), x)
                && *final(state) == final(t).restored(old(state).mode) && r == outcome(
                *old(state),
                *final(t),
                x,
            ),
{
    guard_fn(state, AllocMode::Count, f)
}

/// Forbids allocation while `f` runs, nested [`allow_alloc`] scopes included.
pub fn forbid_alloc<F, R>(state: &mut AllocState, f: F) -> (r: Result<R, PolicyViolation>) where
    F: FnOnce(&mut AllocState) -> R,

    requires
        forall|t: &mut AllocState|
            *t == old(state).entered(AllocMode::CountAll) ==> f.requires((t,)),
    ensures
        exists|t: &mut AllocState, x: R|
            *t == old(state).entered(AllocMode::CountAll) && #[trigger] f.ensures((t,), x)
                && *final(state) == final(t).restored(old(state).mode) && r == outcome(
                *old(state),
                *final(t),
                x,
            ),
{
    guard_fn(state, AllocMode::CountAll, f)
}

/// The state at the end of a scope that asks for `mode`, opened on `s`, whose
/// work allocates one block of `size` bytes.
pub open spec fn end_of_one_alloc(s: AllocState, mode: AllocMode, size: usize, align: usize) -> AllocState {
    s.entered(mode).after(AllocEvent::Alloc { size, align })
}

/// Allocating one block inside [`allow_alloc`] raises nothing, unless an
/// enclosing scope forbids allocation outright.
pub proof fn lemma_allow_permits_alloc(s: AllocState, size: usize, align: usize)
    requires
        s.mode != AllocMode::CountAll,
    ensures
        outcome(s, end_of_one_alloc(s, AllocMode::Ignore, size, align), ()) == Ok::<
            (),
            PolicyViolation,
        >(()),
{
}

/// Allocating one block inside [`deny_alloc`] raises a violation naming that
/// allocation, unless the thread is already unwinding.
pub proof fn lemma_deny_rejects_alloc(s: AllocState, size: usize, align: usize)
    requires
        s.unwinding is None,
    ensures
        outcome(s, end_of_one_alloc(s, AllocMode::Count, size, align), ()) == Err::<
            (),
            PolicyViolation,
        >(PolicyViolation { event: AllocEvent::Alloc { size, align } }),
{
}

/// Allocating one block inside [`forbid_alloc`] raises a violation naming that
/// allocation, unless the thread is already unwinding.
pub proof fn lemma_forbid_rejects_alloc(s: AllocState, size: usize, align: usize)
    requires
        s.unwinding is None,
    ensures
        outcome(s, end_of_one_alloc(s, AllocMode::CountAll, size, align), ()) == Err::<
            (),
            PolicyViolation,
        >(PolicyViolation { event: AllocEvent::Alloc { size, align } }),
{
}

/// What a scope that asks for `outer`, opened on `s`, reports when its work is
/// a nested scope that asks for `inner` and allocates one block.
pub open spec fn nested_one_alloc(
    s: AllocState,
    outer: AllocMode,
    inner: AllocMode,
    size: usize,
    align: usize,
) -> Result<Result<(), PolicyViolation>, PolicyViolation> {
    let d = s.entered(outer);
    let e = end_of_one_alloc(d, inner, size, align);
    outcome(s, e.restored(d.mode), outcome(d, e, ()))
}

/// An [`allow_alloc`] nested in a [`deny_alloc`] allows again: allocating one
/// block in it raises nothing, in either scope.
pub proof fn lemma_allow_relaxes_deny(s: AllocState, size: usize, align: usize)
    requires
        s.mode != AllocMode::CountAll,
    ensures
        nested_one_alloc(s, AllocMode::Count, AllocMode::Ignore, size, align) == Ok::<
            Result<(), PolicyViolation>,
            PolicyViolation,
        >(Ok(())),
{
}

/// An [`allow_alloc`] nested in a [`forbid_alloc`] does not allow: allocating
/// one block in it raises a violation, reported by both scopes, unless the
/// thread is already unwinding.
pub proof fn lemma_forbid_is_sticky(s: AllocState, size: usize, align: usize)
    requires
        s.unwinding is None,
    ensures
        nested_one_alloc(s, AllocMode::CountAll, AllocMode::Ignore, size, align) == Err::<
            Result<(), PolicyViolation>,
            PolicyViolation,
        >(PolicyViolation { event: AllocEvent::Alloc { size, align } }),
        s.entered(AllocMode::CountAll).entered(AllocMode::Ignore).mode == AllocMode::CountAll,
{
}

} // verus!
