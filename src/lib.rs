//! Per-thread accounting of heap traffic, with scoped policies that forbid
//! allocation in a region of code.
//!
//! The state of one thread is an [`AllocState`]: its running [`Counters`], the
//! current [`AllocMode`], and the policy violation it is unwinding from, if any.
//! Every allocator event is recorded into it; the scoped verbs
//! ([`count_alloc`], [`allow_alloc`], [`deny_alloc`], [`forbid_alloc`]) run a
//! unit of work against it and report what happened, and [`AsyncGuard`] does
//! the same for work that is driven one step at a time.
//!
//! Events are counted whatever the mode; the mode only decides whether an event
//! breaks the policy. A reallocation adds its new size to `realloc_size`.
pub mod allocator;
pub mod counters;
pub mod event;
pub mod future;
pub mod mode;
pub mod scope;
pub mod state;

pub use allocator::AllocCounter;
pub use counters::Counters;
pub use event::{AllocEvent, PolicyViolation};
pub use future::{count_alloc_future, guard_future, AsyncGuard};
pub use mode::AllocMode;
pub use scope::{allow_alloc, count_alloc, deny_alloc, forbid_alloc, guard_fn};
pub use state::{AllocState, Guard, Span};
