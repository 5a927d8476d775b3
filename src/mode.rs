use vstd::prelude::*;

verus! {

/// How allocator events are policed in the current scope, from the least
/// strict to the strictest.
#[derive(Clone, Copy, Debug, PartialEq, Eq, Structural)]
pub enum AllocMode {
    /// Allocation is allowed (unless an enclosing scope forbids it outright).
    Ignore,
    /// Allocation is a policy violation; a nested scope may allow it again.
    Count,
    /// Allocation is a policy violation, even inside nested scopes that try to
    /// allow it.
    CountAll,
}

impl AllocMode {
    /// The mode in force inside a scope that asks for `requested`, entered
    /// while `self` is in force: `CountAll` is sticky, anything else yields.
    pub open spec fn entered(self, requested: AllocMode) -> AllocMode {
        if self == AllocMode::CountAll {
            AllocMode::CountAll
        } else {
            requested
        }
    }

    /// Whether an allocator event under this mode breaks the policy.
    pub open spec fn forbids(self) -> bool {
        self != AllocMode::Ignore
    }

    /// The mode for a new scope that asks for `requested`.
    pub fn enter(self, requested: AllocMode) -> (r: AllocMode)
        ensures
            r == self.entered(requested),
            self == AllocMode::CountAll ==> r == AllocMode::CountAll,
    {
        match self {
            AllocMode::CountAll => AllocMode::CountAll,
            _ => requested,
        }
    }

    /// Whether an allocator event under this mode breaks the policy.
    pub fn forbids_alloc(self) -> (r: bool)
        ensures
            r == self.forbids(),
    {
        match self {
            AllocMode::Ignore => false,
            _ => true,
        }
    }
}

impl Default for AllocMode {
    /// A fresh thread allows allocation.
    fn default() -> (r: AllocMode)
        ensures
            r == AllocMode::Ignore,
    {
        AllocMode::Ignore
    }
}

} // verus!
