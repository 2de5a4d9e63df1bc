//! The memory-pin budget: an explicit, injectable stand-in for the
//! process-wide limit an operating system places on pinned (non-swappable)
//! memory. A cell asks the budget to pin its buffer at creation and returns
//! the grant when wiped; exhaustion degrades a cell (it runs unpinned), it
//! never fails an operation. Modelling the budget as a handle lets a caller
//! simulate exhaustion deterministically; a host that has a real pin
//! facility keeps it in step with this model.
use vstd::prelude::*;

verus! {

/// A process-wide pinned-memory budget: `used` bytes granted out of `limit`.
pub struct PinBudget {
    pub limit: usize,
    pub used: usize,
}

/// The budget after `len` bytes are returned to it: grants below `len`
/// (a cell the budget never granted) leave it empty rather than underflow.
pub open spec fn unpin_spec(b: PinBudget, len: int) -> PinBudget {
    PinBudget {
        limit: b.limit,
        used: if b.used >= len {
            (b.used - len) as usize
        } else {
            0
        },
    }
}

impl PinBudget {
    /// A fresh budget of `limit` bytes, none granted.
    pub fn new(limit: usize) -> (b: PinBudget)
        ensures
            b.limit == limit,
            b.used == 0,
    {
        PinBudget { limit, used: 0 }
    }

    /// Requests a pin grant for `len` bytes. Best effort: the grant is given
    /// exactly when it fits in the remaining budget, and a refusal changes
    /// nothing.
    pub fn pin(&mut self, len: usize) -> (granted: bool)
        ensures
            granted == (old(self).used + len <= old(self).limit),
            granted ==> *final(self) == (PinBudget {
                used: (old(self).used + len) as usize,
                ..*old(self)
            }),
            !granted ==> *final(self) == *old(self),
    {
        if self.used <= self.limit && len <= self.limit - self.used {
            self.used = self.used + len;
            true
        } else {
            false
        }
    }

    /// Returns a grant of `len` bytes to the budget.
    pub fn unpin(&mut self, len: usize)
        ensures
            *final(self) == unpin_spec(*old(self), len as int),
    {
        if self.used >= len {
            self.used = self.used - len;
        } else {
            self.used = 0;
        }
    }
}

} // verus!
