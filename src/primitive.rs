use vstd::prelude::*;

verus! {

/// The recursive-lock primitive: which thread holds it and how many times
/// that thread has acquired it without releasing.
pub struct RecursiveLock {
    owner: Option<u64>,
    depth: u64,
}

impl RecursiveLock {
    /// The thread that holds the primitive, if any.
    pub closed spec fn owner(&self) -> Option<u64> {
        self.owner
    }

    /// The number of acquisitions not yet released.
    pub closed spec fn depth(&self) -> nat {
        self.depth as nat
    }

    /// The primitive is held exactly when its depth is positive.
    pub open spec fn wf(&self) -> bool {
        self.owner().is_none() <==> self.depth() == 0
    }

    /// Thread `t` may acquire the primitive without waiting.
    pub open spec fn available_to(&self, t: u64) -> bool {
        self.owner().is_none() || self.owner() == Some(t)
    }

    /// Creates a primitive that no thread holds.
    pub fn new() -> (r: RecursiveLock)
        ensures
            r.wf(),
            r.owner().is_none(),
            r.depth() == 0,
    {
        RecursiveLock { owner: None, depth: 0 }
    }

    /// Reports whether the primitive is held by `t`.
    pub fn is_held_by(&self, t: u64) -> (r: bool)
        ensures
            r == (self.owner() == Some(t)),
    {
        match self.owner {
            Some(o) => o == t,
            None => false,
        }
    }

    /// Reports whether `t` may acquire the primitive now.
    pub fn is_available_to(&self, t: u64) -> (r: bool)
        ensures
            r == self.available_to(t),
    {
        match self.owner {
            Some(o) => o == t,
            None => true,
        }
    }

    /// The current depth.
    pub fn current_depth(&self) -> (r: u64)
        ensures
            r as nat == self.depth(),
    {
        self.depth
    }

    /// Acquires the primitive for `t`, which must be able to take it now.
    pub fn acquire(&mut self, t: u64)
        requires
            old(self).wf(),
            old(self).available_to(t),
            old(self).depth() < u64::MAX,
        ensures
            final(self).wf(),
            final(self).owner() == Some(t),
            final(self).depth() == old(self).depth() + 1,
    {
        self.owner = Some(t);
        self.depth = self.depth + 1;
    }

    /// Acquires the primitive for `t` if no other thread holds it; returns
    /// whether it did.
    pub fn try_acquire(&mut self, t: u64) -> (r: bool)
        requires
            old(self).wf(),
            old(self).owner() == Some(t) ==> old(self).depth() < u64::MAX,
        ensures
            final(self).wf(),
            r == old(self).available_to(t),
            r ==> final(self).owner() == Some(t) && final(self).depth() == old(self).depth() + 1,
            !r ==> *final(self) == *old(self),
    {
        if self.is_available_to(t) {
            self.acquire(t);
            true
        } else {
            false
        }
    }

    /// Releases one acquisition; the primitive becomes free when the depth
    /// reaches zero.
    pub fn release(&mut self)
        requires
            old(self).wf(),
            old(self).depth() > 0,
        ensures
            final(self).wf(),
            final(self).depth() == old(self).depth() - 1,
            final(self).owner() == if old(self).depth() == 1 {
                None
            } else {
                old(self).owner()
            },
    {
        self.depth = self.depth - 1;
        if self.depth == 0 {
            self.owner = None;
        }
    }
}

} // verus!
