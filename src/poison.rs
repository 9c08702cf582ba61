use vstd::prelude::*;

verus! {

/// Records whether a critical section of the lock ever ended while its
/// thread was unwinding. Once set, the flag stays set.
pub struct Flag {
    failed: bool,
}

impl Flag {
    /// Whether the flag has been set.
    pub closed spec fn poisoned(&self) -> bool {
        self.failed
    }

    /// A clean flag.
    pub fn new() -> (r: Flag)
        ensures
            !r.poisoned(),
    {
        Flag { failed: false }
    }

    /// Reports whether the flag has been set.
    pub fn get(&self) -> (r: bool)
        ensures
            r == self.poisoned(),
    {
        self.failed
    }

    /// Closes a critical section: the flag becomes set if the section ended
    /// while its thread was unwinding, and is never cleared.
    pub fn done(&mut self, unwinding: bool)
        ensures
            final(self).poisoned() == (old(self).poisoned() || unwinding),
    {
        if unwinding {
            self.failed = true;
        }
    }

    /// Hands `value` back as `Ok` on a clean flag and inside a `PoisonError`
    /// on a poisoned one.
    pub fn wrap<G>(&self, value: G) -> (r: LockResult<G>)
        ensures
            r is Ok <==> !self.poisoned(),
            granted(r) == value,
    {
        if self.failed {
            Err(PoisonError::new(value))
        } else {
            Ok(value)
        }
    }
}

/// An acquisition succeeded, but a previous holder left its critical section
/// while unwinding. The guard is carried so that the caller may still reach
/// the value on purpose.
pub struct PoisonError<G> {
    guard: G,
}

impl<G> PoisonError<G> {
    /// What the error carries.
    pub closed spec fn inner(&self) -> G {
        self.guard
    }

    /// Wraps `guard` in a poison error.
    pub fn new(guard: G) -> (r: PoisonError<G>)
        ensures
            r.inner() == guard,
    {
        PoisonError { guard }
    }

    /// Gives up the error and returns what it carries.
    pub fn into_inner(self) -> (r: G)
        ensures
            r == self.inner(),
    {
        self.guard
    }

    /// A reference to what the error carries.
    pub fn get_ref(&self) -> (r: &G)
        ensures
            *r == self.inner(),
    {
        &self.guard
    }
}

/// Why a non-blocking acquisition did not hand out a plain guard.
pub enum TryLockError<G> {
    /// The lock was acquired, but it is poisoned.
    Poisoned(PoisonError<G>),
    /// Another thread holds the lock.
    WouldBlock,
}

/// The result of a blocking acquisition.
pub type LockResult<G> = Result<G, PoisonError<G>>;

/// The result of a non-blocking acquisition.
pub type TryLockResult<G> = Result<G, TryLockError<G>>;

/// The guard that a lock result hands out, poisoned or not.
pub open spec fn granted<G>(r: LockResult<G>) -> G {
    match r {
        Ok(g) => g,
        Err(e) => e.inner(),
    }
}

/// How a non-blocking acquisition ended.
pub enum TryOutcome {
    Acquired,
    Poisoned,
    WouldBlock,
}

/// The outcome that a non-blocking acquisition result reports.
pub open spec fn try_outcome<G>(r: TryLockResult<G>) -> TryOutcome {
    match r {
        Ok(_) => TryOutcome::Acquired,
        Err(TryLockError::Poisoned(_)) => TryOutcome::Poisoned,
        Err(TryLockError::WouldBlock) => TryOutcome::WouldBlock,
    }
}

/// The guard that a successful non-blocking acquisition hands out.
pub open spec fn try_granted<G>(r: TryLockResult<G>) -> G
    recommends
        !(try_outcome(r) is WouldBlock),
{
    match r {
        Ok(g) => g,
        Err(TryLockError::Poisoned(e)) => e.inner(),
        Err(TryLockError::WouldBlock) => arbitrary(),
    }
}

} // verus!
