use vstd::prelude::*;
use crate::model::LockModel;
use crate::poison::{granted, try_granted, try_outcome, Flag, LockResult, TryLockError, TryLockResult};
use crate::primitive::RecursiveLock;

verus! {

/// A reentrant mutual-exclusion lock around a value of type `T`.
///
/// The thread that holds the lock can acquire it again without waiting;
/// other threads are refused until every one of its guards is released.
pub struct ReentrantMutex<T> {
    inner: RecursiveLock,
    poison: Flag,
    data: T,
}

/// The token of one acquisition: the thread that made it and its nesting
/// level (1 for the outermost).
pub struct ReentrantMutexGuard {
    thread: u64,
    level: u64,
}

impl ReentrantMutexGuard {
    /// The thread that made the acquisition.
    pub closed spec fn thread(&self) -> u64 {
        self.thread
    }

    /// The nesting level of the acquisition.
    pub closed spec fn level(&self) -> nat {
        self.level as nat
    }

    /// Builds the guard of the acquisition that `thread` has just made on
    /// `lock`, reporting the lock's poison state alongside it.
    pub fn new<T>(lock: &ReentrantMutex<T>, thread: u64) -> (r: LockResult<ReentrantMutexGuard>)
        requires
            lock@.wf(),
            lock@.owner == Some(thread),
        ensures
            r is Ok <==> !lock@.poisoned,
            granted(r).thread() == thread,
            granted(r).level() == lock@.depth,
    {
        let g = ReentrantMutexGuard { thread, level: lock.inner.current_depth() };
        lock.poison.wrap(g)
    }

    /// The nesting level of the acquisition.
    pub fn nesting_level(&self) -> (r: u64)
        ensures
            r as nat == self.level(),
    {
        self.level
    }

    /// The thread that made the acquisition.
    pub fn holder(&self) -> (r: u64)
        ensures
            r == self.thread(),
    {
        self.thread
    }
}

impl<T> View for ReentrantMutex<T> {
    type V = LockModel<T>;

    closed spec fn view(&self) -> LockModel<T> {
        LockModel {
            owner: self.inner.owner(),
            depth: self.inner.depth(),
            poisoned: self.poison.poisoned(),
            data: self.data,
        }
    }
}

impl<T> ReentrantMutex<T> {
    /// Creates an unlocked, clean lock around `t`.
    pub fn new(t: T) -> (r: ReentrantMutex<T>)
        ensures
            r@.wf(),
            r@.owner.is_none(),
            r@.depth == 0,
            !r@.poisoned,
            r@.data == t,
    {
        ReentrantMutex { inner: RecursiveLock::new(), poison: Flag::new(), data: t }
    }

    /// Acquires the lock for `thread`, which must be able to take it now:
    /// either no thread holds it or `thread` already does. A caller that
    /// finds it held by another thread waits for its release first.
    ///
    /// Returns the guard, inside a `PoisonError` if the lock is poisoned.
    pub fn lock(&mut self, thread: u64) -> (r: LockResult<ReentrantMutexGuard>)
        requires
            old(self)@.wf(),
            old(self)@.available_to(thread),
            old(self)@.depth < u64::MAX,
        ensures
            final(self)@.wf(),
            final(self)@ == old(self)@.acquire(thread),
            r is Ok <==> !old(self)@.poisoned,
            granted(r).thread() == thread,
            granted(r).level() == final(self)@.depth,
    {
        self.inner.acquire(thread);
        ReentrantMutexGuard::new(self, thread)
    }

    /// Acquires the lock for `thread` if no other thread holds it, without
    /// waiting. Refuses with `WouldBlock`, and changes nothing, when another
    /// thread holds it.
    pub fn try_lock(&mut self, thread: u64) -> (r: TryLockResult<ReentrantMutexGuard>)
        requires
            old(self)@.wf(),
            old(self)@.owner == Some(thread) ==> old(self)@.depth < u64::MAX,
        ensures
            final(self)@.wf(),
            final(self)@ == old(self)@.try_acquire(thread),
            try_outcome(r) == old(self)@.try_outcome(thread),
            !(try_outcome(r) is WouldBlock) ==> try_granted(r).thread() == thread
                && try_granted(r).level() == final(self)@.depth,
    {
        if self.inner.try_acquire(thread) {
            match ReentrantMutexGuard::new(self, thread) {
                Ok(g) => Ok(g),
                Err(e) => Err(TryLockError::Poisoned(e)),
            }
        } else {
            Err(TryLockError::WouldBlock)
        }
    }

    /// Drops `guard`, the innermost acquisition. When it is the outermost
    /// one, the poison flag is set if its thread is unwinding, and then the
    /// lock is freed for other threads.
    pub fn release(&mut self, guard: ReentrantMutexGuard, unwinding: bool)
        requires
            old(self)@.wf(),
            old(self)@.guard_live(guard.thread(), guard.level()),
            guard.level() == old(self)@.depth,
        ensures
            final(self)@.wf(),
            final(self)@ == old(self)@.release(unwinding),
    {
        if self.inner.current_depth() == 1 {
            self.poison.done(unwinding);
        }
        self.inner.release();
    }

    /// The protected value, reached through a live guard.
    pub fn get(&self, guard: &ReentrantMutexGuard) -> (r: &T)
        requires
            self@.guard_live(guard.thread(), guard.level()),
        ensures
            *r == self@.data,
    {
        &self.data
    }

    /// The number of acquisitions not yet released.
    pub fn depth(&self) -> (r: u64)
        ensures
            r as nat == self@.depth,
    {
        self.inner.current_depth()
    }

    /// Reports whether the lock is poisoned.
    pub fn is_poisoned(&self) -> (r: bool)
        ensures
            r == self@.poisoned,
    {
        self.poison.get()
    }

    /// Reports whether `thread` can acquire the lock now without waiting.
    pub fn is_available_to(&self, thread: u64) -> (r: bool)
        ensures
            r == self@.available_to(thread),
    {
        self.inner.is_available_to(thread)
    }
}

} // verus!
