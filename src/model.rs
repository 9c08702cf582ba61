use vstd::prelude::*;

verus! {

/// The abstract state of a reentrant mutex: the thread that holds it, how
/// many acquisitions of that thread are not yet released, whether it is
/// poisoned, and the protected value.
pub struct LockModel<T> {
    pub owner: Option<u64>,
    pub depth: nat,
    pub poisoned: bool,
    pub data: T,
}

/// One step that a thread can take on a lock.
pub enum LockOp {
    /// The thread tries to acquire the lock.
    Acquire(u64),
    /// The innermost guard is dropped; the flag tells whether its thread is
    /// unwinding.
    Release(bool),
}

impl<T> LockModel<T> {
    /// A lock is held exactly when some acquisition is outstanding.
    pub open spec fn wf(self) -> bool {
        self.owner.is_none() <==> self.depth == 0
    }

    /// Thread `t` can acquire the lock without waiting.
    pub open spec fn available_to(self, t: u64) -> bool {
        self.owner.is_none() || self.owner == Some(t)
    }

    /// A guard of thread `t` at nesting `level` is alive on this lock.
    pub open spec fn guard_live(self, t: u64, level: nat) -> bool {
        self.owner == Some(t) && 1 <= level <= self.depth
    }

    /// The state after `t` acquires the lock once more.
    pub open spec fn acquire(self, t: u64) -> LockModel<T> {
        LockModel { owner: Some(t), depth: self.depth + 1, poisoned: self.poisoned, data: self.data }
    }

    /// The state after the innermost guard is dropped. Only the outermost
    /// guard frees the lock, and only it can poison it.
    pub open spec fn release(self, unwinding: bool) -> LockModel<T> {
        if self.depth <= 1 {
            LockModel { owner: None, depth: 0, poisoned: self.poisoned || unwinding, data: self.data }
        } else {
            LockModel {
                owner: self.owner,
                depth: (self.depth - 1) as nat,
                poisoned: self.poisoned,
                data: self.data,
            }
        }
    }

    /// What a non-blocking acquisition by `t` reports in this state.
    pub open spec fn try_outcome(self, t: u64) -> crate::poison::TryOutcome {
        if !self.available_to(t) {
            crate::poison::TryOutcome::WouldBlock
        } else if self.poisoned {
            crate::poison::TryOutcome::Poisoned
        } else {
            crate::poison::TryOutcome::Acquired
        }
    }

    /// The state after a non-blocking acquisition by `t`.
    pub open spec fn try_acquire(self, t: u64) -> LockModel<T> {
        if self.available_to(t) {
            self.acquire(t)
        } else {
            self
        }
    }

    /// The state after one step.
    pub open spec fn step(self, op: LockOp) -> LockModel<T> {
        match op {
            LockOp::Acquire(t) => self.try_acquire(t),
            LockOp::Release(unwinding) => self.release(unwinding),
        }
    }

    /// The state after a sequence of steps.
    pub open spec fn run(self, ops: Seq<LockOp>) -> LockModel<T>
        decreases ops.len(),
    {
        if ops.len() == 0 {
            self
        } else {
            self.run(ops.drop_last()).step(ops.last())
        }
    }

    /// The state after `t` acquires the lock `n` more times.
    pub open spec fn acquire_times(self, t: u64, n: nat) -> LockModel<T>
        decreases n,
    {
        if n == 0 {
            self
        } else {
            self.acquire_times(t, (n - 1) as nat).acquire(t)
        }
    }
}

} // verus!

verus! {

/// The steps that drop guards, one per flag, in order; each flag tells
/// whether the thread is unwinding at that drop.
pub open spec fn releases(flags: Seq<bool>) -> Seq<LockOp> {
    flags.map_values(|b: bool| LockOp::Release(b))
}

/// Every step keeps a lock well formed, so at any moment at most one thread
/// holds it.
pub proof fn lemma_run_wf<T>(m: LockModel<T>, ops: Seq<LockOp>)
    requires
        m.wf(),
    ensures
        m.run(ops).wf(),
    decreases ops.len(),
{
    if ops.len() > 0 {
        lemma_run_wf(m, ops.drop_last());
    }
}

/// A thread that holds a lock can acquire it again any number of times:
/// none of these acquisitions waits, each is refused only by a poison that
/// was already there, and the value stays reachable at every depth.
pub proof fn lemma_nested_acquisitions<T>(m: LockModel<T>, t: u64, n: nat)
    requires
        m.wf(),
        m.available_to(t),
    ensures
        forall|k: nat|
            k < n ==> {
                &&& #[trigger] m.acquire_times(t, k).available_to(t)
                &&& (m.acquire_times(t, k).try_outcome(t) is Acquired) == !m.poisoned
            },
        n > 0 ==> m.acquire_times(t, n).owner == Some(t),
        m.acquire_times(t, n).depth == m.depth + n,
        m.acquire_times(t, n).poisoned == m.poisoned,
        m.acquire_times(t, n).data == m.data,
        m.acquire_times(t, n).wf(),
        forall|l: nat| m.depth < l <= m.depth + n ==> #[trigger] m.acquire_times(t, n).guard_live(t, l),
    decreases n,
{
    if n > 0 {
        lemma_nested_acquisitions(m, t, (n - 1) as nat);
    }
}

/// Mutual exclusion: whatever steps are taken from a well-formed state, no
/// two distinct threads ever hold live guards on the lock at once, and while
/// one thread holds it every other thread's attempt is refused.
pub proof fn lemma_mutual_exclusion<T>(
    m: LockModel<T>,
    ops: Seq<LockOp>,
    t1: u64,
    l1: nat,
    t2: u64,
    l2: nat,
)
    requires
        m.wf(),
        t1 != t2,
    ensures
        !(m.run(ops).guard_live(t1, l1) && m.run(ops).guard_live(t2, l2)),
        m.run(ops).guard_live(t1, l1) ==> m.run(ops).try_outcome(t2) is WouldBlock,
{
    lemma_run_wf(m, ops);
}

/// A poisoned lock stays poisoned whatever steps follow.
pub proof fn lemma_poison_sticky<T>(m: LockModel<T>, ops: Seq<LockOp>)
    requires
        m.poisoned,
    ensures
        m.run(ops).poisoned,
    decreases ops.len(),
{
    if ops.len() > 0 {
        lemma_poison_sticky(m, ops.drop_last());
    }
}

/// Poison propagation: when the outermost guard is dropped while its thread
/// unwinds, the lock is poisoned, and every later acquisition by any thread,
/// whatever steps come between, reports the poison or waits.
pub proof fn lemma_poison_propagates<T>(m: LockModel<T>, ops: Seq<LockOp>)
    requires
        m.wf(),
        m.depth == 1,
    ensures
        m.release(true).poisoned,
        m.release(true).owner.is_none(),
        forall|k: int|
            0 <= k <= ops.len() ==> (#[trigger] m.release(true).run(ops.take(k))).poisoned,
        forall|k: int, t: u64|
            0 <= k <= ops.len() ==> !(#[trigger] m.release(true).run(ops.take(k)).try_outcome(t) is Acquired),
{
    let p = m.release(true);
    assert forall|k: int| 0 <= k <= ops.len() implies (#[trigger] p.run(ops.take(k))).poisoned by {
        lemma_poison_sticky(p, ops.take(k));
    }
    assert forall|k: int, t: u64| 0 <= k <= ops.len() implies !(#[trigger] p.run(ops.take(k)).try_outcome(t) is Acquired) by {
        lemma_poison_sticky(p, ops.take(k));
    }
}

/// Releasing the inner guards of a nesting, unwinding or not, neither frees
/// nor poisons the lock.
pub proof fn lemma_inner_releases<T>(m: LockModel<T>, inner: Seq<bool>)
    requires
        m.wf(),
        inner.len() < m.depth,
    ensures
        m.run(releases(inner)).owner == m.owner,
        m.run(releases(inner)).depth == m.depth - inner.len(),
        m.run(releases(inner)).poisoned == m.poisoned,
        m.run(releases(inner)).data == m.data,
    decreases inner.len(),
{
    if inner.len() > 0 {
        assert(releases(inner).drop_last() =~= releases(inner.drop_last()));
        lemma_inner_releases(m, inner.drop_last());
    }
}

/// Poison isolation: when a thread releases its nested guards in turn, the
/// lock is poisoned afterwards exactly when it was before or when the
/// outermost guard was dropped while unwinding; whether the inner guards were
/// dropped while unwinding plays no part.
pub proof fn lemma_poison_isolation<T>(m: LockModel<T>, inner: Seq<bool>, outer: bool)
    requires
        m.wf(),
        inner.len() + 1 == m.depth,
    ensures
        m.run(releases(inner)).release(outer).poisoned == (m.poisoned || outer),
        m.run(releases(inner)).release(outer).owner.is_none(),
        m.run(releases(inner.push(outer))) == m.run(releases(inner)).release(outer),
{
    lemma_inner_releases(m, inner);
    assert(releases(inner.push(outer)).drop_last() =~= releases(inner));
}

} // verus!
