use remutex::{
    Flag, LockResult, PoisonError, RecursiveLock, ReentrantMutex, ReentrantMutexGuard, TryLockError,
};
use std::cell::RefCell;

const MAIN: u64 = 1;
const OTHER: u64 = 2;

fn guard_of<T>(r: LockResult<T>) -> T {
    match r {
        Ok(g) => g,
        Err(e) => e.into_inner(),
    }
}

#[test]
fn smoke() {
    let mut m = ReentrantMutex::new(());
    let a = m.lock(MAIN).ok().unwrap();
    let b = m.lock(MAIN).ok().unwrap();
    let c = m.lock(MAIN).ok().unwrap();
    assert_eq!(*m.get(&c), ());
    m.release(c, false);
    assert_eq!(*m.get(&b), ());
    m.release(b, false);
    assert_eq!(*m.get(&a), ());
    m.release(a, false);
    assert!(m.is_available_to(OTHER));
    assert!(!m.is_poisoned());
}

#[test]
fn is_mutex() {
    let mut m = ReentrantMutex::new(RefCell::new(0u32));
    let lock = m.lock(MAIN).ok().unwrap();
    // the other thread would block here
    assert!(!m.is_available_to(OTHER));
    for i in 0..100u32 {
        let g = m.lock(MAIN).ok().unwrap();
        *m.get(&g).borrow_mut() += i;
        m.release(g, false);
    }
    m.release(lock, false);
    assert!(m.is_available_to(OTHER));
    let other = m.lock(OTHER).ok().unwrap();
    assert_eq!(*m.get(&other).borrow(), 4950);
    m.release(other, false);
}

#[test]
fn trylock_works() {
    let mut m = ReentrantMutex::new(());
    let lock1 = m.try_lock(MAIN).ok().unwrap();
    let lock2 = m.try_lock(MAIN).ok().unwrap();
    let refused = m.try_lock(OTHER);
    assert!(refused.is_err());
    assert!(matches!(refused, Err(TryLockError::WouldBlock)));
    let lock3 = m.try_lock(MAIN).ok().unwrap();
    m.release(lock3, false);
    m.release(lock2, false);
    m.release(lock1, false);
    assert!(m.try_lock(OTHER).is_ok());
}

#[test]
fn poison_works() {
    let mut m = ReentrantMutex::new(RefCell::new(0u32));
    let lock = m.lock(OTHER).ok().unwrap();
    *m.get(&lock).borrow_mut() = 1;
    let lock2 = m.lock(OTHER).ok().unwrap();
    *m.get(&lock).borrow_mut() = 2;
    // the thread panics; on the way out the inner guard's owner writes 42
    *m.get(&lock2).borrow_mut() = 42;
    m.release(lock2, true);
    m.release(lock, true);
    let r = m.lock(MAIN).err().unwrap().into_inner();
    assert_eq!(*m.get(&r).borrow(), 42);
}

#[test]
fn nested_locks_reach_the_value_at_every_depth() {
    let mut m = ReentrantMutex::new(0u64);
    let mut guards: Vec<ReentrantMutexGuard> = Vec::new();
    for _ in 0..3 {
        let g = m.lock(MAIN).ok().unwrap();
        assert_eq!(*m.get(&g), 0);
        guards.push(g);
    }
    for g in guards.iter() {
        assert_eq!(*m.get(g), 0);
        assert_eq!(g.holder(), MAIN);
    }
    while let Some(g) = guards.pop() {
        assert!(!m.is_available_to(OTHER));
        m.release(g, false);
    }
    assert!(m.is_available_to(OTHER));
    assert!(!m.is_poisoned());
}

#[test]
fn try_lock_mixes_with_lock_when_nested() {
    let mut m = ReentrantMutex::new(5u8);
    let a = m.lock(MAIN).ok().unwrap();
    let b = m.try_lock(MAIN).ok().unwrap();
    assert_eq!(*m.get(&b), 5);
    m.release(b, false);
    m.release(a, false);
}

#[test]
fn other_thread_is_refused_until_full_release() {
    let mut m = ReentrantMutex::new(0u8);
    let a = m.lock(MAIN).ok().unwrap();
    let b = m.lock(MAIN).ok().unwrap();
    assert!(matches!(m.try_lock(OTHER), Err(TryLockError::WouldBlock)));
    m.release(b, false);
    assert!(matches!(m.try_lock(OTHER), Err(TryLockError::WouldBlock)));
    m.release(a, false);
    let g = m.try_lock(OTHER).ok().unwrap();
    assert_eq!(g.holder(), OTHER);
    assert!(matches!(m.try_lock(MAIN), Err(TryLockError::WouldBlock)));
    m.release(g, false);
}

#[test]
fn poison_is_seen_by_every_later_acquisition() {
    let mut m = ReentrantMutex::new(3u32);
    let g = m.lock(OTHER).ok().unwrap();
    m.release(g, true);
    assert!(m.is_poisoned());
    for t in [MAIN, OTHER, 9] {
        let r = m.lock(t);
        assert!(r.is_err());
        let g = guard_of(r);
        assert_eq!(*m.get(&g), 3);
        m.release(g, false);
        assert!(m.is_poisoned());
        match m.try_lock(t) {
            Err(TryLockError::Poisoned(e)) => {
                assert_eq!(e.get_ref().holder(), t);
                m.release(e.into_inner(), false);
            }
            _ => panic!("expected a poisoned acquisition"),
        }
    }
    assert!(m.is_poisoned());
}

#[test]
fn inner_unwinding_does_not_poison() {
    let mut m = ReentrantMutex::new(0u8);
    let outer = m.lock(MAIN).ok().unwrap();
    let inner = m.lock(MAIN).ok().unwrap();
    m.release(inner, true);
    assert!(!m.is_poisoned());
    m.release(outer, false);
    assert!(!m.is_poisoned());
    assert!(m.lock(OTHER).is_ok());
}

#[test]
fn outer_unwinding_poisons_after_clean_inner() {
    let mut m = ReentrantMutex::new(0u8);
    let outer = m.lock(MAIN).ok().unwrap();
    let inner = m.lock(MAIN).ok().unwrap();
    m.release(inner, false);
    assert!(!m.is_poisoned());
    m.release(outer, true);
    assert!(m.is_poisoned());
}

#[test]
fn guard_new_reports_poison() {
    let mut m = ReentrantMutex::new(1u8);
    let g = m.lock(MAIN).ok().unwrap();
    let again = ReentrantMutexGuard::new(&m, MAIN);
    assert!(again.is_ok());
    m.release(g, true);
    let p = m.lock(OTHER);
    assert!(p.is_err());
    let made = ReentrantMutexGuard::new(&m, OTHER);
    assert!(made.is_err());
    assert_eq!(guard_of(made).holder(), OTHER);
}

#[test]
fn flag_is_sticky() {
    let mut f = Flag::new();
    assert!(!f.get());
    f.done(false);
    assert!(!f.get());
    assert!(f.wrap(4u8).is_ok());
    f.done(true);
    assert!(f.get());
    f.done(false);
    assert!(f.get());
    let w = f.wrap(4u8);
    assert_eq!(w.err().unwrap().into_inner(), 4);
}

#[test]
fn poison_error_keeps_its_content() {
    let e = PoisonError::new(String::from("kept"));
    assert_eq!(e.get_ref().as_str(), "kept");
    assert_eq!(e.into_inner(), "kept");
}

#[test]
fn recursive_lock_counts_depth() {
    let mut p = RecursiveLock::new();
    assert_eq!(p.current_depth(), 0);
    assert!(p.is_available_to(OTHER));
    p.acquire(MAIN);
    assert!(p.try_acquire(MAIN));
    assert_eq!(p.current_depth(), 2);
    assert!(!p.try_acquire(OTHER));
    assert_eq!(p.current_depth(), 2);
    assert!(p.is_held_by(MAIN));
    p.release();
    assert!(p.is_held_by(MAIN));
    p.release();
    assert!(!p.is_held_by(MAIN));
    assert_eq!(p.current_depth(), 0);
    assert!(p.try_acquire(OTHER));
}

#[test]
fn depth_follows_nesting() {
    let mut m = ReentrantMutex::new('x');
    assert_eq!(m.depth(), 0);
    let a = m.lock(MAIN).ok().unwrap();
    let b = m.try_lock(MAIN).ok().unwrap();
    assert_eq!(a.nesting_level(), 1);
    assert_eq!(b.nesting_level(), 2);
    assert_eq!(m.depth(), 2);
    m.release(b, false);
    assert_eq!(m.depth(), 1);
    m.release(a, false);
    assert_eq!(m.depth(), 0);
}
