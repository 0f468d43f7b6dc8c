use kernel_sync::lazy::Lazy;
use kernel_sync::mutex::Mutex;
use kernel_sync::spinlock::{LockState, Spinlock};
use std::cell::Cell;

#[test]
fn spinlock_starts_unlocked() {
    let lock = Spinlock::new();
    assert_eq!(lock.state(), LockState::Unlocked);
}

#[test]
fn spinlock_try_lock_fails_while_held() {
    let mut lock = Spinlock::new();
    assert!(lock.try_lock());
    assert_eq!(lock.state(), LockState::Locked);
    assert!(!lock.try_lock());
    assert_eq!(lock.state(), LockState::Locked);
}

#[test]
fn spinlock_lock_unlock_lock_cycle() {
    let mut lock = Spinlock::new();
    let mut seen = vec![lock.state()];
    lock.lock();
    seen.push(lock.state());
    lock.unlock();
    seen.push(lock.state());
    lock.lock();
    seen.push(lock.state());
    assert_eq!(
        seen,
        vec![
            LockState::Unlocked,
            LockState::Locked,
            LockState::Unlocked,
            LockState::Locked
        ]
    );
}

#[test]
fn mutex_try_lock_while_held_is_unavailable() {
    let mut m = Mutex::new(5u32);
    // A guard that is never dropped leaves the lock held.
    std::mem::forget(m.lock());
    assert!(m.is_locked());
    assert!(m.try_lock().is_none());
    assert!(m.is_locked());
}

#[test]
fn mutex_guard_scope_exit_releases() {
    let mut m = Mutex::new(0u32);
    {
        let _g = m.lock();
    }
    assert!(!m.is_locked());
    let g2 = m.try_lock();
    assert!(g2.is_some());
    assert_eq!(*g2.unwrap().get(), 0);
    assert!(!m.is_locked());
}

#[test]
fn mutex_lock_unlock_lock_cycle() {
    let mut m = Mutex::new(0u8);
    let mut seen = vec![m.is_locked()];
    let g = m.lock();
    seen.push(g.lock_is_held());
    Mutex::unlock(g);
    seen.push(m.is_locked());
    let g = m.lock();
    seen.push(g.lock_is_held());
    drop(g);
    seen.push(m.is_locked());
    assert_eq!(seen, vec![false, true, false, true, false]);
}

#[test]
fn mutex_guard_writes_reach_the_value() {
    let mut m = Mutex::new(vec![1u64, 2]);
    {
        let mut g = m.lock();
        g.get_mut().push(3);
        assert_eq!(g.get(), &vec![1, 2, 3]);
    }
    let g = m.lock();
    assert_eq!(g.get(), &vec![1, 2, 3]);
}

#[test]
fn two_mutexes_in_sequence() {
    let mut a = Mutex::new(1i32);
    let mut b = Mutex::new(2i32);
    let mut ga = a.lock();
    *ga.get_mut() += 10;
    Mutex::unlock(ga);
    let mut gb = b.lock();
    *gb.get_mut() += 20;
    Mutex::unlock(gb);
    assert!(!a.is_locked());
    assert!(!b.is_locked());
    assert_eq!(*a.lock().get(), 11);
    assert_eq!(*b.lock().get(), 22);
}

fn bump_if_small(m: &mut Mutex<u32>) -> bool {
    let mut g = m.lock();
    if *g.get() > 10 {
        return false;
    }
    *g.get_mut() += 1;
    true
}

#[test]
fn early_return_releases_the_lock() {
    let mut m = Mutex::new(10u32);
    assert!(bump_if_small(&mut m));
    assert!(!m.is_locked());
    assert!(!bump_if_small(&mut m));
    assert!(!m.is_locked());
    assert_eq!(*m.lock().get(), 11);
}

#[test]
fn lazy_initializer_runs_once() {
    let counter = Cell::new(0u32);
    let mut lazy = Lazy::new(|| {
        counter.set(counter.get() + 1);
        41u64
    });
    assert!(!lazy.is_initialized());
    assert_eq!(counter.get(), 0);
    let mut seen = Vec::new();
    for _ in 0..5 {
        seen.push(*lazy.get());
    }
    assert_eq!(counter.get(), 1);
    assert!(lazy.is_initialized());
    assert_eq!(seen, vec![41; 5]);
    *lazy.get_mut() += 1;
    assert_eq!(*lazy.get(), 42);
    assert_eq!(counter.get(), 1);
}

#[test]
fn lazy_get_mut_updates_stored_value() {
    let counter = Cell::new(0u32);
    let mut lazy = Lazy::new(|| {
        counter.set(counter.get() + 1);
        String::from("boot")
    });
    lazy.get_mut().push_str("ed");
    assert_eq!(lazy.get(), "booted");
    assert_eq!(counter.get(), 1);
}

#[test]
fn lazy_inside_mutex() {
    let counter = Cell::new(0u32);
    let mut m = Mutex::new(Lazy::new(|| {
        counter.set(counter.get() + 1);
        7u8
    }));
    for _ in 0..3 {
        let mut g = m.lock();
        assert_eq!(*g.get_mut().get(), 7);
    }
    assert_eq!(counter.get(), 1);
}

#[test]
fn lazy_never_accessed_never_runs() {
    let counter = Cell::new(0u32);
    {
        let lazy = Lazy::new(|| {
            counter.set(counter.get() + 1);
            1u8
        });
        assert!(!lazy.is_initialized());
    }
    assert_eq!(counter.get(), 0);
}

#[test]
fn unlock_keeps_the_written_value() {
    let mut m = Mutex::new(5u32);
    let mut g = m.lock();
    assert!(g.lock_is_held());
    *g.get_mut() = 7;
    Mutex::unlock(g);
    assert!(!m.is_locked());
    let g2 = m.lock();
    assert_eq!(*g2.get(), 7);
    Mutex::unlock(g2);
    assert!(!m.is_locked());
}
