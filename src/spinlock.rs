use core::sync::atomic::{AtomicU32, Ordering};
use vstd::prelude::*;

verus! {

/// Word value of a free lock.
pub const UNLOCKED: u32 = 0;

/// Word value of a held lock.
pub const LOCKED: u32 = 1;

/// The value that an atomic word currently holds.
pub uninterp spec fn word_of(a: AtomicU32) -> u32;

/// Relies on `AtomicU32::new`: the new atomic holds `v`.
#[verifier::external_body]
fn new_word(v: u32) -> (r: AtomicU32)
    ensures
        word_of(r) == v,
{
    AtomicU32::new(v)
}

/// Relies on `AtomicU32::swap` with acquire ordering: stores `v` and
/// returns the previous value. The exclusive borrow rules out any other
/// writer during the call.
#[verifier::external_body]
fn swap_word_acquire(a: &mut AtomicU32, v: u32) -> (r: u32)
    ensures
        r == word_of(*old(a)),
        word_of(*final(a)) == v,
{
    a.swap(v, Ordering::Acquire)
}

/// Relies on `AtomicU32::load` with relaxed ordering: returns the value
/// held.
#[verifier::external_body]
fn load_word_relaxed(a: &AtomicU32) -> (r: u32)
    ensures
        r == word_of(*a),
{
    a.load(Ordering::Relaxed)
}

/// Relies on `AtomicU32::store` with release ordering: afterwards the
/// atomic holds `v`.
#[verifier::external_body]
fn store_word_release(a: &mut AtomicU32, v: u32)
    ensures
        word_of(*final(a)) == v,
    opens_invariants none
    no_unwind
{
    a.store(v, Ordering::Release)
}

/// The two states of a lock.
#[derive(Clone, Copy, Debug, PartialEq, Eq, Structural)]
pub enum LockState {
    Unlocked,
    Locked,
}

/// Busy-wait mutual exclusion over one atomic word.
pub struct Spinlock {
    state: AtomicU32,
}

impl View for Spinlock {
    type V = LockState;

    closed spec fn view(&self) -> LockState {
        if word_of(self.state) == UNLOCKED {
            LockState::Unlocked
        } else {
            LockState::Locked
        }
    }
}

impl Spinlock {
    /// A free lock.
    pub fn new() -> (r: Spinlock)
        ensures
            r@ == LockState::Unlocked,
    {
        Spinlock { state: new_word(UNLOCKED) }
    }

    /// The state observed by a relaxed read of the word.
    pub fn state(&self) -> (r: LockState)
        ensures
            r == self@,
    {
        if load_word_relaxed(&self.state) == UNLOCKED {
            LockState::Unlocked
        } else {
            LockState::Locked
        }
    }

    /// One atomic exchange of the word with the locked value, with acquire
    /// ordering. Succeeds exactly when the lock was free; either way the
    /// lock is held afterwards.
    pub fn try_lock(&mut self) -> (acquired: bool)
        ensures
            acquired == (old(self)@ == LockState::Unlocked),
            final(self)@ == LockState::Locked,
    {
        swap_word_acquire(&mut self.state, LOCKED) == UNLOCKED
    }

    /// Test-and-test-and-set acquisition: retry the exchange, and between
    /// attempts poll the word with relaxed reads until it reads free.
    ///
    /// The lock is not reentrant: taking a held lock from the context that
    /// holds it never returns, so the lock must be free on entry. With the
    /// exclusive borrow no other context can hold it, and the first
    /// exchange succeeds: the retry loop and the polling loop below are
    /// unreachable here, which their invariants record. They are the
    /// protocol for a lock that another context may hold.
    pub fn lock(&mut self)
        requires
            old(self)@ == LockState::Unlocked,
        ensures
            final(self)@ == LockState::Locked,
    {
        let mut acquired = self.try_lock();
        while !acquired
            invariant
                acquired,
                self@ == LockState::Locked,
            decreases 0int,
        {
            while load_word_relaxed(&self.state) == LOCKED
                invariant
                    self@ == LockState::Unlocked,
                decreases 0int,
            {
            }
            acquired = self.try_lock();
        }
    }

    /// Frees the lock with a release store. The caller is the holder.
    pub fn unlock(&mut self)
        ensures
            final(self)@ == LockState::Unlocked,
        opens_invariants none
        no_unwind
    {
        store_word_release(&mut self.state, UNLOCKED)
    }
}

} // verus!
