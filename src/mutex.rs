use crate::spinlock::{LockState, Spinlock};
use vstd::prelude::*;

verus! {

/// Exclusive access to a value of type `T`, guarded by a spinlock.
///
/// Acquiring the lock gives a guard that borrows the mutex; only the guard
/// gives access to the value, and the lock is released when the guard goes
/// out of scope or is passed to `unlock`.
pub struct Mutex<T> {
    inner: Spinlock,
    data: T,
}

/// Access to the value of a held mutex, from acquisition to release.
pub struct MutexGuard<'a, T> {
    /// The borrowed mutex: present from acquisition until `unlock` takes it
    /// to release it.
    pub mutex: Option<&'a mut Mutex<T>>,
}

impl<'a, T> MutexGuard<'a, T> {
    /// Whether the guard still borrows its mutex.
    pub open spec fn is_live(&self) -> bool {
        self.mutex is Some
    }

    /// The guarded value.
    pub open spec fn view(&self) -> T {
        self.mutex->0.value()
    }

    /// Whether the mutex that the guard borrows is held.
    pub open spec fn holds_lock(&self) -> bool {
        self.mutex->0.is_held()
    }

    /// Whether the borrowed mutex is held, as seen through the guard.
    pub fn lock_is_held(&self) -> (r: bool)
        requires
            self.is_live(),
        ensures
            r == self.holds_lock(),
    {
        match &self.mutex {
            Some(m) => m.is_locked(),
            None => vstd::pervasive::unreached(),
        }
    }

    /// Read access to the guarded value.
    pub fn get(&self) -> (r: &T)
        requires
            self.is_live(),
        ensures
            *r == self@,
    {
        match &self.mutex {
            Some(m) => &m.data,
            None => vstd::pervasive::unreached(),
        }
    }

    /// Write access to the guarded value.
    pub fn get_mut(&mut self) -> (r: &mut T)
        requires
            old(self).is_live(),
        ensures
            *r == old(self)@,
            final(self).is_live(),
            final(self)@ == *final(r),
            final(self).holds_lock() == old(self).holds_lock(),
            *final(final(self).mutex->0) == *final(old(self).mutex->0),
    {
        match &mut self.mutex {
            Some(m) => &mut m.data,
            None => vstd::pervasive::unreached(),
        }
    }
}

impl<'a, T> Drop for MutexGuard<'a, T> {
    /// Releases the lock, once, when the guard's scope ends; a guard passed
    /// to `unlock` no longer borrows its mutex and does nothing here.
    fn drop(&mut self)
        ensures
            final(self).is_live() == old(self).is_live(),
            final(self).is_live() ==> !final(self).holds_lock(),
            final(self).is_live() ==> final(self)@ == old(self)@,
            final(self).is_live() ==> *final(final(self).mutex->0) == *final(old(self).mutex->0),
        opens_invariants none
        no_unwind
    {
        if let Some(m) = &mut self.mutex {
            m.inner.unlock();
        }
    }
}

impl<T> Mutex<T> {
    /// Whether the lock is held.
    pub closed spec fn is_held(&self) -> bool {
        self.inner@ == LockState::Locked
    }

    /// The protected value.
    pub closed spec fn value(&self) -> T {
        self.data
    }

    /// A free mutex holding `t`.
    pub fn new(t: T) -> (r: Mutex<T>)
        ensures
            !r.is_held(),
            r.value() == t,
    {
        Mutex { inner: Spinlock::new(), data: t }
    }

    /// Whether the lock is currently held.
    pub fn is_locked(&self) -> (r: bool)
        ensures
            r == self.is_held(),
    {
        self.inner.state() == LockState::Locked
    }

    /// Acquires the lock and returns a guard over the value.
    ///
    /// Acquiring a mutex already held by the same context never returns,
    /// so the mutex must be free.
    pub fn lock(&mut self) -> (guard: MutexGuard<'_, T>)
        requires
            !old(self).is_held(),
        ensures
            guard.is_live(),
            guard.holds_lock(),
            guard@ == old(self).value(),
            mutex_step(*old(self), *guard.mutex->0, MutexEvent::Acquired),
            *final(self) == *final(guard.mutex->0),
    {
        self.inner.lock();
        MutexGuard { mutex: Some(self) }
    }

    /// Acquires the lock only if it is free, with one exchange and without
    /// waiting: `None` when it is held, which leaves it held.
    pub fn try_lock(&mut self) -> (r: Option<MutexGuard<'_, T>>)
        ensures
            r is Some <==> !old(self).is_held(),
            r is Some ==> r->0.is_live() && r->0.holds_lock() && r->0@ == old(self).value()
                && mutex_step(*old(self), *r->0.mutex->0, MutexEvent::Acquired)
                && *final(self) == *final(r->0.mutex->0),
            r is None ==> final(self).is_held() && final(self).value() == old(self).value()
                && mutex_step(*old(self), *final(self), MutexEvent::Refused),
    {
        if self.inner.try_lock() {
            Some(MutexGuard { mutex: Some(self) })
        } else {
            None
        }
    }

    /// Releases the lock before the guard's scope ends. The mutex keeps the
    /// value as the guard left it.
    pub fn unlock(guard: MutexGuard<'_, T>)
        requires
            guard.is_live(),
            guard.holds_lock(),
        ensures
            !final(guard.mutex->0).is_held(),
            final(guard.mutex->0).value() == guard@,
            mutex_step(*guard.mutex->0, *final(guard.mutex->0), MutexEvent::Released),
    {
        let mut guard = guard;
        if let Some(m) = guard.mutex.take() {
            m.inner.unlock();
        }
    }
}

/// What one operation did to a mutex, as its contract says.
pub enum MutexEvent {
    /// `lock`, or a `try_lock` that returned a guard: free before, held
    /// after, one more guard out.
    Acquired,
    /// A `try_lock` that returned `None`: held before and after.
    Refused,
    /// A guard's release, at scope exit or through `unlock`: held before,
    /// free after, one guard given back.
    Released,
}

/// Whether `e` describes a step from `before` to `after`.
pub open spec fn mutex_step<T>(before: Mutex<T>, after: Mutex<T>, e: MutexEvent) -> bool {
    match e {
        MutexEvent::Acquired => !before.is_held() && after.is_held(),
        MutexEvent::Refused => before.is_held() && after.is_held(),
        MutexEvent::Released => before.is_held() && !after.is_held(),
    }
}

/// Guards handed out and not given back over a run of events.
pub open spec fn guards_out(events: Seq<MutexEvent>) -> int
    decreases events.len(),
{
    if events.len() == 0 {
        0
    } else {
        guards_out(events.drop_last()) + match events.last() {
            MutexEvent::Acquired => 1int,
            MutexEvent::Refused => 0int,
            MutexEvent::Released => -1int,
        }
    }
}

/// In any run of operations on a mutex that starts free, at most one guard
/// is out at a time: after the run, one guard is out if the mutex is held
/// and none if it is free.
pub proof fn lemma_one_guard_at_a_time<T>(states: Seq<Mutex<T>>, events: Seq<MutexEvent>)
    requires
        states.len() == events.len() + 1,
        !states[0].is_held(),
        forall|i: int|
            0 <= i < events.len() ==> #[trigger] mutex_step(states[i], states[i + 1], events[i]),
    ensures
        guards_out(events) == if states.last().is_held() {
            1int
        } else {
            0int
        },
    decreases events.len(),
{
    if events.len() > 0 {
        let n: int = events.len() - 1;
        let ss = states.drop_last();
        let es = events.drop_last();
        assert forall|i: int| 0 <= i < es.len() implies #[trigger] mutex_step(
            ss[i],
            ss[i + 1],
            es[i],
        ) by {
            assert(mutex_step(states[i], states[i + 1], events[i]));
        }
        lemma_one_guard_at_a_time(ss, es);
        assert(mutex_step(states[n], states[n + 1], events[n]));
        assert(ss.last() == states[n]);
    }
}

} // verus!
