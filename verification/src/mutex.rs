use vstd::prelude::*;

verus! {

/// Error returned by the non-blocking operations when the resource is
/// currently held by another owner. Always recoverable by retrying.
#[derive(Clone, Copy, Debug, PartialEq, Eq, Structural)]
pub enum LockError {
    WouldBlock,
}

/// An exclusive-access wrapper over a value of type `T`.
///
/// The mutex is a two-state machine: `Unlocked`, in which it holds the
/// protected value, and `Locked`, in which the value has moved out into the
/// single outstanding [`MutexGuard`]. The only transitions are
/// `Unlocked -> Locked` through a successful `lock`/`try_lock`, and
/// `Locked -> Unlocked` through `unlock`, which takes the guard back. Since
/// the guard owns the value while the mutex is locked, at most one guard per
/// mutex can ever exist, and a second acquisition attempt fails until the
/// first guard has been handed back.
pub struct Mutex<T> {
    /// `Some(value)` iff the mutex is unlocked; `None` while the single
    /// outstanding guard holds the value.
    data: Option<T>,
}

/// A token standing for exclusive access to a mutex's value. It owns the
/// value for exactly as long as the lock is held; handing it back through
/// [`Mutex::unlock`] releases the lock and restores the value.
pub struct MutexGuard<T> {
    value: T,
}

impl<T> View for MutexGuard<T> {
    type V = T;

    closed spec fn view(&self) -> T {
        self.value
    }
}

impl<T> MutexGuard<T> {
    /// Read access to the protected value for the lifetime of the guard.
    pub fn get(&self) -> (r: &T)
        ensures
            *r == self@,
    {
        &self.value
    }

    /// Write access to the protected value for the lifetime of the guard.
    pub fn get_mut(&mut self) -> (r: &mut T)
        ensures
            *r == old(self)@,
            final(self)@ == *final(r),
    {
        &mut self.value
    }
}

impl<T> Mutex<T> {
    /// True iff the lock-state is `Locked`, that is, a guard holding the
    /// protected value is outstanding.
    pub closed spec fn is_locked(&self) -> bool {
        self.data is None
    }

    /// True iff the lock-state is `Unlocked` and the mutex holds the value.
    pub open spec fn is_unlocked(&self) -> bool {
        !self.is_locked()
    }

    /// The protected value; meaningful only while the mutex is unlocked.
    pub closed spec fn value(&self) -> T {
        self.data->0
    }

    /// Wraps `data` with the lock-state initialized to `Unlocked`.
    pub fn new(data: T) -> (m: Mutex<T>)
        ensures
            m.is_unlocked(),
            m.value() == data,
    {
        Mutex { data: Some(data) }
    }

    /// Non-blocking acquire: fails with `WouldBlock` iff the mutex is
    /// currently locked, and otherwise moves the value into a fresh guard.
    pub fn try_lock(&mut self) -> (r: Result<MutexGuard<T>, LockError>)
        ensures
            old(self).is_unlocked() ==> (r matches Ok(g) && g@ == old(self).value()
                && final(self).is_locked()),
            old(self).is_locked() ==> (r matches Err(e) && e == LockError::WouldBlock
                && *final(self) == *old(self)),
    {
        match self.data.take() {
            Some(value) => Ok(MutexGuard { value }),
            None => Err(LockError::WouldBlock),
        }
    }

    /// Acquire. A locked mutex can only be released by handing its guard
    /// back, which needs exclusive access to the mutex too; an acquisition
    /// that cannot succeed at once could therefore never succeed later, so
    /// the caller must not hold the lock already (acquiring twice without
    /// releasing never returns, by design).
    pub fn lock(&mut self) -> (g: MutexGuard<T>)
        requires
            old(self).is_unlocked(),
        ensures
            g@ == old(self).value(),
            final(self).is_locked(),
    {
        match self.try_lock() {
            Ok(g) => g,
            Err(_) => vstd::pervasive::unreached(),
        }
    }

    /// Releases the lock: takes the guard back, stores its value and
    /// transitions the lock-state to `Unlocked`. This is the only
    /// `Locked -> Unlocked` transition.
    pub fn unlock(&mut self, guard: MutexGuard<T>)
        requires
            old(self).is_locked(),
        ensures
            final(self).is_unlocked(),
            final(self).value() == guard@,
    {
        self.data = Some(guard.value);
    }

    /// Consumes the mutex and yields the protected value directly; fails
    /// with `WouldBlock` iff the value is currently out in a guard.
    pub fn into_inner(self) -> (r: Result<T, LockError>)
        ensures
            self.is_unlocked() ==> (r matches Ok(v) && v == self.value()),
            self.is_locked() ==> (r matches Err(e) && e == LockError::WouldBlock),
    {
        match self.data {
            Some(value) => Ok(value),
            None => Err(LockError::WouldBlock),
        }
    }

    /// Direct access to the protected value through a uniquely-owning
    /// reference, bypassing the lock-state machinery; possible only while
    /// no guard is outstanding, since an outstanding guard holds the value.
    pub fn get_mut(&mut self) -> (r: &mut T)
        requires
            old(self).is_unlocked(),
        ensures
            *r == old(self).value(),
            final(self).is_unlocked(),
            final(self).value() == *final(r),
    {
        match &mut self.data {
            Some(value) => value,
            None => vstd::pervasive::unreached(),
        }
    }
}

} // verus!
