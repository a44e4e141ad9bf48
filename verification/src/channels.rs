use vstd::prelude::*;

use crate::mutex::LockError;
use crate::mutex::Mutex;

verus! {

/// A LIFO (stack-ordered) queue: a growable sequence protected by a
/// [`Mutex`], so that every push and pop goes through the lock protocol.
/// The queue's model is the sequence of values sent and not yet received,
/// oldest first; the most recently sent value is the next one received.
pub struct Channel<T> {
    q: Mutex<Vec<T>>,
}

impl<T> View for Channel<T> {
    type V = Seq<T>;

    closed spec fn view(&self) -> Seq<T> {
        self.q.value()@
    }
}

impl<T> Channel<T> {
    /// The channel's mutex is unlocked between operations: each operation
    /// acquires it and hands the guard back before returning. Established by
    /// [`spawn_channels`] and preserved by every operation.
    pub closed spec fn wf(&self) -> bool {
        self.q.is_unlocked()
    }

    /// Appends `data` to the end of the sequence, under the lock. Never
    /// fails and never waits for capacity: the sequence grows on demand.
    pub fn send(&mut self, data: T)
        requires
            old(self).wf(),
        ensures
            final(self).wf(),
            final(self)@ == old(self)@.push(data),
    {
        let mut g = self.q.lock();
        g.get_mut().push(data);
        self.q.unlock(g);
    }

    /// Non-blocking receive. For the exclusive holder of the channel the
    /// lock is always free, so this never reports `WouldBlock`: it returns
    /// the most recently sent value, or an empty result if the queue holds
    /// nothing — a normal outcome, distinct from an error.
    pub fn try_recv(&mut self) -> (r: Result<Option<T>, LockError>)
        requires
            old(self).wf(),
        ensures
            final(self).wf(),
            old(self)@.len() == 0 ==> (r matches Ok(v) && v is None)
                && final(self)@ == old(self)@,
            old(self)@.len() > 0 ==> (r matches Ok(v) && v == Some(old(self)@.last()))
                && final(self)@ == old(self)@.drop_last(),
    {
        match self.q.try_lock() {
            Ok(mut g) => {
                let v = g.get_mut().pop();
                self.q.unlock(g);
                Ok(v)
            },
            Err(e) => Err(e),
        }
    }

    /// Receive: pops the most recently sent value under the lock. A queue
    /// with nothing in it could never be refilled by the exclusive holder
    /// while it waits, so the caller must have sent at least one value that
    /// was not yet received (waiting on an empty queue never returns, by
    /// design).
    pub fn recv(&mut self) -> (v: T)
        requires
            old(self).wf(),
            old(self)@.len() > 0,
        ensures
            final(self).wf(),
            v == old(self)@.last(),
            final(self)@ == old(self)@.drop_last(),
    {
        let mut g = self.q.lock();
        let v = g.get_mut().pop().unwrap();
        self.q.unlock(g);
        v
    }

    /// Acquires the lock, checks non-emptiness, releases, and returns the
    /// snapshot. The queue itself is left exactly as it was.
    pub fn ready(&mut self) -> (r: bool)
        requires
            old(self).wf(),
        ensures
            final(self).wf(),
            final(self)@ == old(self)@,
            r == (old(self)@.len() != 0),
    {
        let g = self.q.lock();
        let r = !g.get().is_empty();
        self.q.unlock(g);
        r
    }
}

/// Creates a channel whose storage is pre-sized to `capacity` — a hint
/// only: the sequence grows beyond it on demand, and a send never waits.
pub fn spawn_channels<T>(capacity: usize) -> (c: Channel<T>)
    ensures
        c.wf(),
        c@ == Seq::<T>::empty(),
{
    Channel { q: Mutex::new(Vec::with_capacity(capacity)) }
}

/// Last-in-first-out: sending `v` onto a queue in state `s` and then
/// receiving yields `v` back and restores the queue to exactly `s`. This
/// relates the sequence operations that `send` (push) and `recv`/`try_recv`
/// (last, drop_last) are specified by.
pub proof fn lemma_send_then_recv<T>(s: Seq<T>, v: T)
    ensures
        s.push(v).len() > 0,
        s.push(v).last() == v,
        s.push(v).drop_last() == s,
{
    assert(s.push(v).drop_last() =~= s);
}

} // verus!
