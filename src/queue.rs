//! The bookkeeping of a fixed-capacity circular message queue whose slots live
//! in shared memory: one producer and one consumer, each under its own lock.
use crate::error::{Error, ErrorKind, EPERM, ETIMEDOUT};
use crate::sync::Spinlock;
use vstd::prelude::*;

verus! {

/// Why a queue operation did not happen.
#[derive(Clone, Copy, Debug, PartialEq, Eq, Structural)]
pub enum QueueError {
    /// Nothing to receive; retry later.
    QueueEmpty,
    /// No free slot to send into; retry later.
    QueueFull,
    /// A queue needs at least one slot.
    CapZero,
    /// The shared memory underneath failed.
    ShmError(Error),
}

impl QueueError {
    /// Whether a blocking send or receive should try again after this error:
    /// only a full or an empty queue is worth waiting for.
    pub fn is_retryable(&self) -> (r: bool)
        ensures
            r == (*self == QueueError::QueueEmpty || *self == QueueError::QueueFull),
    {
        match self {
            QueueError::QueueEmpty => true,
            QueueError::QueueFull => true,
            _ => false,
        }
    }
}

/// The slot `i` places after slot `start`, around a ring of `cap` slots.
pub open spec fn ring_index(start: int, i: int, cap: int) -> int {
    if start + i < cap {
        start + i
    } else {
        start + i - cap
    }
}

/// The messages in the queue after a send of `v` to a queue holding `c` with
/// `cap` slots: appended when a slot is free, else unchanged.
pub open spec fn after_send<T>(c: Seq<T>, cap: nat, v: T) -> Seq<T> {
    if c.len() < cap {
        c.push(v)
    } else {
        c
    }
}

/// The messages in the queue after a receive from a queue holding `c`: the
/// oldest taken out when there is one.
pub open spec fn after_recv<T>(c: Seq<T>) -> Seq<T> {
    if c.len() > 0 {
        c.drop_first()
    } else {
        c
    }
}

/// The header of a queue: its capacity, how many messages it holds, and the
/// slots to read and to write next.
#[derive(Clone, Copy, Debug, PartialEq, Eq, Structural)]
pub struct QueueState {
    pub cap: usize,
    pub len: usize,
    pub rdp: usize,
    pub wrp: usize,
}

impl QueueState {
    /// At least one slot, no more messages than slots, and the write slot
    /// just after the last message.
    pub open spec fn wf(&self) -> bool {
        &&& self.cap > 0
        &&& self.len <= self.cap
        &&& self.rdp < self.cap
        &&& self.wrp == ring_index(self.rdp as int, self.len as int, self.cap as int)
    }

    /// The messages the queue holds, oldest first, read from its slots.
    pub open spec fn contents<T>(&self, slots: Seq<T>) -> Seq<T> {
        Seq::new(
            self.len as nat,
            |i: int| slots[ring_index(self.rdp as int, i, self.cap as int)],
        )
    }

    /// Whether the bookkeeping is consistent, as it must be before a send or
    /// a receive; for a header that another process wrote.
    pub fn is_valid(&self) -> (r: bool)
        ensures
            r == self.wf(),
    {
        self.cap > 0 && self.len <= self.cap && self.rdp < self.cap && self.wrp == if self.rdp
            < self.cap - self.len {
            self.rdp + self.len
        } else {
            self.rdp - (self.cap - self.len)
        }
    }

    /// An empty queue with `cap` slots; refused when `cap` is zero.
    pub fn new(cap: usize) -> (r: Result<QueueState, QueueError>)
        ensures
            cap == 0 ==> r is Err && r->Err_0 == QueueError::CapZero,
            cap > 0 ==> r is Ok && r->Ok_0 == (QueueState { cap, len: 0, rdp: 0, wrp: 0 }),
            r is Ok ==> r->Ok_0.wf(),
    {
        if cap == 0 {
            Err(QueueError::CapZero)
        } else {
            Ok(QueueState { cap, len: 0, rdp: 0, wrp: 0 })
        }
    }

    pub fn capacity(&self) -> (r: usize)
        ensures
            r == self.cap,
    {
        self.cap
    }

    pub fn len(&self) -> (r: usize)
        ensures
            r == self.len,
    {
        self.len
    }

    pub fn is_empty(&self) -> (r: bool)
        ensures
            r == (self.len == 0),
    {
        self.len == 0
    }

    pub fn is_full(&self) -> (r: bool)
        ensures
            r == (self.len == self.cap),
    {
        self.len == self.cap
    }

    /// Writes `val` into the next free slot of `slots`. A full queue refuses
    /// it and its slots are left untouched.
    pub fn try_send<T: Copy>(&mut self, slots: &mut [T], val: T) -> (r: Result<(), QueueError>)
        requires
            old(self).wf(),
            old(slots)@.len() == old(self).cap,
        ensures
            final(self).wf(),
            final(self).cap == old(self).cap,
            final(slots)@.len() == old(slots)@.len(),
            final(self).contents(final(slots)@) == after_send(
                old(self).contents(old(slots)@),
                old(self).cap as nat,
                val,
            ),
            old(self).len < old(self).cap ==> r is Ok,
            old(self).len == old(self).cap ==> r is Err && r->Err_0 == QueueError::QueueFull,
            old(self).len == old(self).cap ==> *final(self) == *old(self) && final(slots)@ == old(
                slots,
            )@,
    {
        if self.len == self.cap {
            return Err(QueueError::QueueFull);
        }
        let ghost before = self.contents(slots@);
        slots[self.wrp] = val;
        self.wrp = if self.wrp + 1 == self.cap {
            0
        } else {
            self.wrp + 1
        };
        self.len = self.len + 1;
        assert(self.contents(slots@) =~= before.push(val));
        Ok(())
    }

    /// Takes the oldest message out of `slots`. An empty queue has none, and
    /// is left as it was.
    pub fn try_recv<T: Copy>(&mut self, slots: &[T]) -> (r: Result<T, QueueError>)
        requires
            old(self).wf(),
            slots@.len() == old(self).cap,
        ensures
            final(self).wf(),
            final(self).cap == old(self).cap,
            final(self).contents(slots@) == after_recv(old(self).contents(slots@)),
            old(self).len > 0 ==> r is Ok && r->Ok_0 == old(self).contents(slots@)[0],
            old(self).len == 0 ==> r is Err && r->Err_0 == QueueError::QueueEmpty,
            old(self).len == 0 ==> *final(self) == *old(self),
    {
        if self.len == 0 {
            return Err(QueueError::QueueEmpty);
        }
        let ghost before = self.contents(slots@);
        let val = slots[self.rdp];
        self.rdp = if self.rdp + 1 == self.cap {
            0
        } else {
            self.rdp + 1
        };
        self.len = self.len - 1;
        assert(self.contents(slots@) =~= before.drop_first());
        Ok(val)
    }
}

/// Whether an operation gave up waiting for its lock, with nothing changed.
pub open spec fn lock_failed<T>(r: Result<T, QueueError>) -> bool {
    r is Err && r->Err_0 is ShmError && r->Err_0->ShmError_0.spec_kind() == ErrorKind::IoError(
        ETIMEDOUT,
    )
}

/// Whether an operation was done but could not release its lock, because the
/// lock word no longer named the caller.
pub open spec fn release_failed<T>(r: Result<T, QueueError>) -> bool {
    r is Err && r->Err_0 is ShmError && r->Err_0->ShmError_0.spec_kind() == ErrorKind::IoError(
        EPERM,
    )
}

/// A queue header as it lies in shared memory: the bookkeeping, a lock the
/// receiving side holds while it reads, and one the sending side holds while
/// it writes.
pub struct SharedQueue {
    pub state: QueueState,
    pub rd_lock: Spinlock,
    pub wr_lock: Spinlock,
}

impl SharedQueue {
    /// An empty queue with `cap` slots and both locks free; refused when
    /// `cap` is zero.
    pub fn new(cap: usize) -> (r: Result<SharedQueue, QueueError>)
        ensures
            cap == 0 ==> r is Err && r->Err_0 == QueueError::CapZero,
            cap > 0 ==> r is Ok && r->Ok_0.state == (QueueState { cap, len: 0, rdp: 0, wrp: 0 }),
            r is Ok ==> r->Ok_0.state.wf() && r->Ok_0.rd_lock.initial() == 0
                && r->Ok_0.wr_lock.initial() == 0,
    {
        match QueueState::new(cap) {
            Ok(state) => Ok(SharedQueue { state, rd_lock: Spinlock::new(), wr_lock: Spinlock::new() }),
            Err(e) => Err(e),
        }
    }

    /// Sends `val` while holding the write lock, taken for process `pid`: as
    /// `QueueState::try_send` does. When the lock cannot be taken nothing
    /// changes; when it cannot be released the send has still happened.
    pub fn try_send<T: Copy>(&mut self, slots: &mut [T], val: T, pid: u32) -> (r: Result<
        (),
        QueueError,
    >)
        requires
            old(self).state.wf(),
            old(slots)@.len() == old(self).state.cap,
        ensures
            final(self).state.wf(),
            final(self).state.cap == old(self).state.cap,
            final(slots)@.len() == old(slots)@.len(),
            lock_failed(r) ==> final(self).state == old(self).state && final(slots)@ == old(
                slots,
            )@,
            !lock_failed(r) ==> final(self).state.contents(final(slots)@) == after_send(
                old(self).state.contents(old(slots)@),
                old(self).state.cap as nat,
                val,
            ),
            !lock_failed(r) && old(self).state.len < old(self).state.cap ==> r is Ok
                || release_failed(r),
            !lock_failed(r) && old(self).state.len == old(self).state.cap ==> final(self).state
                == old(self).state && final(slots)@ == old(slots)@,
            !lock_failed(r) && old(self).state.len == old(self).state.cap ==> r is Err && (
            r->Err_0 == QueueError::QueueFull || release_failed(r)),
    {
        if let Err(e) = self.wr_lock.lock(pid) {
            return Err(QueueError::ShmError(e));
        }
        let r = self.state.try_send(slots, val);
        match self.wr_lock.unlock(pid) {
            Ok(_) => r,
            Err(e) => Err(QueueError::ShmError(e)),
        }
    }

    /// Receives while holding the read lock, taken for process `pid`: as
    /// `QueueState::try_recv` does. When the lock cannot be taken nothing
    /// changes; when it cannot be released the receive has still happened.
    pub fn try_recv<T: Copy>(&mut self, slots: &[T], pid: u32) -> (r: Result<T, QueueError>)
        requires
            old(self).state.wf(),
            slots@.len() == old(self).state.cap,
        ensures
            final(self).state.wf(),
            final(self).state.cap == old(self).state.cap,
            lock_failed(r) ==> final(self).state == old(self).state,
            !lock_failed(r) ==> final(self).state.contents(slots@) == after_recv(
                old(self).state.contents(slots@),
            ),
            !lock_failed(r) && old(self).state.len > 0 ==> (r is Ok && r->Ok_0 == old(
                self,
            ).state.contents(slots@)[0]) || release_failed(r),
            !lock_failed(r) && old(self).state.len == 0 ==> final(self).state == old(self).state,
            !lock_failed(r) && old(self).state.len == 0 ==> r is Err && (r->Err_0
                == QueueError::QueueEmpty || release_failed(r)),
    {
        if let Err(e) = self.rd_lock.lock(pid) {
            return Err(QueueError::ShmError(e));
        }
        let r = self.state.try_recv(slots);
        match self.rd_lock.unlock(pid) {
            Ok(_) => r,
            Err(e) => Err(QueueError::ShmError(e)),
        }
    }
}

/// The messages in a queue holding `c` with `cap` slots after the attempts
/// `ops`, each `Some` of a message to send or `None` for a receive.
pub open spec fn run_ops<T>(c: Seq<T>, cap: nat, ops: Seq<Option<T>>) -> Seq<T>
    decreases ops.len(),
{
    if ops.len() == 0 {
        c
    } else {
        let next = match ops[0] {
            Some(v) => after_send(c, cap, v),
            None => after_recv(c),
        };
        run_ops(next, cap, ops.drop_first())
    }
}

/// How many of the sends among `ops` the queue accepts.
pub open spec fn sends_accepted<T>(c: Seq<T>, cap: nat, ops: Seq<Option<T>>) -> nat
    decreases ops.len(),
{
    if ops.len() == 0 {
        0
    } else {
        match ops[0] {
            Some(v) => (if c.len() < cap {
                1nat
            } else {
                0nat
            }) + sends_accepted(after_send(c, cap, v), cap, ops.drop_first()),
            None => sends_accepted(after_recv(c), cap, ops.drop_first()),
        }
    }
}

/// How many of the receives among `ops` the queue accepts.
pub open spec fn recvs_accepted<T>(c: Seq<T>, cap: nat, ops: Seq<Option<T>>) -> nat
    decreases ops.len(),
{
    if ops.len() == 0 {
        0
    } else {
        match ops[0] {
            Some(v) => recvs_accepted(after_send(c, cap, v), cap, ops.drop_first()),
            None => (if c.len() > 0 {
                1nat
            } else {
                0nat
            }) + recvs_accepted(after_recv(c), cap, ops.drop_first()),
        }
    }
}

/// After any sequence of sends and receives, a queue holds the messages it
/// held, plus the sends it accepted, minus the receives it accepted, and
/// never more than its capacity.
pub proof fn lemma_conservation<T>(c: Seq<T>, cap: nat, ops: Seq<Option<T>>)
    requires
        c.len() <= cap,
    ensures
        run_ops(c, cap, ops).len() + recvs_accepted(c, cap, ops) == c.len() + sends_accepted(
            c,
            cap,
            ops,
        ),
        run_ops(c, cap, ops).len() <= cap,
    decreases ops.len(),
{
    if ops.len() > 0 {
        match ops[0] {
            Some(v) => lemma_conservation(after_send(c, cap, v), cap, ops.drop_first()),
            None => lemma_conservation(after_recv(c), cap, ops.drop_first()),
        }
    }
}

} // verus!
