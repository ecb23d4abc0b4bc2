//! Spin-based synchronization primitives that can be embedded in shared memory.
//!
//! The state of each primitive is one atomic word, which every process that
//! maps the segment may write at any time. So the contracts say nothing of
//! what the word holds once it is shared: they speak of the results of the
//! atomic operations, which tell what the word held at the instant each one
//! took effect. How one process sees the word change when no other process
//! acts is modelled by [`flag_exchange`] and [`word_exchange`], and the laws at
//! the end of this module are stated over that model.
use std::sync::atomic::{AtomicU32, AtomicU8, Ordering};
use crate::error::{Error, ErrorKind, EPERM, ETIMEDOUT};
use vstd::prelude::*;

verus! {

/// The byte an `AtomicU8` was made with. Once the atomic is shared other
/// processes change it, so nothing past its construction speaks of it.
pub uninterp spec fn flag_of(a: AtomicU8) -> u8;

/// Relies on AtomicU8::new: the new atomic holds `v`.
#[verifier::external_body]
fn new_flag(v: u8) -> (r: AtomicU8)
    ensures
        flag_of(r) == v,
{
    AtomicU8::new(v)
}

/// Relies on AtomicU8::store: writes `v` with release ordering. Another
/// process may write the byte again before this call returns, so nothing is
/// claimed of it.
#[verifier::external_body]
fn store_flag(a: &AtomicU8, v: u8) {
    a.store(v, Ordering::Release)
}

/// Relies on AtomicU8::compare_exchange (acquire on success, relaxed on
/// failure): `Ok` carries the byte it replaced, which was `current`; `Err`
/// carries the byte it found instead, which was not.
#[verifier::external_body]
fn exchange_flag(a: &AtomicU8, current: u8, new: u8) -> (r: Result<u8, u8>)
    ensures
        r is Ok ==> r->Ok_0 == current,
        r is Err ==> r->Err_0 != current,
{
    a.compare_exchange(current, new, Ordering::Acquire, Ordering::Relaxed)
}

/// Relies on core::hint::spin_loop: a hint to the processor inside a busy
/// wait, which changes no value.
pub assume_specification[ core::hint::spin_loop ]();

/// The word an `AtomicU32` was made with. Once the atomic is shared other
/// processes change it, so nothing past its construction speaks of it.
pub uninterp spec fn word_of(a: AtomicU32) -> u32;

/// Relies on AtomicU32::new: the new atomic holds `v`.
#[verifier::external_body]
fn new_word(v: u32) -> (r: AtomicU32)
    ensures
        word_of(r) == v,
{
    AtomicU32::new(v)
}

/// Relies on AtomicU32::compare_exchange (`success` orders a write, a failure
/// is relaxed): `Ok` carries the word it replaced, which was `current`; `Err`
/// carries the word it found instead, which was not.
#[verifier::external_body]
fn exchange_word(a: &AtomicU32, current: u32, new: u32, success: Ordering) -> (r: Result<
    u32,
    u32,
>)
    ensures
        r is Ok ==> r->Ok_0 == current,
        r is Err ==> r->Err_0 != current,
{
    a.compare_exchange(current, new, success, Ordering::Relaxed)
}

/// How many failed attempts a spinning operation makes before it gives up.
pub const SPIN_LIMIT: u64 = 0xffff_ffff_ffff_ffff;

/// What a spinning operation makes of one exchange: `Some` of the value the
/// exchange replaced, to return with, or `None`, to try again.
pub open spec fn claim<T>(observed: Result<T, T>) -> Option<T> {
    match observed {
        Ok(v) => Some(v),
        Err(_) => None,
    }
}

/// Decides, from the result of one exchange, whether a spinning operation
/// returns (with the value the exchange replaced) or tries again.
pub fn claimed<T: Copy>(observed: Result<T, T>) -> (r: Option<T>)
    ensures
        r == claim(observed),
{
    match observed {
        Ok(v) => Some(v),
        Err(_) => None,
    }
}

/// What an unlock makes of its exchange of the caller's id for 0: the id it
/// replaced when the caller owned the lock, else an `EPERM` error.
pub fn unlock_result(observed: Result<u32, u32>) -> (r: Result<u32, Error>)
    ensures
        claim(observed) is Some ==> r is Ok && r->Ok_0 == claim(observed)->Some_0,
        claim(observed) is None ==> r is Err && r->Err_0.spec_kind() == ErrorKind::IoError(EPERM),
{
    match observed {
        Ok(w) => Ok(w),
        Err(_) => Err(Error::new(ErrorKind::IoError(EPERM))),
    }
}

/// A compare-and-exchange of `current` for `new` on a byte that holds `v`, as
/// one process sees it when no other acts: its result, and the byte after.
pub open spec fn flag_exchange(v: u8, current: u8, new: u8) -> (Result<u8, u8>, u8) {
    if v == current {
        (Ok(v), new)
    } else {
        (Err(v), v)
    }
}

/// A compare-and-exchange of `current` for `new` on a word that holds `v`, as
/// one process sees it when no other acts: its result, and the word after.
pub open spec fn word_exchange(v: u32, current: u32, new: u32) -> (Result<u32, u32>, u32) {
    if v == current {
        (Ok(v), new)
    } else {
        (Err(v), v)
    }
}

/// A one-slot signal: `post` raises it (the byte becomes 1), `wait` takes it
/// down (an exchange of 1 for 0). Two posts with no wait between them leave a
/// single pending signal.
pub struct BinarySemaphore {
    inner: AtomicU8,
}

impl BinarySemaphore {
    /// The byte the semaphore was made with: 1 for a pending signal, 0 for none.
    pub closed spec fn initial(&self) -> u8 {
        flag_of(self.inner)
    }

    /// A semaphore with no pending signal.
    pub fn new() -> (r: BinarySemaphore)
        ensures
            r.initial() == 0,
    {
        BinarySemaphore { inner: new_flag(0) }
    }

    /// Raises the signal: a release store of 1.
    pub fn post(&mut self) -> (r: crate::error::Result<()>)
        ensures
            r is Ok,
    {
        store_flag(&self.inner, 1);
        Ok(())
    }

    /// Spins on acquire exchanges of 1 for 0 until one takes a pending signal
    /// down, and returns the byte it replaced: `Ok` only ever comes from an
    /// exchange that found the signal pending. It gives up with `ETIMEDOUT`
    /// only after `SPIN_LIMIT` further attempts.
    pub fn wait(&mut self) -> (r: crate::error::Result<u8>)
        ensures
            r is Ok ==> r->Ok_0 == 1u8,
            r is Err ==> r->Err_0.spec_kind() == ErrorKind::IoError(ETIMEDOUT),
    {
        if let Some(v) = claimed(exchange_flag(&self.inner, 1, 0)) {
            return Ok(v);
        }
        let mut left: u64 = SPIN_LIMIT;
        while left > 0
            decreases left,
        {
            if let Some(v) = claimed(exchange_flag(&self.inner, 1, 0)) {
                return Ok(v);
            }
            core::hint::spin_loop();
            left = left - 1;
        }
        Err(Error::new(ErrorKind::IoError(ETIMEDOUT)))
    }
}

impl Default for BinarySemaphore {
    fn default() -> (r: BinarySemaphore)
        ensures
            r.initial() == 0,
    {
        BinarySemaphore::new()
    }
}

/// A lock whose word holds the id of the process that owns it, or 0 when it
/// is free. It is taken by an exchange of 0 for the caller's id, and released
/// by an exchange of the caller's id for 0, so only the owner can release it.
pub struct Spinlock {
    inner: AtomicU32,
}

impl Spinlock {
    /// The word the lock was made with: an owner's id, or 0 when free.
    pub closed spec fn initial(&self) -> u32 {
        word_of(self.inner)
    }

    /// A free lock.
    pub fn new() -> (r: Spinlock)
        ensures
            r.initial() == 0,
    {
        Spinlock { inner: new_word(0) }
    }

    /// Releases the lock held by `pid` with a release exchange of `pid` for 0,
    /// and returns the word it replaced: `Ok` only ever comes from an exchange
    /// that found `pid` as owner. Otherwise the caller gets `EPERM`, and the
    /// failed exchange wrote nothing.
    pub fn unlock(&mut self, pid: u32) -> (r: crate::error::Result<u32>)
        ensures
            r is Ok ==> r->Ok_0 == pid,
            r is Err ==> r->Err_0.spec_kind() == ErrorKind::IoError(EPERM),
    {
        unlock_result(exchange_word(&self.inner, pid, 0, Ordering::Release))
    }

    /// Spins on acquire exchanges of 0 for `pid` until one takes the free lock,
    /// and returns the word it replaced: `Ok` only ever comes from an exchange
    /// that found the lock free, so a held lock is never taken. It gives up
    /// with `ETIMEDOUT` only after `SPIN_LIMIT` further attempts.
    pub fn lock(&mut self, pid: u32) -> (r: crate::error::Result<u32>)
        ensures
            r is Ok ==> r->Ok_0 == 0u32,
            r is Err ==> r->Err_0.spec_kind() == ErrorKind::IoError(ETIMEDOUT),
    {
        if let Some(w) = claimed(exchange_word(&self.inner, 0, pid, Ordering::Acquire)) {
            return Ok(w);
        }
        let mut left: u64 = SPIN_LIMIT;
        while left > 0
            decreases left,
        {
            if let Some(w) = claimed(exchange_word(&self.inner, 0, pid, Ordering::Acquire)) {
                return Ok(w);
            }
            core::hint::spin_loop();
            left = left - 1;
        }
        Err(Error::new(ErrorKind::IoError(ETIMEDOUT)))
    }
}

impl Default for Spinlock {
    fn default() -> (r: Spinlock)
        ensures
            r.initial() == 0,
    {
        Spinlock::new()
    }
}

/// With no other process acting: a wait that follows a post (the byte is 1)
/// takes the signal at its first exchange and leaves the byte 0; a wait with
/// no signal pending (the byte is 0) is told to spin, and the byte stays 0.
pub proof fn lemma_handshake()
    ensures
        claim(flag_exchange(1, 1, 0).0) == Some(1u8),
        flag_exchange(1, 1, 0).1 == 0,
        claim(flag_exchange(0, 1, 0).0) is None,
        flag_exchange(0, 1, 0).1 == 0,
{
}

/// With no other process acting on the owner word `owner`: an unlock by a
/// process that does not own the lock is refused and leaves the word as it
/// is; a lock on a held lock is told to spin and leaves it as it is; a lock by
/// `pid` on a free lock takes it, and an unlock by `pid` then leaves it free.
pub proof fn lemma_ownership(owner: u32, pid: u32)
    ensures
        owner != pid ==> claim(word_exchange(owner, pid, 0).0) is None
            && word_exchange(owner, pid, 0).1 == owner,
        owner != 0 ==> claim(word_exchange(owner, 0, pid).0) is None && word_exchange(
            owner,
            0,
            pid,
        ).1 == owner,
        claim(word_exchange(0, 0, pid).0) == Some(0u32) && word_exchange(0, 0, pid).1 == pid,
        claim(word_exchange(pid, pid, 0).0) == Some(pid) && word_exchange(
            pid,
            pid,
            0,
        ).1 == 0,
{
}

} // verus!
