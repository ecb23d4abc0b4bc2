//! The allocation header at the start of a segment, the bump placement of
//! values after it, and the checks that overlaying a typed value needs.
//!
//! A segment's bytes are laid out as `[header][value 0][value 1]...`. The
//! header is two little-endian 64-bit words: the usable length (the bytes after
//! the header) and the cursor, the offset from the start of the segment where
//! the next value goes. Values are never freed: the cursor only moves forward.
use crate::error::{Error, ErrorKind, ENOENT};
use vstd::layout::{align_nonzero, align_of_as_usize, size_of_as_usize};
use vstd::prelude::*;

verus! {

/// The bytes the header takes at the start of every segment.
pub const HEADER_SIZE: usize = 16;

/// The largest usable length a segment can have: header and usable bytes
/// together must fit in an `isize`.
pub const MAX_LEN: usize = usize::MAX / 2 - HEADER_SIZE;

/// The little-endian 64-bit word in the eight bytes of `s` that start at `at`.
pub open spec fn word_at(s: Seq<u8>, at: int) -> u64 {
    (s[at] as u64) | ((s[at + 1] as u64) << 8u64) | ((s[at + 2] as u64) << 16u64) | ((s[at
        + 3] as u64) << 24u64) | ((s[at + 4] as u64) << 32u64) | ((s[at + 5] as u64) << 40u64)
        | ((s[at + 6] as u64) << 48u64) | ((s[at + 7] as u64) << 56u64)
}

proof fn lemma_word_bytes(v: u64, b0: u8, b1: u8, b2: u8, b3: u8, b4: u8, b5: u8, b6: u8, b7: u8)
    by (bit_vector)
    requires
        b0 == v as u8,
        b1 == (v >> 8u64) as u8,
        b2 == (v >> 16u64) as u8,
        b3 == (v >> 24u64) as u8,
        b4 == (v >> 32u64) as u8,
        b5 == (v >> 40u64) as u8,
        b6 == (v >> 48u64) as u8,
        b7 == (v >> 56u64) as u8,
    ensures
        (b0 as u64) | ((b1 as u64) << 8u64) | ((b2 as u64) << 16u64) | ((b3 as u64) << 24u64) | ((
        b4 as u64) << 32u64) | ((b5 as u64) << 40u64) | ((b6 as u64) << 48u64) | ((b7 as u64)
            << 56u64) == v,
{
}

fn read_word(bytes: &[u8], at: usize) -> (r: u64)
    requires
        at + 8 <= bytes@.len(),
    ensures
        r == word_at(bytes@, at as int),
{
    (bytes[at] as u64) | ((bytes[at + 1] as u64) << 8u64) | ((bytes[at + 2] as u64) << 16u64) | ((
    bytes[at + 3] as u64) << 24u64) | ((bytes[at + 4] as u64) << 32u64) | ((bytes[at + 5] as u64)
        << 40u64) | ((bytes[at + 6] as u64) << 48u64) | ((bytes[at + 7] as u64) << 56u64)
}

fn write_word(bytes: &mut [u8], at: usize, v: u64)
    requires
        at + 8 <= old(bytes)@.len(),
    ensures
        final(bytes)@.len() == old(bytes)@.len(),
        word_at(final(bytes)@, at as int) == v,
        forall|i: int|
            0 <= i < old(bytes)@.len() && !(at <= i < at + 8) ==> final(bytes)@[i] == old(
                bytes,
            )@[i],
{
    bytes[at] = v as u8;
    bytes[at + 1] = (v >> 8u64) as u8;
    bytes[at + 2] = (v >> 16u64) as u8;
    bytes[at + 3] = (v >> 24u64) as u8;
    bytes[at + 4] = (v >> 32u64) as u8;
    bytes[at + 5] = (v >> 40u64) as u8;
    bytes[at + 6] = (v >> 48u64) as u8;
    bytes[at + 7] = (v >> 56u64) as u8;
    proof {
        let s = bytes@;
        lemma_word_bytes(v, s[at as int], s[at + 1], s[at + 2], s[at + 3], s[at + 4], s[at + 5], s[at + 6], s[at + 7]);
    }
}

/// Why overlaying `size` bytes at address `addr`, with `avail` bytes there,
/// aligned to `align`, is refused: `None` when it is not.
pub open spec fn overlay_error(avail: usize, addr: int, size: usize, align: usize) -> Option<
    ErrorKind,
> {
    if avail < size {
        Some(ErrorKind::SizeError(avail))
    } else if addr % (align as int) != 0 {
        Some(ErrorKind::AlignmentError(align))
    } else {
        None
    }
}

/// Checks that a value of `size` bytes aligned to `align` can be overlaid at
/// address `addr`, where `avail` bytes are there: a size error carrying
/// `avail` when it does not fit, else an alignment error carrying `align` when
/// the address is misaligned.
pub fn check_overlay(avail: usize, addr: usize, size: usize, align: usize) -> (r: Result<
    (),
    Error,
>)
    requires
        align > 0,
    ensures
        overlay_error(avail, addr as int, size, align) is None ==> r is Ok,
        overlay_error(avail, addr as int, size, align) is Some ==> r is Err && r->Err_0.spec_kind()
            == overlay_error(avail, addr as int, size, align)->Some_0,
        r is Ok ==> size <= avail && addr % align == 0,
{
    if avail < size {
        Err(Error::new(ErrorKind::SizeError(avail)))
    } else if addr % align != 0 {
        Err(Error::new(ErrorKind::AlignmentError(align)))
    } else {
        Ok(())
    }
}

/// The allocation header of a segment: its usable length and its cursor.
#[derive(Clone, Copy, Debug, PartialEq, Eq, Structural)]
pub struct Header {
    /// The usable length: the bytes after the header.
    pub len: usize,
    /// The cursor: the offset from the start of the segment where the next
    /// value goes.
    pub next: usize,
}

/// Whether `s` holds the header `h` in its first `HEADER_SIZE` bytes.
pub open spec fn encodes(s: Seq<u8>, h: Header) -> bool {
    &&& s.len() >= HEADER_SIZE
    &&& word_at(s, 0) == h.len as u64
    &&& word_at(s, 8) == h.next as u64
}

/// The header that the first `HEADER_SIZE` bytes of `s` spell.
pub open spec fn decoded(s: Seq<u8>) -> Header {
    Header { len: word_at(s, 0) as usize, next: word_at(s, 8) as usize }
}

/// Whether `s`, the bytes of a whole mapped segment, starts with a header that
/// is consistent with the segment's size.
pub open spec fn readable(s: Seq<u8>) -> bool {
    &&& s.len() >= HEADER_SIZE
    &&& word_at(s, 0) <= usize::MAX
    &&& word_at(s, 8) <= usize::MAX
    &&& decoded(s).wf()
    &&& HEADER_SIZE + decoded(s).len <= s.len()
}

/// Why placing `size` bytes aligned to `align`, in a segment with header `h`
/// mapped at address `base`, is refused: `None` when it is not.
pub open spec fn place_error(h: Header, size: usize, align: usize, base: usize) -> Option<
    ErrorKind,
> {
    overlay_error(h.remaining() as usize, base + h.next, size, align)
}

/// Why overlaying `size` bytes aligned to `align` at `offset`, in a segment
/// with header `h` mapped at address `base`, is refused: `None` when it is
/// not. An offset outside the usable bytes leaves no bytes at all.
pub open spec fn overlay_at_error(h: Header, offset: usize, size: usize, align: usize, base: usize) -> Option<
    ErrorKind,
> {
    if HEADER_SIZE <= offset <= HEADER_SIZE + h.len {
        overlay_error((HEADER_SIZE + h.len - offset) as usize, base + offset, size, align)
    } else {
        Some(ErrorKind::SizeError(0))
    }
}

/// The header after an attempt to place `size` bytes: the cursor moves by
/// exactly `size` when the placement is accepted, and stays otherwise.
pub open spec fn placed(h: Header, size: usize, align: usize, base: usize) -> Header {
    if place_error(h, size, align, base) is None {
        Header { len: h.len, next: (h.next + size) as usize }
    } else {
        h
    }
}

/// The header after a sequence of placement attempts, each a size and an
/// alignment.
pub open spec fn placed_all(h: Header, reqs: Seq<(usize, usize)>, base: usize) -> Header
    decreases reqs.len(),
{
    if reqs.len() == 0 {
        h
    } else {
        placed_all(placed(h, reqs[0].0, reqs[0].1, base), reqs.drop_first(), base)
    }
}

impl Header {
    /// The cursor lies between the end of the header and the end of the
    /// usable bytes, and the whole segment fits in an `isize`.
    pub open spec fn wf(&self) -> bool {
        &&& self.len <= MAX_LEN
        &&& HEADER_SIZE <= self.next <= HEADER_SIZE + self.len
    }

    /// The usable bytes that no value occupies yet.
    pub open spec fn remaining(&self) -> nat {
        (HEADER_SIZE + self.len - self.next) as nat
    }

    /// The header of a new segment with `size` usable bytes, its cursor just
    /// after the header. A size of zero, or one over `MAX_LEN`, is refused
    /// with a size error.
    pub fn create(size: usize) -> (r: Result<Header, Error>)
        ensures
            size == 0 ==> r is Err && r->Err_0.spec_kind() == ErrorKind::SizeError(0),
            size > MAX_LEN ==> r is Err && r->Err_0.spec_kind() == ErrorKind::SizeError(MAX_LEN),
            0 < size <= MAX_LEN ==> r is Ok && r->Ok_0 == (Header { len: size, next: HEADER_SIZE }),
            r is Ok ==> r->Ok_0.wf(),
    {
        if size == 0 {
            Err(Error::new(ErrorKind::SizeError(0)))
        } else if size > MAX_LEN {
            Err(Error::new(ErrorKind::SizeError(MAX_LEN)))
        } else {
            Ok(Header { len: size, next: HEADER_SIZE })
        }
    }

    /// The bytes the whole segment takes: header and usable bytes.
    pub fn mapped_len(&self) -> (r: usize)
        requires
            self.wf(),
        ensures
            r == HEADER_SIZE + self.len,
    {
        HEADER_SIZE + self.len
    }

    /// The usable bytes that no value occupies yet.
    pub fn remaining_len(&self) -> (r: usize)
        requires
            self.wf(),
        ensures
            r == self.remaining(),
    {
        HEADER_SIZE + self.len - self.next
    }

    /// Writes the header into the first `HEADER_SIZE` bytes of `bytes`,
    /// leaving the others as they are.
    pub fn write_to(&self, bytes: &mut [u8])
        requires
            old(bytes)@.len() >= HEADER_SIZE,
        ensures
            final(bytes)@.len() == old(bytes)@.len(),
            encodes(final(bytes)@, *self),
            forall|i: int|
                HEADER_SIZE <= i < old(bytes)@.len() ==> final(bytes)@[i] == old(bytes)@[i],
    {
        write_word(bytes, 0, self.len as u64);
        let ghost mid = bytes@;
        write_word(bytes, 8, self.next as u64);
        assert(word_at(bytes@, 0) == word_at(mid, 0));
    }

    /// Reads the header at the start of `bytes`, the whole mapped segment. It
    /// is refused with a size error carrying `bytes.len()` when the bytes are
    /// too short to hold a header, or hold one that does not fit them.
    pub fn read_from(bytes: &[u8]) -> (r: Result<Header, Error>)
        ensures
            readable(bytes@) ==> r is Ok && r->Ok_0 == decoded(bytes@),
            !readable(bytes@) ==> r is Err && r->Err_0.spec_kind() == ErrorKind::SizeError(
                bytes@.len() as usize,
            ),
            r is Ok ==> r->Ok_0.wf(),
    {
        let n = bytes.len();
        if n < HEADER_SIZE {
            return Err(Error::new(ErrorKind::SizeError(n)));
        }
        let len = read_word(bytes, 0);
        let next = read_word(bytes, 8);
        if len > usize::MAX as u64 || next > usize::MAX as u64 {
            return Err(Error::new(ErrorKind::SizeError(n)));
        }
        let h = Header { len: len as usize, next: next as usize };
        if h.len > MAX_LEN || h.next < HEADER_SIZE || h.next > HEADER_SIZE + h.len
            || HEADER_SIZE + h.len > n {
            return Err(Error::new(ErrorKind::SizeError(n)));
        }
        Ok(h)
    }

    /// Checks that a value of `size` bytes aligned to `align` can be overlaid
    /// at `offset` in the segment mapped at address `base`: a size error
    /// carrying the bytes from `offset` to the end when it does not fit, else
    /// an alignment error carrying `align` when the address is misaligned.
    pub fn check_at(&self, offset: usize, size: usize, align: usize, base: usize) -> (r: Result<
        (),
        Error,
    >)
        requires
            self.wf(),
            align > 0,
            base + HEADER_SIZE + self.len <= usize::MAX,
        ensures
            overlay_at_error(*self, offset, size, align, base) is None ==> r is Ok,
            overlay_at_error(*self, offset, size, align, base) is Some ==> r is Err
                && r->Err_0.spec_kind() == overlay_at_error(*self, offset, size, align, base)->Some_0,
    {
        if offset < HEADER_SIZE || offset > HEADER_SIZE + self.len {
            return Err(Error::new(ErrorKind::SizeError(0)));
        }
        check_overlay(HEADER_SIZE + self.len - offset, base + offset, size, align)
    }

    /// Places a value of type `T` at the cursor of the segment mapped at
    /// address `base`: `place` with the size and alignment of `T`.
    pub fn place_value<T>(&mut self, base: usize) -> (r: Result<usize, Error>)
        requires
            old(self).wf(),
            base + HEADER_SIZE + old(self).len <= usize::MAX,
        ensures
            *final(self) == placed(*old(self), size_of_as_usize::<T>(), align_of_as_usize::<T>(), base),
            place_error(*old(self), size_of_as_usize::<T>(), align_of_as_usize::<T>(), base) is None
                ==> r is Ok && r->Ok_0 == old(self).next,
            place_error(*old(self), size_of_as_usize::<T>(), align_of_as_usize::<T>(), base) is Some
                ==> r is Err && r->Err_0.spec_kind() == place_error(
                *old(self),
                size_of_as_usize::<T>(),
                align_of_as_usize::<T>(),
                base,
            )->Some_0,
            final(self).wf(),
    {
        let size = core::mem::size_of::<T>();
        let align = core::mem::align_of::<T>();
        proof {
            broadcast use align_nonzero;
        }
        self.place(size, align, base)
    }

    /// Checks that a value of type `T` can be overlaid at `offset` in the
    /// segment mapped at address `base`: `check_at` with the size and
    /// alignment of `T`.
    pub fn check_value_at<T>(&self, offset: usize, base: usize) -> (r: Result<(), Error>)
        requires
            self.wf(),
            base + HEADER_SIZE + self.len <= usize::MAX,
        ensures
            overlay_at_error(*self, offset, size_of_as_usize::<T>(), align_of_as_usize::<T>(), base)
                is None ==> r is Ok,
            overlay_at_error(*self, offset, size_of_as_usize::<T>(), align_of_as_usize::<T>(), base)
                is Some ==> r is Err && r->Err_0.spec_kind() == overlay_at_error(
                *self,
                offset,
                size_of_as_usize::<T>(),
                align_of_as_usize::<T>(),
                base,
            )->Some_0,
    {
        let size = core::mem::size_of::<T>();
        let align = core::mem::align_of::<T>();
        proof {
            broadcast use align_nonzero;
        }
        self.check_at(offset, size, align, base)
    }

    /// Places a value of `size` bytes aligned to `align` at the cursor, in the
    /// segment mapped at address `base`, and returns the offset it takes. It is
    /// refused, with the cursor left where it was, by a size error carrying the
    /// remaining bytes when the value does not fit, else by an alignment error
    /// carrying `align` when the address at the cursor is misaligned.
    pub fn place(&mut self, size: usize, align: usize, base: usize) -> (r: Result<usize, Error>)
        requires
            old(self).wf(),
            align > 0,
            base + HEADER_SIZE + old(self).len <= usize::MAX,
        ensures
            *final(self) == placed(*old(self), size, align, base),
            place_error(*old(self), size, align, base) is None ==> r is Ok && r->Ok_0
                == old(self).next,
            place_error(*old(self), size, align, base) is Some ==> r is Err && r->Err_0.spec_kind()
                == place_error(*old(self), size, align, base)->Some_0,
            r is Ok ==> (base + r->Ok_0) % (align as int) == 0,
            final(self).wf(),
            old(self).next <= final(self).next,
    {
        let avail = self.remaining_len();
        match check_overlay(avail, base + self.next, size, align) {
            Ok(()) => {
                let at = self.next;
                self.next = self.next + size;
                Ok(at)
            },
            Err(e) => Err(e),
        }
    }
}

/// Whether removing a name ended well: it succeeded, or the name was gone.
pub open spec fn unlink_ok(code: Option<i32>) -> bool {
    code is None || code == Some(ENOENT)
}

/// What releasing a segment makes of the result of removing its name: `None`
/// when the removal succeeded, else its OS code. A name that is already gone
/// counts as removed, since another handle may have removed it first.
pub fn unlink_result(code: Option<i32>) -> (r: Result<(), Error>)
    ensures
        unlink_ok(code) ==> r is Ok,
        !unlink_ok(code) ==> r is Err && r->Err_0.spec_kind()
            == ErrorKind::IoError(code->Some_0),
{
    match code {
        None => Ok(()),
        Some(c) => {
            if c == ENOENT {
                Ok(())
            } else {
                Err(Error::new(ErrorKind::IoError(c)))
            }
        },
    }
}

/// A header written to a segment's bytes is read back from them unchanged, as
/// when another handle opens the segment; and a value placed at the cursor is
/// then accepted by an overlay at the offset it was placed at.
pub proof fn lemma_reopen(s: Seq<u8>, h: Header, size: usize, align: usize, base: usize)
    requires
        h.wf(),
        align > 0,
        place_error(h, size, align, base) is None,
        encodes(s, placed(h, size, align, base)),
        s.len() >= HEADER_SIZE + h.len,
    ensures
        readable(s),
        decoded(s) == placed(h, size, align, base),
        overlay_at_error(decoded(s), h.next, size, align, base) is None,
{
}

/// Over any sequence of placements in one segment the cursor never moves back
/// and never passes the end of the usable bytes, and the length stays.
pub proof fn lemma_cursor_monotone(h: Header, reqs: Seq<(usize, usize)>, base: usize)
    requires
        h.wf(),
    ensures
        placed_all(h, reqs, base).wf(),
        placed_all(h, reqs, base).len == h.len,
        h.next <= placed_all(h, reqs, base).next,
    decreases reqs.len(),
{
    if reqs.len() > 0 {
        lemma_cursor_monotone(placed(h, reqs[0].0, reqs[0].1, base), reqs.drop_first(), base);
    }
}

/// A value larger than the remaining bytes is refused with a size error that
/// carries them, and the cursor stays where it was.
pub proof fn lemma_too_large(h: Header, size: usize, align: usize, base: usize)
    requires
        h.wf(),
        size > h.remaining(),
    ensures
        place_error(h, size, align, base) == Some(ErrorKind::SizeError(h.remaining() as usize)),
        placed(h, size, align, base) == h,
{
}

/// An overlay at an address that its alignment does not divide is refused
/// with an alignment error, whenever the value fits.
pub proof fn lemma_misaligned(avail: usize, addr: int, size: usize, align: usize)
    requires
        align > 0,
        size <= avail,
        addr % (align as int) != 0,
    ensures
        overlay_error(avail, addr, size, align) == Some(ErrorKind::AlignmentError(align)),
{
}

/// Releasing two handles to one segment: the first removal succeeds, the
/// second finds the name gone, and both releases end well.
pub proof fn lemma_unlink_twice()
    ensures
        unlink_ok(None),
        unlink_ok(Some(ENOENT)),
{
}

} // verus!
