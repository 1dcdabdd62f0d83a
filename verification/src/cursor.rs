//! An in-memory cursor over a fixed-size byte buffer. Writing overwrites the
//! buffer from the current position and never grows it; reading copies from
//! the current position.

use vstd::prelude::*;
use vstd::slice::slice_subrange;
use embedded_io::Write;
use crate::bytes::{le2, le4, le_u16, le_u32};

verus! {

/// The errors a cursor reports (the `embedded_io::ErrorKind` kinds it can
/// produce).
#[derive(Clone, Copy, Debug, PartialEq, Eq, Structural)]
pub enum CursorError {
    /// A seek went below zero or past `u64::MAX`.
    InvalidInput,
    /// A write could not place any byte: the buffer is full.
    WriteZero,
}

/// Where a seek starts from.
#[derive(Clone, Copy, Debug, PartialEq, Eq, Structural)]
pub enum SeekFrom {
    /// Sets the position to the given number of bytes.
    Start(u64),
    /// Sets the position to the buffer's length plus the given offset.
    End(i64),
    /// Sets the position to the current position plus the given offset.
    Current(i64),
}

#[derive(Debug, Default, Eq, PartialEq, Clone)]
pub struct Cursor<T> {
    inner: T,
    pos: usize,
}

/// The position at which the next write lands: the cursor's position,
/// clamped to the buffer's length.
pub open spec fn clamp_pos(pos: int, len: int) -> int {
    if pos < len {
        pos
    } else {
        len
    }
}

/// How many of `n` bytes fit in a buffer of length `len` from position `pos`.
pub open spec fn fit_amount(pos: int, len: int, n: int) -> int {
    let room = len - clamp_pos(pos, len);
    if n < room {
        n
    } else {
        room
    }
}

/// `buf` with `data` laid over it from index `at`.
pub open spec fn splice(buf: Seq<u8>, at: int, data: Seq<u8>) -> Seq<u8> {
    buf.take(at) + data + buf.skip(at + data.len())
}

/// The buffer after writing all of `data` at position `pos`: the prefix of
/// `data` that fits is laid over the buffer, the rest is dropped.
pub open spec fn buffer_after_write(buf: Seq<u8>, pos: int, data: Seq<u8>) -> Seq<u8> {
    splice(buf, clamp_pos(pos, buf.len() as int), data.take(fit_amount(pos, buf.len() as int, data.len() as int)))
}

/// The position after writing all of `data` at position `pos`.
pub open spec fn pos_after_write(len: int, pos: int, n: int) -> int {
    pos + fit_amount(pos, len, n)
}

/// Whether all of `n` bytes fit from position `pos`.
pub open spec fn write_fits(len: int, pos: int, n: int) -> bool {
    fit_amount(pos, len, n) == n
}

/// What writing all of `data` does to a byte cursor: the part of `data` that
/// fits is laid over the buffer from the position, the position advances by
/// that much, and the result is `Ok` exactly when all of `data` fit
/// (`WriteZero` otherwise).
pub open spec fn wrote(before: Cursor<&mut [u8]>, after: Cursor<&mut [u8]>, data: Seq<u8>, r: Result<(), CursorError>) -> bool {
    let len = before.spec_inner()@.len() as int;
    let pos = before.spec_pos() as int;
    &&& after.spec_inner()@ == buffer_after_write(before.spec_inner()@, pos, data)
    &&& after.spec_pos() == pos_after_write(len, pos, data.len() as int)
    &&& r == (if write_fits(len, pos, data.len() as int) {
        Ok::<(), CursorError>(())
    } else {
        Err::<(), CursorError>(CursorError::WriteZero)
    })
}

impl<T> Cursor<T> {
    /// The wrapped value.
    pub closed spec fn spec_inner(&self) -> T {
        self.inner
    }

    /// The current position.
    pub closed spec fn spec_pos(&self) -> usize {
        self.pos
    }

    /// Creates a new cursor wrapping the provided underlying in-memory buffer.
    ///
    /// The initial position is `0` even if the buffer is not empty, so writing
    /// starts by overwriting its content, never by appending to it.
    pub fn new(inner: T) -> (r: Cursor<T>)
        ensures
            r.spec_inner() == inner,
            r.spec_pos() == 0,
    {
        Cursor { pos: 0, inner }
    }

    /// Consumes this cursor, returning the underlying value.
    pub fn into_inner(self) -> (r: T)
        ensures
            r == self.spec_inner(),
    {
        self.inner
    }

    /// Gets a reference to the underlying value in this cursor.
    pub fn get_ref(&self) -> (r: &T)
        ensures
            *r == self.spec_inner(),
    {
        &self.inner
    }

    /// Gets a mutable reference to the underlying value in this cursor.
    ///
    /// Care should be taken to avoid modifying the underlying value in a way
    /// that does not suit the cursor's position.
    pub fn get_mut(&mut self) -> (r: &mut T)
        ensures
            *r == old(self).spec_inner(),
            final(self).spec_inner() == *final(r),
            final(self).spec_pos() == old(self).spec_pos(),
    {
        &mut self.inner
    }

    /// Returns the current position of this cursor.
    pub fn position(&self) -> (r: usize)
        ensures
            r == self.spec_pos(),
    {
        self.pos
    }

    /// Sets the position of this cursor.
    pub fn set_position(&mut self, pos: usize)
        ensures
            final(self).spec_pos() == pos,
            final(self).spec_inner() == old(self).spec_inner(),
    {
        self.pos = pos;
    }
}

/// Whether `after` wraps the same value as `before`. Moving a cursor
/// (`set_position`, `seek`, `consume`), reading through it (`read`) and
/// looking at it (`position`, `remaining_slice`, `fill_buf`, `is_empty`)
/// keep the wrapped value: each of them ensures this.
pub open spec fn keeps_inner<T>(before: Cursor<T>, after: Cursor<T>) -> bool {
    after.spec_inner() == before.spec_inner()
}

/// Through any run of calls that each keep the wrapped value, the cursor
/// wraps the value it was created with, so `into_inner` gives that value
/// back.
pub proof fn lemma_inner_kept<T>(states: Seq<Cursor<T>>)
    requires
        states.len() > 0,
        forall|i: int| 0 < i < states.len() ==> keeps_inner(states[i - 1], #[trigger] states[i]),
    ensures
        forall|i: int| 0 <= i < states.len() ==> (#[trigger] states[i]).spec_inner() == states[0].spec_inner(),
    decreases states.len(),
{
    if states.len() > 1 {
        let prefix = states.drop_last();
        assert forall|i: int| 0 < i < prefix.len() implies keeps_inner(prefix[i - 1], #[trigger] prefix[i]) by {
            assert(prefix[i] == states[i]);
            assert(prefix[i - 1] == states[i - 1]);
        }
        lemma_inner_kept(prefix);
        assert forall|i: int| 0 <= i < states.len() implies (#[trigger] states[i]).spec_inner() == states[0].spec_inner() by {
            if i < states.len() - 1 {
                assert(states[i] == prefix[i]);
            } else {
                assert(prefix[i - 1] == states[i - 1]);
                assert(keeps_inner(states[i - 1], states[i]));
            }
        }
    }
}

/// Writes `src` into `dest` from index `start` with `embedded_io`'s
/// `Write::write` for `&mut [u8]`. As its source shows, that call copies
/// `min(src.len(), room)` bytes, where `room` is the length of the slice from
/// `start`, and fails with `SliceWriteError::Full` (kind `WriteZero`) without
/// writing when `src` is not empty and the slice is. The contract states that.
#[verifier::external_body]
fn write_into_slice(dest: &mut [u8], start: usize, src: &[u8]) -> (r: Result<usize, CursorError>)
    requires
        start <= old(dest)@.len(),
    ensures
        ({
            let room = old(dest)@.len() - start;
            let amt = if src@.len() < room { src@.len() as int } else { room };
            if src@.len() > 0 && amt == 0 {
                &&& r == Err::<usize, CursorError>(CursorError::WriteZero)
                &&& final(dest)@ == old(dest)@
            } else {
                &&& r == Ok::<usize, CursorError>(amt as usize)
                &&& final(dest)@ == splice(old(dest)@, start as int, src@.take(amt))
            }
        }),
{
    let mut rest: &mut [u8] = &mut dest[start..];
    match rest.write(src) {
        Ok(n) => Ok(n),
        Err(_) => Err(CursorError::WriteZero),
    }
}

/// Writes as much of `buf` as fits into `slice` from the position
/// `*pos_mut` (clamped to the slice's length) and advances the position by
/// the number of bytes written, which it returns. Fails with `WriteZero`,
/// writing nothing, when `buf` is not empty and no byte fits.
pub fn slice_write(pos_mut: &mut usize, slice: &mut [u8], buf: &[u8]) -> (r: Result<usize, CursorError>)
    ensures
        final(slice)@.len() == old(slice)@.len(),
        ({
            let len = old(slice)@.len() as int;
            let amt = fit_amount(*old(pos_mut) as int, len, buf@.len() as int);
            if buf@.len() > 0 && amt == 0 {
                &&& r == Err::<usize, CursorError>(CursorError::WriteZero)
                &&& final(slice)@ == old(slice)@
                &&& *final(pos_mut) == *old(pos_mut)
            } else {
                &&& r == Ok::<usize, CursorError>(amt as usize)
                &&& final(slice)@ == buffer_after_write(old(slice)@, *old(pos_mut) as int, buf@)
                &&& *final(pos_mut) == *old(pos_mut) + amt
            }
        }),
{
    let len = slice.len();
    let pos = if *pos_mut < len { *pos_mut } else { len };
    let amt = write_into_slice(slice, pos, buf)?;
    *pos_mut = *pos_mut + amt;
    Ok(amt)
}

/// The outcome of seeking to `base + off`: inside `0..=u64::MAX` the new
/// position is that target (cast to `usize`) and is returned; outside it the
/// seek fails with `InvalidInput` and the position stays.
pub open spec fn seek_outcome(base: int, off: int, old_pos: usize, new_pos: usize, r: Result<u64, CursorError>) -> bool {
    let target = base + off;
    if 0 <= target <= u64::MAX {
        &&& new_pos == target as usize
        &&& r == Ok::<u64, CursorError>(new_pos as u64)
    } else {
        &&& new_pos == old_pos
        &&& r == Err::<u64, CursorError>(CursorError::InvalidInput)
    }
}

/// Once a write has not fit, the cursor is full: a later write places
/// nothing and leaves the position where it is.
pub proof fn lemma_full_after_overflow(buf: Seq<u8>, pos: int, a: Seq<u8>, b: Seq<u8>)
    requires
        pos >= 0,
        !write_fits(buf.len() as int, pos, a.len() as int),
    ensures
        ({
            let len = buf.len() as int;
            let buf1 = buffer_after_write(buf, pos, a);
            let pos1 = pos_after_write(len, pos, a.len() as int);
            &&& fit_amount(pos1, len, b.len() as int) == 0
            &&& buffer_after_write(buf1, pos1, b) == buf1
            &&& pos_after_write(len, pos1, b.len() as int) == pos1
        }),
{
    let len = buf.len() as int;
    let buf1 = buffer_after_write(buf, pos, a);
    let pos1 = pos_after_write(len, pos, a.len() as int);
    assert(buf1.len() == len);
    assert(b.take(0) =~= Seq::<u8>::empty());
    assert(buffer_after_write(buf1, pos1, b) =~= buf1);
}

/// Writing `a` and then `b` leaves the buffer and the position as writing
/// `a + b` at once does, and both writes fit exactly when the joint one fits.
pub proof fn lemma_write_concat(buf: Seq<u8>, pos: int, a: Seq<u8>, b: Seq<u8>)
    requires
        pos >= 0,
    ensures
        ({
            let len = buf.len() as int;
            let buf1 = buffer_after_write(buf, pos, a);
            let pos1 = pos_after_write(len, pos, a.len() as int);
            &&& buf1.len() == buf.len()
            &&& buffer_after_write(buf1, pos1, b) == buffer_after_write(buf, pos, a + b)
            &&& pos_after_write(len, pos1, b.len() as int) == pos_after_write(len, pos, (a + b).len() as int)
            &&& (write_fits(len, pos, a.len() as int) && write_fits(len, pos1, b.len() as int))
                == write_fits(len, pos, (a + b).len() as int)
        }),
{
    let len = buf.len() as int;
    let p = clamp_pos(pos, len);
    let fa = fit_amount(pos, len, a.len() as int);
    let buf1 = buffer_after_write(buf, pos, a);
    let pos1 = pos_after_write(len, pos, a.len() as int);
    let p1 = clamp_pos(pos1, len);
    let fb = fit_amount(pos1, len, b.len() as int);
    let fab = fit_amount(pos, len, (a + b).len() as int);
    assert(buf1.len() == buf.len());
    assert(p1 == p + fa);
    assert(fab == fa + fb);
    let lhs = buffer_after_write(buf1, pos1, b);
    let rhs = buffer_after_write(buf, pos, a + b);
    assert((a + b).take(fab) =~= a.take(fa) + b.take(fb));
    assert(lhs =~= rhs);
}

/// What a successful write of `data` leaves in the buffer can be read back:
/// from the position where the write started, the buffer holds `data`, and
/// the position is just past it (so a cursor set back to that position and
/// read from gives `data` first).
pub proof fn lemma_read_back(c0: Cursor<&mut [u8]>, c1: Cursor<&mut [u8]>, data: Seq<u8>)
    requires
        wrote(c0, c1, data, Ok::<(), CursorError>(())),
    ensures
        c1.spec_pos() == c0.spec_pos() + data.len(),
        c1.spec_inner()@.len() == c0.spec_inner()@.len(),
        c1.spec_inner()@.skip(c0.spec_pos() as int).take(data.len() as int) == data,
{
    let buf = c0.spec_inner()@;
    let pos = c0.spec_pos() as int;
    assert(fit_amount(pos, buf.len() as int, data.len() as int) == data.len());
    assert(data.take(data.len() as int) =~= data);
    assert(c1.spec_inner()@.skip(pos).take(data.len() as int) =~= data);
}

/// Two writes in a row do what one write of both runs of bytes does: the
/// cursor ends in the same state, and the result is `Ok` exactly when both
/// results are.
pub proof fn lemma_wrote_then(
    c0: Cursor<&mut [u8]>,
    c1: Cursor<&mut [u8]>,
    c2: Cursor<&mut [u8]>,
    a: Seq<u8>,
    b: Seq<u8>,
    r1: Result<(), CursorError>,
    r2: Result<(), CursorError>,
)
    requires
        wrote(c0, c1, a, r1),
        wrote(c1, c2, b, r2),
    ensures
        wrote(c0, c2, a + b, if r1 is Ok && r2 is Ok { Ok::<(), CursorError>(()) } else { Err::<(), CursorError>(CursorError::WriteZero) }),
{
    lemma_write_concat(c0.spec_inner()@, c0.spec_pos() as int, a, b);
}

/// A write that does not fit leaves the cursor as writing more after it would:
/// stopping at the first failed write is the same as going on.
pub proof fn lemma_wrote_stop(c0: Cursor<&mut [u8]>, c1: Cursor<&mut [u8]>, a: Seq<u8>, b: Seq<u8>, r1: Result<(), CursorError>)
    requires
        wrote(c0, c1, a, r1),
        r1 is Err,
    ensures
        wrote(c0, c1, a + b, r1),
{
    lemma_write_concat(c0.spec_inner()@, c0.spec_pos() as int, a, b);
    lemma_full_after_overflow(c0.spec_inner()@, c0.spec_pos() as int, a, b);
}

/// Writing nothing leaves the cursor as it is and succeeds.
pub proof fn lemma_wrote_nothing(c0: Cursor<&mut [u8]>)
    ensures
        wrote(c0, c0, Seq::<u8>::empty(), Ok::<(), CursorError>(())),
{
    assert(buffer_after_write(c0.spec_inner()@, c0.spec_pos() as int, Seq::<u8>::empty()) =~= c0.spec_inner()@);
}

impl<'a> Cursor<&'a mut [u8]> {
    /// Returns the part of the buffer from the current position on (empty
    /// when the position is at or past the end).
    pub fn remaining_slice(&self) -> (r: &[u8])
        ensures
            r@ == self.spec_inner()@.skip(clamp_pos(self.spec_pos() as int, self.spec_inner()@.len() as int)),
    {
        let len = self.inner.len();
        let pos = if self.pos < len { self.pos } else { len };
        let r = slice_subrange(&*self.inner, pos, len);
        assert(r@ =~= self.inner@.skip(pos as int));
        r
    }

    /// Returns `true` if there are no more bytes to read from the cursor.
    pub fn is_empty(&self) -> (r: bool)
        ensures
            r == (self.spec_pos() >= self.spec_inner()@.len()),
            r == (self.remaining_slice_spec().len() == 0),
    {
        self.pos >= self.inner.len()
    }

    /// The bytes that `remaining_slice` returns: those of the buffer from the
    /// position on (none when the position is at or past the end).
    pub open spec fn remaining_slice_spec(&self) -> Seq<u8> {
        self.spec_inner()@.skip(clamp_pos(self.spec_pos() as int, self.spec_inner()@.len() as int))
    }

    /// Writes as much of `buf` as fits from the current position, and advances
    /// the position by the number of bytes written. Fails with `WriteZero`,
    /// writing nothing, when `buf` is not empty and no byte fits.
    pub fn write(&mut self, buf: &[u8]) -> (r: Result<usize, CursorError>)
        ensures
            final(self).spec_inner()@.len() == old(self).spec_inner()@.len(),
            ({
                let len = old(self).spec_inner()@.len() as int;
                let amt = fit_amount(old(self).spec_pos() as int, len, buf@.len() as int);
                if buf@.len() > 0 && amt == 0 {
                    &&& r == Err::<usize, CursorError>(CursorError::WriteZero)
                    &&& final(self).spec_inner()@ == old(self).spec_inner()@
                    &&& final(self).spec_pos() == old(self).spec_pos()
                } else {
                    &&& r == Ok::<usize, CursorError>(amt as usize)
                    &&& final(self).spec_inner()@ == buffer_after_write(old(self).spec_inner()@, old(self).spec_pos() as int, buf@)
                    &&& final(self).spec_pos() == old(self).spec_pos() + amt
                }
            }),
    {
        slice_write(&mut self.pos, self.inner, buf)
    }

    /// Writes all of `buf`, calling `write` until nothing is left, as
    /// `embedded_io`'s `Write::write_all` does. What fits is written even when
    /// the whole does not; then the result is `WriteZero`.
    pub fn write_all(&mut self, buf: &[u8]) -> (r: Result<(), CursorError>)
        ensures
            wrote(*old(self), *final(self), buf@, r),
    {
        let ghost orig = self.inner@;
        let ghost orig_pos = self.pos as int;
        let ghost len = orig.len() as int;
        let mut rest: &[u8] = buf;
        let mut done: usize = 0;
        proof {
            assert(buf@.take(0) =~= Seq::<u8>::empty());
            assert(buffer_after_write(orig, orig_pos, Seq::<u8>::empty()) =~= orig);
            assert(buf@.skip(0) =~= buf@);
        }
        while rest.len() > 0
            invariant
                done <= buf@.len(),
                orig_pos >= 0,
                orig == old(self).inner@,
                orig_pos == old(self).pos,
                len == orig.len(),
                rest@ == buf@.skip(done as int),
                self.inner@.len() == len,
                fit_amount(orig_pos, len, done as int) == done,
                self.inner@ == buffer_after_write(orig, orig_pos, buf@.take(done as int)),
                self.pos == orig_pos + done,
            decreases rest@.len(),
        {
            let ghost before = self.inner@;
            let r = self.write(rest);
            proof {
                lemma_write_concat(orig, orig_pos, buf@.take(done as int), rest@);
                assert(buf@.take(done as int) + rest@ =~= buf@);
            }
            match r {
                Ok(n) => {
                    proof {
                        lemma_write_concat(orig, orig_pos, buf@.take(done as int), rest@.take(n as int));
                        assert(buf@.take(done as int) + rest@.take(n as int) =~= buf@.take(done + n));
                    }
                    done = done + n;
                    rest = slice_subrange(rest, n, rest.len());
                    assert(rest@ =~= buf@.skip(done as int));
                },
                Err(e) => {
                    assert(rest@.take(0) =~= Seq::<u8>::empty());
                    assert(buffer_after_write(self.inner@, self.pos as int, rest@) =~= self.inner@);
                    return Err(e);
                },
            }
        }
        proof {
            assert(buf@.take(done as int) =~= buf@);
        }
        Ok(())
    }

    /// Writes one byte (as `byteorder`'s `write_u8` does, through `write_all`).
    pub fn write_u8(&mut self, n: u8) -> (r: Result<(), CursorError>)
        ensures
            wrote(*old(self), *final(self), seq![n], r),
    {
        let b = [n];
        assert(b@ =~= seq![n]);
        self.write_all(&b)
    }

    /// Writes a `u16` as two little-endian bytes, through `write_all`.
    pub fn write_u16_le(&mut self, n: u16) -> (r: Result<(), CursorError>)
        ensures
            wrote(*old(self), *final(self), le2(n as int), r),
    {
        let b = le_u16(n);
        self.write_all(&b)
    }

    /// Writes a `u32` as four little-endian bytes, through `write_all`.
    pub fn write_u32_le(&mut self, n: u32) -> (r: Result<(), CursorError>)
        ensures
            wrote(*old(self), *final(self), le4(n as int), r),
    {
        let b = le_u32(n);
        self.write_all(&b)
    }

    /// Copies as many bytes as fit in `buf` from the current position, and
    /// advances the position by that number, which it returns.
    pub fn read(&mut self, buf: &mut [u8]) -> (r: Result<usize, CursorError>)
        ensures
            ({
                let rem = old(self).remaining_slice_spec();
                let n = if old(buf)@.len() < rem.len() { old(buf)@.len() as int } else { rem.len() as int };
                &&& r == Ok::<usize, CursorError>(n as usize)
                &&& final(buf)@ == rem.take(n) + old(buf)@.skip(n)
                &&& final(self).spec_pos() == old(self).spec_pos() + n
                &&& final(self).spec_inner() == old(self).spec_inner()
            }),
    {
        let remaining = self.remaining_slice();
        let n = if buf.len() < remaining.len() { buf.len() } else { remaining.len() };
        assert(remaining@.len() == self.inner@.len() - clamp_pos(self.pos as int, self.inner@.len() as int));
        assert(self.inner@.len() == self.inner.len());
        let new_pos = self.pos + n;
        let mut i: usize = 0;
        while i < n
            invariant
                i <= n,
                n <= buf@.len(),
                n <= remaining@.len(),
                buf@.len() == old(buf)@.len(),
                buf@ == remaining@.take(i as int) + old(buf)@.skip(i as int),
            decreases n - i,
        {
            buf[i] = remaining[i];
            i = i + 1;
            assert(buf@ =~= remaining@.take(i as int) + old(buf)@.skip(i as int));
        }
        self.pos = new_pos;
        Ok(n)
    }

    /// Returns the bytes from the current position on; reading never fails.
    pub fn fill_buf(&self) -> (r: Result<&[u8], CursorError>)
        ensures
            r matches Ok(b) && b@ == self.remaining_slice_spec(),
    {
        Ok(self.remaining_slice())
    }

    /// Marks `amt` bytes as read by advancing the position.
    pub fn consume(&mut self, amt: usize)
        requires
            old(self).spec_pos() + amt <= usize::MAX,
        ensures
            final(self).spec_pos() == old(self).spec_pos() + amt,
            final(self).spec_inner() == old(self).spec_inner(),
    {
        self.pos = self.pos + amt;
    }

    /// Moves the position. From the start, the position is the offset itself
    /// (cast to `usize`) and the offset is returned; from the end or from the
    /// current position, the offset is added to the buffer's length or to the
    /// position, and the sum, when it lies in `0..=u64::MAX`, becomes the
    /// position and is returned; otherwise the result is `InvalidInput` and
    /// the position stays.
    pub fn seek(&mut self, style: SeekFrom) -> (r: Result<u64, CursorError>)
        ensures
            final(self).spec_inner() == old(self).spec_inner(),
            match style {
                SeekFrom::Start(n) => {
                    &&& r == Ok::<u64, CursorError>(n)
                    &&& final(self).spec_pos() == n as usize
                },
                SeekFrom::End(off) => seek_outcome(old(self).spec_inner()@.len() as int, off as int, old(self).spec_pos(), final(self).spec_pos(), r),
                SeekFrom::Current(off) => seek_outcome(old(self).spec_pos() as int, off as int, old(self).spec_pos(), final(self).spec_pos(), r),
            },
    {
        let (base_pos, offset) = match style {
            SeekFrom::Start(n) => {
                self.pos = n as usize;
                return Ok(n);
            },
            SeekFrom::End(n) => (self.inner.len() as u64, n),
            SeekFrom::Current(n) => (self.pos as u64, n),
        };
        match base_pos.checked_add_signed(offset) {
            Some(n) => {
                self.pos = n as usize;
                Ok(self.pos as u64)
            },
            None => Err(CursorError::InvalidInput),
        }
    }

    /// Flushing an in-memory cursor does nothing.
    pub fn flush(&mut self) -> (r: Result<(), CursorError>)
        ensures
            r is Ok,
            *final(self) == *old(self),
    {
        Ok(())
    }
}

} // verus!
