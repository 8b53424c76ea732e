//! Bounded, seekable byte reader over an in-memory buffer.
//!
//! Every read is bounds-checked against the buffer's total length and
//! fails with `Truncated` rather than reading past the end. Multi-byte
//! integers are read in the byte order selected for the whole reader,
//! chosen per format after inspecting the header's byte-order marker.

use vstd::prelude::*;

verus! {

/// Failure of a single reader operation.
#[derive(Clone, Copy, PartialEq, Eq, Structural, Debug)]
pub enum ReadError {
    /// A read would run past the end of the buffer.
    Truncated,
    /// A seek target lies past the end of the buffer.
    OutOfRange,
}

/// The 16-bit unsigned integer stored at byte offset `i` of `b`,
/// big-endian when `be`, little-endian otherwise.
pub open spec fn u16_at(b: Seq<u8>, i: int, be: bool) -> u16
    recommends
        0 <= i,
        i + 2 <= b.len(),
{
    if be {
        (b[i] as int * 0x100 + b[i + 1] as int) as u16
    } else {
        (b[i + 1] as int * 0x100 + b[i] as int) as u16
    }
}

/// The 32-bit unsigned integer stored at byte offset `i` of `b`,
/// big-endian when `be`, little-endian otherwise.
pub open spec fn u32_at(b: Seq<u8>, i: int, be: bool) -> u32
    recommends
        0 <= i,
        i + 4 <= b.len(),
{
    if be {
        (b[i] as int * 0x1000000 + b[i + 1] as int * 0x10000 + b[i + 2] as int * 0x100 + b[i
            + 3] as int) as u32
    } else {
        (b[i + 3] as int * 0x1000000 + b[i + 2] as int * 0x10000 + b[i + 1] as int * 0x100
            + b[i] as int) as u32
    }
}

/// The 32-bit signed integer stored at byte offset `i` of `b`:
/// the unsigned value reinterpreted in two's complement.
pub open spec fn i32_at(b: Seq<u8>, i: int, be: bool) -> i32
    recommends
        0 <= i,
        i + 4 <= b.len(),
{
    u32_at(b, i, be) as i32
}

/// Buffered random-access reader: a borrowed byte buffer, a cursor, and
/// the byte order for multi-byte reads.
pub struct Reader<'a> {
    pub data: &'a [u8],
    pub pos: usize,
    pub big_endian: bool,
}

impl<'a> Reader<'a> {
    /// The whole underlying buffer.
    pub open spec fn bytes(&self) -> Seq<u8> {
        self.data@
    }

    /// The cursor: the offset of the next byte to be read.
    pub open spec fn spec_pos(&self) -> nat {
        self.pos as nat
    }

    /// Whether multi-byte reads are big-endian.
    pub open spec fn spec_big_endian(&self) -> bool {
        self.big_endian
    }

    /// The cursor never lies past the end of the buffer.
    pub open spec fn wf(&self) -> bool {
        self.pos <= self.data@.len()
    }

    /// A reader positioned at the start of `data`.
    pub fn new(data: &'a [u8], big_endian: bool) -> (r: Reader<'a>)
        ensures
            r.wf(),
            r.bytes() == data@,
            r.spec_pos() == 0,
            r.spec_big_endian() == big_endian,
    {
        Reader { data, pos: 0, big_endian }
    }

    /// Total length of the underlying buffer.
    pub fn len(&self) -> (r: usize)
        ensures
            r == self.bytes().len(),
    {
        self.data.len()
    }

    /// The current cursor offset.
    pub fn tell(&self) -> (r: usize)
        ensures
            r == self.spec_pos(),
    {
        self.pos
    }

    /// Move the cursor to an absolute offset; offsets past the end of
    /// the buffer are rejected and leave the cursor unchanged.
    pub fn seek(&mut self, offset: usize) -> (r: Result<(), ReadError>)
        requires
            old(self).wf(),
        ensures
            final(self).wf(),
            final(self).bytes() == old(self).bytes(),
            final(self).spec_big_endian() == old(self).spec_big_endian(),
            offset <= old(self).bytes().len() ==> r == Ok::<(), ReadError>(())
                && final(self).spec_pos() == offset,
            offset > old(self).bytes().len() ==> r == Err::<(), ReadError>(ReadError::OutOfRange)
                && final(self).spec_pos() == old(self).spec_pos(),
    {
        if offset <= self.data.len() {
            self.pos = offset;
            Ok(())
        } else {
            Err(ReadError::OutOfRange)
        }
    }

    /// Read one byte and advance the cursor; fails with `Truncated` at
    /// the end of the buffer, leaving the cursor unchanged.
    pub fn read_u8(&mut self) -> (r: Result<u8, ReadError>)
        requires
            old(self).wf(),
        ensures
            final(self).wf(),
            final(self).bytes() == old(self).bytes(),
            final(self).spec_big_endian() == old(self).spec_big_endian(),
            old(self).spec_pos() + 1 <= old(self).bytes().len() ==> r == Ok::<u8, ReadError>(
                old(self).bytes()[old(self).spec_pos() as int],
            ) && final(self).spec_pos() == old(self).spec_pos() + 1,
            old(self).spec_pos() + 1 > old(self).bytes().len() ==> r == Err::<u8, ReadError>(
                ReadError::Truncated,
            ) && final(self).spec_pos() == old(self).spec_pos(),
    {
        if self.pos < self.data.len() {
            let b = self.data[self.pos];
            self.pos = self.pos + 1;
            Ok(b)
        } else {
            Err(ReadError::Truncated)
        }
    }

    /// Read a 16-bit integer in the reader's byte order and advance the
    /// cursor by two; fails with `Truncated` if fewer than two bytes
    /// remain, leaving the cursor unchanged.
    pub fn read_u16(&mut self) -> (r: Result<u16, ReadError>)
        requires
            old(self).wf(),
        ensures
            final(self).wf(),
            final(self).bytes() == old(self).bytes(),
            final(self).spec_big_endian() == old(self).spec_big_endian(),
            old(self).spec_pos() + 2 <= old(self).bytes().len() ==> r == Ok::<u16, ReadError>(
                u16_at(old(self).bytes(), old(self).spec_pos() as int, old(self).spec_big_endian()),
            ) && final(self).spec_pos() == old(self).spec_pos() + 2,
            old(self).spec_pos() + 2 > old(self).bytes().len() ==> r == Err::<u16, ReadError>(
                ReadError::Truncated,
            ) && final(self).spec_pos() == old(self).spec_pos(),
    {
        if 2 <= self.data.len() && self.pos <= self.data.len() - 2 {
            let b0 = self.data[self.pos];
            let b1 = self.data[self.pos + 1];
            self.pos = self.pos + 2;
            if self.big_endian {
                Ok(b0 as u16 * 0x100 + b1 as u16)
            } else {
                Ok(b1 as u16 * 0x100 + b0 as u16)
            }
        } else {
            Err(ReadError::Truncated)
        }
    }

    /// Read a 32-bit unsigned integer in the reader's byte order and
    /// advance the cursor by four; fails with `Truncated` if fewer than
    /// four bytes remain, leaving the cursor unchanged.
    pub fn read_u32(&mut self) -> (r: Result<u32, ReadError>)
        requires
            old(self).wf(),
        ensures
            final(self).wf(),
            final(self).bytes() == old(self).bytes(),
            final(self).spec_big_endian() == old(self).spec_big_endian(),
            old(self).spec_pos() + 4 <= old(self).bytes().len() ==> r == Ok::<u32, ReadError>(
                u32_at(old(self).bytes(), old(self).spec_pos() as int, old(self).spec_big_endian()),
            ) && final(self).spec_pos() == old(self).spec_pos() + 4,
            old(self).spec_pos() + 4 > old(self).bytes().len() ==> r == Err::<u32, ReadError>(
                ReadError::Truncated,
            ) && final(self).spec_pos() == old(self).spec_pos(),
    {
        if 4 <= self.data.len() && self.pos <= self.data.len() - 4 {
            let b0 = self.data[self.pos] as u32;
            let b1 = self.data[self.pos + 1] as u32;
            let b2 = self.data[self.pos + 2] as u32;
            let b3 = self.data[self.pos + 3] as u32;
            self.pos = self.pos + 4;
            if self.big_endian {
                Ok(b0 * 0x1000000 + b1 * 0x10000 + b2 * 0x100 + b3)
            } else {
                Ok(b3 * 0x1000000 + b2 * 0x10000 + b1 * 0x100 + b0)
            }
        } else {
            Err(ReadError::Truncated)
        }
    }

    /// Read a 32-bit signed integer (two's complement) in the reader's
    /// byte order; same cursor and truncation behaviour as `read_u32`.
    pub fn read_i32(&mut self) -> (r: Result<i32, ReadError>)
        requires
            old(self).wf(),
        ensures
            final(self).wf(),
            final(self).bytes() == old(self).bytes(),
            final(self).spec_big_endian() == old(self).spec_big_endian(),
            old(self).spec_pos() + 4 <= old(self).bytes().len() ==> r == Ok::<i32, ReadError>(
                i32_at(old(self).bytes(), old(self).spec_pos() as int, old(self).spec_big_endian()),
            ) && final(self).spec_pos() == old(self).spec_pos() + 4,
            old(self).spec_pos() + 4 > old(self).bytes().len() ==> r == Err::<i32, ReadError>(
                ReadError::Truncated,
            ) && final(self).spec_pos() == old(self).spec_pos(),
    {
        match self.read_u32() {
            Ok(v) => Ok(v as i32),
            Err(e) => Err(e),
        }
    }

    /// Copy exactly `n` bytes from the cursor into a fresh buffer and
    /// advance the cursor by `n`; fails with `Truncated` if fewer than
    /// `n` bytes remain, leaving the cursor unchanged. Allocates no more
    /// than the `n` bytes requested.
    pub fn read_exact(&mut self, n: usize) -> (r: Result<Vec<u8>, ReadError>)
        requires
            old(self).wf(),
        ensures
            final(self).wf(),
            final(self).bytes() == old(self).bytes(),
            final(self).spec_big_endian() == old(self).spec_big_endian(),
            old(self).spec_pos() + n <= old(self).bytes().len() ==> (r matches Ok(v)
                && v@ == old(self).bytes().subrange(
                    old(self).spec_pos() as int,
                    old(self).spec_pos() + n as int,
                )
                && final(self).spec_pos() == old(self).spec_pos() + n),
            old(self).spec_pos() + n > old(self).bytes().len() ==> (r matches Err(e)
                && e == ReadError::Truncated
                && final(self).spec_pos() == old(self).spec_pos()),
    {
        if n <= self.data.len() && self.pos <= self.data.len() - n {
            let mut out: Vec<u8> = Vec::with_capacity(n);
            let mut i: usize = 0;
            while i < n
                invariant
                    i <= n,
                    self.pos + n <= self.data@.len(),
                    self.pos + n <= usize::MAX,
                    out@ == self.data@.subrange(self.pos as int, self.pos + i as int),
                decreases n - i,
            {
                out.push(self.data[self.pos + i]);
                proof {
                    assert(out@ == self.data@.subrange(self.pos as int, self.pos + i + 1 as int));
                }
                i = i + 1;
            }
            self.pos = self.pos + n;
            Ok(out)
        } else {
            Err(ReadError::Truncated)
        }
    }
}

} // verus!
