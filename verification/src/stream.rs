//! A byte-addressable, seekable input stream over an in-memory byte buffer,
//! together with the little-endian integer views the package format uses.
//!
//! The decoder needs only "read the next N bytes" and "seek to an absolute
//! offset", so the stream is modelled as a byte buffer plus a read cursor;
//! the caller supplies the buffer (for example, the contents of a package
//! file read from disk).

use vstd::prelude::*;

verus! {

/// The value of four bytes interpreted as a little-endian 32-bit unsigned
/// integer: `b0` is the least significant byte.
pub open spec fn le32(b0: u8, b1: u8, b2: u8, b3: u8) -> u32 {
    (b0 + b1 * 0x100 + b2 * 0x1_0000 + b3 * 0x100_0000) as u32
}

/// The little-endian 32-bit unsigned integer stored at byte offset `i` of `d`.
/// Meaningful only when `i + 4 <= d.len()`.
pub open spec fn u32_at(d: Seq<u8>, i: int) -> u32 {
    le32(d[i], d[i + 1], d[i + 2], d[i + 3])
}

/// The value of eight bytes interpreted as a little-endian 64-bit unsigned
/// integer: `b0` is the least significant byte.
pub open spec fn le64(b0: u8, b1: u8, b2: u8, b3: u8, b4: u8, b5: u8, b6: u8, b7: u8) -> u64 {
    (b0 + b1 * 0x100 + b2 * 0x1_0000 + b3 * 0x100_0000 + b4 * 0x1_0000_0000
        + b5 * 0x100_0000_0000 + b6 * 0x1_0000_0000_0000 + b7 * 0x100_0000_0000_0000) as u64
}

/// The little-endian 64-bit unsigned integer stored at byte offset `i` of `d`.
/// Meaningful only when `i + 8 <= d.len()`.
pub open spec fn u64_at(d: Seq<u8>, i: int) -> u64 {
    le64(d[i], d[i + 1], d[i + 2], d[i + 3], d[i + 4], d[i + 5], d[i + 6], d[i + 7])
}

/// A seekable read cursor over an in-memory byte buffer.
///
/// Reads deliver bytes starting at the cursor and advance it; a failed read
/// or seek leaves the stream unchanged. The buffer itself is never modified.
pub struct PackageStream {
    data: Vec<u8>,
    pos: usize,
}

impl PackageStream {
    /// The bytes the stream reads from.
    pub closed spec fn bytes(&self) -> Seq<u8> {
        self.data@
    }

    /// The current read position, counted from the start of the buffer.
    pub closed spec fn pos(&self) -> int {
        self.pos as int
    }

    /// A stream always points at or past the start and at or before the end
    /// of its buffer.
    pub closed spec fn wf(&self) -> bool {
        self.pos <= self.data.len()
    }

    /// Open a stream over `data`, positioned at offset 0.
    pub fn new(data: Vec<u8>) -> (s: PackageStream)
        ensures
            s.bytes() == data@,
            s.pos() == 0,
            s.wf(),
    {
        PackageStream { data, pos: 0 }
    }

    /// The number of bytes between the cursor and the end of the buffer.
    pub fn remaining(&self) -> (n: usize)
        requires
            self.wf(),
        ensures
            n == self.bytes().len() - self.pos(),
    {
        self.data.len() - self.pos
    }

    /// Move the cursor to absolute offset `offset`. Fails, leaving the
    /// stream unchanged, when `offset` lies beyond the end of the buffer.
    pub fn seek(&mut self, offset: u32) -> (ok: bool)
        requires
            old(self).wf(),
        ensures
            final(self).bytes() == old(self).bytes(),
            final(self).wf(),
            ok == (offset as int <= old(self).bytes().len()),
            ok ==> final(self).pos() == offset as int,
            !ok ==> final(self).pos() == old(self).pos(),
    {
        if (offset as usize) <= self.data.len() {
            self.pos = offset as usize;
            true
        } else {
            false
        }
    }

    /// Read the next four bytes as a little-endian 32-bit unsigned integer.
    /// Fails, leaving the stream unchanged, when fewer than four bytes remain.
    pub fn read_u32_le(&mut self) -> (r: Option<u32>)
        requires
            old(self).wf(),
        ensures
            final(self).bytes() == old(self).bytes(),
            final(self).wf(),
            r is Some <==> old(self).pos() + 4 <= old(self).bytes().len(),
            r matches Some(v) ==> v == u32_at(old(self).bytes(), old(self).pos())
                && final(self).pos() == old(self).pos() + 4,
            r is None ==> final(self).pos() == old(self).pos(),
    {
        if self.data.len() - self.pos >= 4 {
            let b0 = self.data[self.pos];
            let b1 = self.data[self.pos + 1];
            let b2 = self.data[self.pos + 2];
            let b3 = self.data[self.pos + 3];
            self.pos = self.pos + 4;
            Some(
                b0 as u32 + b1 as u32 * 0x100 + b2 as u32 * 0x1_0000 + b3 as u32 * 0x100_0000,
            )
        } else {
            None
        }
    }

    /// Read the next eight bytes as a little-endian 64-bit unsigned integer.
    /// Fails, leaving the stream unchanged, when fewer than eight bytes remain.
    pub fn read_u64_le(&mut self) -> (r: Option<u64>)
        requires
            old(self).wf(),
        ensures
            final(self).bytes() == old(self).bytes(),
            final(self).wf(),
            r is Some <==> old(self).pos() + 8 <= old(self).bytes().len(),
            r matches Some(v) ==> v == u64_at(old(self).bytes(), old(self).pos())
                && final(self).pos() == old(self).pos() + 8,
            r is None ==> final(self).pos() == old(self).pos(),
    {
        if self.data.len() - self.pos >= 8 {
            let b0 = self.data[self.pos];
            let b1 = self.data[self.pos + 1];
            let b2 = self.data[self.pos + 2];
            let b3 = self.data[self.pos + 3];
            let b4 = self.data[self.pos + 4];
            let b5 = self.data[self.pos + 5];
            let b6 = self.data[self.pos + 6];
            let b7 = self.data[self.pos + 7];
            self.pos = self.pos + 8;
            Some(
                b0 as u64 + b1 as u64 * 0x100 + b2 as u64 * 0x1_0000 + b3 as u64 * 0x100_0000
                    + b4 as u64 * 0x1_0000_0000 + b5 as u64 * 0x100_0000_0000
                    + b6 as u64 * 0x1_0000_0000_0000 + b7 as u64 * 0x100_0000_0000_0000,
            )
        } else {
            None
        }
    }

    /// Read one raw 8-byte offset record: 4 bytes of padding, which are
    /// discarded undecoded, then a little-endian 32-bit relative offset,
    /// which is returned. Fails, leaving the stream unchanged, when fewer
    /// than eight bytes remain.
    pub fn read_offset_record(&mut self) -> (r: Option<u32>)
        requires
            old(self).wf(),
        ensures
            final(self).bytes() == old(self).bytes(),
            final(self).wf(),
            r is Some <==> old(self).pos() + 8 <= old(self).bytes().len(),
            r matches Some(v) ==> v == u32_at(old(self).bytes(), old(self).pos() + 4)
                && final(self).pos() == old(self).pos() + 8,
            r is None ==> final(self).pos() == old(self).pos(),
    {
        if self.data.len() - self.pos >= 8 {
            let b0 = self.data[self.pos + 4];
            let b1 = self.data[self.pos + 5];
            let b2 = self.data[self.pos + 6];
            let b3 = self.data[self.pos + 7];
            self.pos = self.pos + 8;
            Some(
                b0 as u32 + b1 as u32 * 0x100 + b2 as u32 * 0x1_0000 + b3 as u32 * 0x100_0000,
            )
        } else {
            None
        }
    }

    /// Read the next `count` bytes, unchanged. Fails, leaving the stream
    /// unchanged, when fewer than `count` bytes remain.
    pub fn read_bytes(&mut self, count: usize) -> (r: Option<Vec<u8>>)
        requires
            old(self).wf(),
        ensures
            final(self).bytes() == old(self).bytes(),
            final(self).wf(),
            r is Some <==> old(self).pos() + count <= old(self).bytes().len(),
            r matches Some(v) ==> v@ == old(self).bytes().subrange(
                old(self).pos(),
                old(self).pos() + count,
            ) && final(self).pos() == old(self).pos() + count,
            r is None ==> final(self).pos() == old(self).pos(),
    {
        if self.data.len() - self.pos >= count {
            let mut out: Vec<u8> = Vec::new();
            let mut j: usize = 0;
            while j < count
                invariant
                    self.wf(),
                    j <= count,
                    self.pos + count <= self.data.len(),
                    out@.len() == j,
                    forall|k: int| 0 <= k < j ==> out@[k] == self.data@[self.pos + k],
                decreases count - j,
            {
                out.push(self.data[self.pos + j]);
                j = j + 1;
            }
            self.pos = self.pos + count;
            Some(out)
        } else {
            None
        }
    }
}

} // verus!
