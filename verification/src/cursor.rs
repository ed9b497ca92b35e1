//! Bounds-checked cursor over an in-memory byte buffer.
//!
//! A [`Cursor`] is a pair of indices `offset <= end` into a buffer: `offset`
//! is the absolute position of the next byte to read and `end` bounds the
//! window the current decoder is allowed to look at. All structural decoders
//! route every read through the checked operations here; none of them indexes
//! the buffer directly.

use vstd::prelude::*;

verus! {

/// Little-endian value of the two bytes of `b` starting at `i`.
pub open spec fn le16_at(b: Seq<u8>, i: int) -> int {
    b[i] + 0x100 * b[i + 1]
}

/// Little-endian value of the four bytes of `b` starting at `i`.
pub open spec fn le32_at(b: Seq<u8>, i: int) -> int {
    b[i] + 0x100 * b[i + 1] + 0x1_0000 * b[i + 2] + 0x100_0000 * b[i + 3]
}

/// Little-endian value of the eight bytes of `b` starting at `i`.
pub open spec fn le64_at(b: Seq<u8>, i: int) -> int {
    le32_at(b, i) + 0x1_0000_0000 * le32_at(b, i + 4)
}

/// A window into a byte buffer: absolute read position plus an exclusive
/// upper bound. The buffer itself is passed to each operation separately so
/// that decoded structures never borrow from it.
#[derive(Clone, Copy, Debug, PartialEq, Eq, Structural)]
pub struct Cursor {
    pub offset: usize,
    pub end: usize,
}

impl Cursor {
    /// The cursor is a valid window into a buffer of the given contents.
    pub open spec fn wf(self, b: Seq<u8>) -> bool {
        self.offset <= self.end <= b.len()
    }

    /// Number of bytes left in the window.
    pub open spec fn remaining(self) -> int {
        self.end - self.offset
    }

    /// The bytes of the window still ahead of the cursor.
    pub open spec fn window(self, b: Seq<u8>) -> Seq<u8> {
        b.subrange(self.offset as int, self.end as int)
    }

    /// A cursor covering a whole buffer.
    pub fn new(buf: &[u8]) -> (r: Cursor)
        ensures
            r.wf(buf@),
            r.offset == 0,
            r.end == buf@.len(),
    {
        Cursor { offset: 0, end: buf.len() }
    }

    /// Splits off the next `n` bytes: returns the cursor advanced past them
    /// together with a cursor that covers exactly those `n` bytes, or `None`
    /// when fewer than `n` bytes remain. Pure index arithmetic; never reads
    /// the buffer.
    pub fn take(self, n: usize) -> (r: Option<(Cursor, Cursor)>)
        requires
            self.offset <= self.end,
        ensures
            r.is_some() == (self.remaining() >= n),
            r matches Some(p) ==> {
                &&& p.0 == (Cursor { offset: (self.offset + n) as usize, end: self.end })
                &&& p.1 == (Cursor { offset: self.offset, end: (self.offset + n) as usize })
            },
    {
        if n <= self.end - self.offset {
            let mid = self.offset + n;
            Some((Cursor { offset: mid, end: self.end }, Cursor { offset: self.offset, end: mid }))
        } else {
            None
        }
    }

    /// Reads one byte and advances.
    pub fn read_u8(self, buf: &[u8]) -> (r: Option<(Cursor, u8)>)
        requires
            self.wf(buf@),
        ensures
            r.is_some() == (self.remaining() >= 1),
            r matches Some(p) ==> {
                &&& p.0 == (Cursor { offset: (self.offset + 1) as usize, end: self.end })
                &&& p.1 == buf@[self.offset as int]
            },
    {
        if self.offset < self.end {
            Some((Cursor { offset: self.offset + 1, end: self.end }, buf[self.offset]))
        } else {
            None
        }
    }

    /// Reads a little-endian 16-bit integer and advances.
    pub fn read_u16_le(self, buf: &[u8]) -> (r: Option<(Cursor, u16)>)
        requires
            self.wf(buf@),
        ensures
            r.is_some() == (self.remaining() >= 2),
            r matches Some(p) ==> {
                &&& p.0 == (Cursor { offset: (self.offset + 2) as usize, end: self.end })
                &&& p.1 as int == le16_at(buf@, self.offset as int)
            },
    {
        if 2 <= self.end - self.offset {
            let b0 = buf[self.offset] as u16;
            let b1 = buf[self.offset + 1] as u16;
            Some((Cursor { offset: self.offset + 2, end: self.end }, b0 + 0x100 * b1))
        } else {
            None
        }
    }

    /// Reads a little-endian 32-bit integer and advances.
    pub fn read_u32_le(self, buf: &[u8]) -> (r: Option<(Cursor, u32)>)
        requires
            self.wf(buf@),
        ensures
            r.is_some() == (self.remaining() >= 4),
            r matches Some(p) ==> {
                &&& p.0 == (Cursor { offset: (self.offset + 4) as usize, end: self.end })
                &&& p.1 as int == le32_at(buf@, self.offset as int)
            },
    {
        if 4 <= self.end - self.offset {
            let b0 = buf[self.offset] as u32;
            let b1 = buf[self.offset + 1] as u32;
            let b2 = buf[self.offset + 2] as u32;
            let b3 = buf[self.offset + 3] as u32;
            Some((
                Cursor { offset: self.offset + 4, end: self.end },
                b0 + 0x100 * b1 + 0x1_0000 * b2 + 0x100_0000 * b3,
            ))
        } else {
            None
        }
    }

    /// Reads a little-endian 64-bit integer and advances.
    pub fn read_u64_le(self, buf: &[u8]) -> (r: Option<(Cursor, u64)>)
        requires
            self.wf(buf@),
        ensures
            r.is_some() == (self.remaining() >= 8),
            r matches Some(p) ==> {
                &&& p.0 == (Cursor { offset: (self.offset + 8) as usize, end: self.end })
                &&& p.1 as int == le64_at(buf@, self.offset as int)
            },
    {
        if 8 <= self.end - self.offset {
            match self.read_u32_le(buf) {
                Some((mid, low)) => match mid.read_u32_le(buf) {
                    Some((after, high)) => Some((after, low as u64 + 0x1_0000_0000u64 * high as u64)),
                    None => None,
                },
                None => None,
            }
        } else {
            None
        }
    }
}

/// Compares the `expected.len()` bytes of `buf` starting at `i` with
/// `expected`.
pub fn bytes_eq_at(buf: &[u8], i: usize, expected: &[u8]) -> (r: bool)
    requires
        i + expected@.len() <= buf@.len(),
    ensures
        r == (buf@.subrange(i as int, i + expected@.len()) =~= expected@),
{
    let n = expected.len();
    let blen = buf.len();
    let mut k: usize = 0;
    while k < n
        invariant
            i + n <= buf@.len(),
            blen == buf@.len(),
            n == expected@.len(),
            0 <= k <= n,
            forall|j: int| 0 <= j < k ==> buf@[i + j] == expected@[j],
        decreases n - k,
    {
        if buf[i + k] != expected[k] {
            proof {
                assert(buf@.subrange(i as int, i + expected@.len())[k as int] != expected@[k as int]);
            }
            return false;
        }
        k = k + 1;
    }
    proof {
        assert(buf@.subrange(i as int, i + expected@.len()) =~= expected@);
    }
    true
}

/// Compares two byte strings for equality.
pub fn bytes_eq(a: &[u8], b: &[u8]) -> (r: bool)
    ensures
        r == (a@ == b@),
{
    if a.len() != b.len() {
        proof {
            assert(a@.len() != b@.len());
        }
        false
    } else {
        proof {
            assert(a@.subrange(0, a@.len() as int) =~= a@);
        }
        bytes_eq_at(a, 0, b)
    }
}

/// Copies the bytes of `buf` between `i` and `j` into a fresh vector.
pub fn copy_range(buf: &[u8], i: usize, j: usize) -> (r: Vec<u8>)
    requires
        i <= j <= buf@.len(),
    ensures
        r@ =~= buf@.subrange(i as int, j as int),
{
    let mut v: Vec<u8> = Vec::new();
    let mut k: usize = i;
    while k < j
        invariant
            i <= k <= j <= buf@.len(),
            v@.len() == k - i,
            forall|m: int| 0 <= m < v@.len() ==> v@[m] == buf@[i + m],
        decreases j - k,
    {
        v.push(buf[k]);
        k = k + 1;
    }
    v
}

/// Relies on `core::str::from_utf8`, which succeeds exactly when its input
/// is valid UTF-8 (in the sense of vstd's UTF-8 model).
#[verifier::external_body]
pub fn utf8_is_valid(v: &[u8]) -> (r: bool)
    ensures
        r == vstd::utf8::valid_utf8(v@),
{
    core::str::from_utf8(v).is_ok()
}

} // verus!
