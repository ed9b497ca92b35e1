//! The auxiliary header section that carries the authoritative file size.
//!
//! Header section 0 is a small fixed-layout record: a four-byte tag, a
//! reserved dword, the total file size as a 64-bit integer, and two further
//! reserved dwords. The stored file size must equal the actual length of the
//! input buffer; a disagreement is fatal because this field is the format's
//! intended cross-check.

use vstd::prelude::*;

use crate::cursor::{bytes_eq_at, le32_at, le64_at, Cursor};

verus! {

/// The fixed tag that opens header section 0.
pub open spec fn hs0_tag() -> Seq<u8> {
    seq![0xFEu8, 0x01u8, 0x00u8, 0x00u8]
}

#[derive(Debug, Clone, Copy, PartialEq, Eq, Structural)]
pub struct HeaderSection0 {
    pub unknown_dword_1: u32,
    pub file_size: u64,
    pub unknown_dword_2: u32,
    pub unknown_dword_3: u32,
}

#[derive(Debug, Clone)]
pub enum ParseHeaderSection0Error {
    NotEnoughData,
    InvalidTag { offset: usize, expected: Vec<u8> },
    FileSizeMismatch { expected: u64, parsed: u64 },
}

impl ParseHeaderSection0Error {
    /// A missing or different tag may mean "some other structure starts
    /// here"; a failed file-size cross-check may not be retried.
    pub fn recoverable(&self) -> (r: bool)
        ensures
            r == !(self is FileSizeMismatch),
    {
        match self {
            ParseHeaderSection0Error::NotEnoughData => true,
            ParseHeaderSection0Error::InvalidTag { .. } => true,
            ParseHeaderSection0Error::FileSizeMismatch { .. } => false,
        }
    }
}

/// Exactly when each outcome of [`HeaderSection0::parse`] occurs and what it
/// carries.
pub open spec fn hs0_result_matches(
    b: Seq<u8>,
    cur: Cursor,
    expected_file_size: u64,
    r: Result<(Cursor, HeaderSection0), ParseHeaderSection0Error>,
) -> bool {
    let i = cur.offset as int;
    let rem = cur.remaining();
    let tag_ok = rem >= 4 && b.subrange(i, i + 4) == hs0_tag();
    let size_ok = le64_at(b, i + 8) == expected_file_size;
    match r {
                    Ok(p) => {
                        &&& tag_ok
                        &&& rem >= 24
                        &&& size_ok
                        &&& p.0 == (Cursor { offset: (cur.offset + 24) as usize, end: cur.end })
                        &&& p.1 == (HeaderSection0 {
                            unknown_dword_1: le32_at(b, i + 4) as u32,
                            file_size: le64_at(b, i + 8) as u64,
                            unknown_dword_2: le32_at(b, i + 16) as u32,
                            unknown_dword_3: le32_at(b, i + 20) as u32,
                        })
                    },
                    Err(ParseHeaderSection0Error::NotEnoughData) => {
                        &&& tag_ok
                        &&& (rem < 16 || (size_ok && rem < 24))
                    },
                    Err(ParseHeaderSection0Error::InvalidTag { offset, expected }) => {
                        &&& !tag_ok
                        &&& offset == cur.offset
                        &&& expected@ == hs0_tag()
                    },
                    Err(ParseHeaderSection0Error::FileSizeMismatch { expected, parsed }) => {
                        &&& tag_ok
                        &&& rem >= 16
                        &&& !size_ok
                        &&& expected == expected_file_size
                        &&& parsed as int == le64_at(b, i + 8)
                    },
    }
}

impl HeaderSection0 {
    /// Decodes header section 0 and checks the stored file size against
    /// `expected_file_size`, the actual length of the input buffer.
    ///
    /// The 24-byte layout is: tag, reserved dword, 64-bit file size, two
    /// reserved dwords. The reserved fields are read but not constrained.
    pub fn parse(expected_file_size: u64, buf: &[u8], cur: Cursor) -> (r: Result<
        (Cursor, HeaderSection0),
        ParseHeaderSection0Error,
    >)
        requires
            cur.wf(buf@),
        ensures
            hs0_result_matches(buf@, cur, expected_file_size, r),
    {
        let mut tag: Vec<u8> = Vec::new();
        tag.push(0xFE);
        tag.push(0x01);
        tag.push(0x00);
        tag.push(0x00);
        proof {
            assert(tag@ =~= hs0_tag());
        }
        if cur.end - cur.offset < 4 || !bytes_eq_at(buf, cur.offset, tag.as_slice()) {
            return Err(ParseHeaderSection0Error::InvalidTag { offset: cur.offset, expected: tag });
        }
        let c = Cursor { offset: cur.offset + 4, end: cur.end };
        let (c, unknown_dword_1) = match c.read_u32_le(buf) {
            Some(p) => p,
            None => { return Err(ParseHeaderSection0Error::NotEnoughData) },
        };
        let (c, file_size) = match c.read_u64_le(buf) {
            Some(p) => p,
            None => { return Err(ParseHeaderSection0Error::NotEnoughData) },
        };
        if file_size != expected_file_size {
            return Err(ParseHeaderSection0Error::FileSizeMismatch {
                expected: expected_file_size,
                parsed: file_size,
            });
        }
        let (c, unknown_dword_2) = match c.read_u32_le(buf) {
            Some(p) => p,
            None => { return Err(ParseHeaderSection0Error::NotEnoughData) },
        };
        let (c, unknown_dword_3) = match c.read_u32_le(buf) {
            Some(p) => p,
            None => { return Err(ParseHeaderSection0Error::NotEnoughData) },
        };
        Ok((c, HeaderSection0 { unknown_dword_1, file_size, unknown_dword_2, unknown_dword_3 }))
    }
}

} // verus!
