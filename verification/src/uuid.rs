//! Reading 16-byte identifiers and matching them against expected constants.
//!
//! The container embeds fixed "magic" identifiers at known places; a decoder
//! reads the 16 bytes and compares them with the constant it expects. A
//! mismatch means "this is not the structure I was told to parse", which is
//! fatal beyond a choice point.

use vstd::prelude::*;

use crate::cursor::{bytes_eq_at, copy_range, Cursor};

verus! {

#[derive(Debug, Clone, Copy, PartialEq, Eq, Structural)]
pub enum ParseUuidError {
    NotEnoughData,
}

impl ParseUuidError {
    /// Running out of input while reading an identifier is recoverable.
    pub fn recoverable(&self) -> (r: bool)
        ensures
            r == true,
    {
        true
    }
}

#[derive(Debug, Clone)]
pub enum ParseExactUuidError {
    ParseFailed { source: ParseUuidError },
    WrongUuid { expected: Vec<u8>, parsed: Vec<u8> },
}

impl ParseExactUuidError {
    /// A short read may be retried elsewhere; a well-formed but different
    /// identifier may not.
    pub fn recoverable(&self) -> (r: bool)
        ensures
            r == (self is ParseFailed),
    {
        match self {
            ParseExactUuidError::ParseFailed { source } => source.recoverable(),
            ParseExactUuidError::WrongUuid { .. } => false,
        }
    }
}

/// Reads the next 16 bytes as an identifier.
pub fn parse_uuid(buf: &[u8], cur: Cursor) -> (r: Result<(Cursor, Vec<u8>), ParseUuidError>)
    requires
        cur.wf(buf@),
    ensures
        r.is_ok() == (cur.remaining() >= 16),
        r matches Ok(p) ==> {
            &&& p.0 == (Cursor { offset: (cur.offset + 16) as usize, end: cur.end })
            &&& p.1@ == buf@.subrange(cur.offset as int, cur.offset + 16)
        },
{
    if 16 <= cur.end - cur.offset {
        let bytes = copy_range(buf, cur.offset, cur.offset + 16);
        Ok((Cursor { offset: cur.offset + 16, end: cur.end }, bytes))
    } else {
        Err(ParseUuidError::NotEnoughData)
    }
}

/// Reads 16 bytes and insists that they equal `expected`.
pub fn parse_exact_uuid(buf: &[u8], cur: Cursor, expected: &[u8]) -> (r: Result<
    (Cursor, Vec<u8>),
    ParseExactUuidError,
>)
    requires
        cur.wf(buf@),
        expected@.len() == 16,
    ensures
        ({
            let got = buf@.subrange(cur.offset as int, cur.offset + 16);
            match r {
                Ok(p) => {
                    &&& cur.remaining() >= 16
                    &&& got == expected@
                    &&& p.0 == (Cursor { offset: (cur.offset + 16) as usize, end: cur.end })
                    &&& p.1@ == got
                },
                Err(ParseExactUuidError::ParseFailed { source }) => {
                    &&& cur.remaining() < 16
                    &&& source is NotEnoughData
                },
                Err(ParseExactUuidError::WrongUuid { expected: e, parsed }) => {
                    &&& cur.remaining() >= 16
                    &&& got != expected@
                    &&& e@ == expected@
                    &&& parsed@ == got
                },
            }
        }),
{
    match parse_uuid(buf, cur) {
        Ok((after, bytes)) => {
            if bytes_eq_at(buf, cur.offset, expected) {
                Ok((after, bytes))
            } else {
                proof {
                    assert(expected@.subrange(0, 16) =~= expected@);
                }
                Err(ParseExactUuidError::WrongUuid {
                    expected: copy_range(expected, 0, 16),
                    parsed: bytes,
                })
            }
        },
        Err(source) => Err(ParseExactUuidError::ParseFailed { source }),
    }
}

} // verus!
