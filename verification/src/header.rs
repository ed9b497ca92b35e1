//! The fixed file header.
//!
//! The header opens the container: a four-byte tag, five dwords (version,
//! total header length, a reserved dword, timestamp, language id), two fixed
//! 16-byte identifiers, a section table locating header section 0 and the
//! directory listing, and — only for versions above 2 — the offset of
//! content section 0.

use vstd::prelude::*;

use crate::cursor::{bytes_eq_at, le32_at, le64_at, Cursor};
use crate::uuid::{parse_exact_uuid, ParseExactUuidError};

verus! {

/// The fixed tag that opens the file header.
pub open spec fn itsf_tag() -> Seq<u8> {
    seq![0x49u8, 0x54u8, 0x53u8, 0x46u8]
}

/// First fixed identifier embedded in the file header.
pub open spec fn header_guid_1() -> Seq<u8> {
    seq![
        0x10u8, 0xFDu8, 0x01u8, 0x7Cu8, 0xAAu8, 0x7Bu8, 0xD0u8, 0x11u8, 0x9Eu8, 0x0Cu8, 0x00u8,
        0xA0u8, 0xC9u8, 0x22u8, 0xE6u8, 0xECu8,
    ]
}

/// Second fixed identifier embedded in the file header.
pub open spec fn header_guid_2() -> Seq<u8> {
    seq![
        0x11u8, 0xFDu8, 0x01u8, 0x7Cu8, 0xAAu8, 0x7Bu8, 0xD0u8, 0x11u8, 0x9Eu8, 0x0Cu8, 0x00u8,
        0xA0u8, 0xC9u8, 0x22u8, 0xE6u8, 0xECu8,
    ]
}

#[derive(Debug, Clone, Copy, PartialEq, Eq, Structural)]
pub struct HeaderSectionTableEntry {
    pub file_offset: u64,
    pub length: u64,
}

#[derive(Debug, Clone, Copy, PartialEq, Eq, Structural)]
pub struct HeaderSectionTable {
    pub header_section_0: HeaderSectionTableEntry,
    pub directory_listing_entry: HeaderSectionTableEntry,
}

#[derive(Debug, Clone, Copy, PartialEq, Eq, Structural)]
pub struct Header {
    pub version: u32,
    pub total_header_length: u32,
    pub unknown_dword: u32,
    pub timestamp: u32,
    pub language_id: u32,
    pub header_section_table: HeaderSectionTable,
    pub offset_content_section_0: Option<u64>,
}

/// The section-table entry whose 16 bytes start at `i`.
pub open spec fn spec_table_entry_at(b: Seq<u8>, i: int) -> HeaderSectionTableEntry {
    HeaderSectionTableEntry {
        file_offset: le64_at(b, i) as u64,
        length: le64_at(b, i + 8) as u64,
    }
}

/// Total size of the header whose bytes start at `i`: 96 bytes for versions
/// above 2, 88 bytes otherwise.
pub open spec fn spec_header_len(b: Seq<u8>, i: int) -> int {
    if le32_at(b, i + 4) > 2 {
        96
    } else {
        88
    }
}

/// The header decoded from the bytes starting at `i`.
pub open spec fn spec_header_at(b: Seq<u8>, i: int) -> Header {
    Header {
        version: le32_at(b, i + 4) as u32,
        total_header_length: le32_at(b, i + 8) as u32,
        unknown_dword: le32_at(b, i + 12) as u32,
        timestamp: le32_at(b, i + 16) as u32,
        language_id: le32_at(b, i + 20) as u32,
        header_section_table: HeaderSectionTable {
            header_section_0: spec_table_entry_at(b, i + 56),
            directory_listing_entry: spec_table_entry_at(b, i + 72),
        },
        offset_content_section_0: if le32_at(b, i + 4) > 2 {
            Some(le64_at(b, i + 88) as u64)
        } else {
            None
        },
    }
}

#[derive(Debug, Clone, Copy, PartialEq, Eq, Structural)]
pub struct ParseHeaderSectionTableError {
    pub offset: usize,
}

impl ParseHeaderSectionTableError {
    /// Only a short read can fail a section-table entry.
    pub fn recoverable(&self) -> (r: bool)
        ensures
            r == true,
    {
        true
    }
}

#[derive(Debug, Clone)]
pub enum ParseHeaderError {
    NotEnoughData,
    InvalidTag { offset: usize, expected: Vec<u8> },
    ParseUuidFailed { source: ParseExactUuidError },
    HeaderSectionTableFailed { source: ParseHeaderSectionTableError },
}

impl ParseHeaderError {
    /// Everything here may still mean "not a header at this position" except
    /// an identifier that parsed but differs from the expected constant.
    pub fn recoverable(&self) -> (r: bool)
        ensures
            r == !(self matches ParseHeaderError::ParseUuidFailed { source } && source is WrongUuid),
    {
        match self {
            ParseHeaderError::NotEnoughData => true,
            ParseHeaderError::InvalidTag { .. } => true,
            ParseHeaderError::ParseUuidFailed { source } => source.recoverable(),
            ParseHeaderError::HeaderSectionTableFailed { source } => source.recoverable(),
        }
    }
}

impl HeaderSectionTableEntry {
    /// Reads one section-table entry: a 64-bit file offset and a 64-bit
    /// length.
    fn parse(buf: &[u8], cur: Cursor) -> (r: Result<
        (Cursor, HeaderSectionTableEntry),
        ParseHeaderSectionTableError,
    >)
        requires
            cur.wf(buf@),
        ensures
            r.is_ok() == (cur.remaining() >= 16),
            r matches Ok(p) ==> {
                &&& p.0 == (Cursor { offset: (cur.offset + 16) as usize, end: cur.end })
                &&& p.1 == spec_table_entry_at(buf@, cur.offset as int)
            },
            r matches Err(e) ==> e.offset == cur.offset,
    {
        let (c, file_offset) = match cur.read_u64_le(buf) {
            Some(p) => p,
            None => { return Err(ParseHeaderSectionTableError { offset: cur.offset }) },
        };
        let (c, length) = match c.read_u64_le(buf) {
            Some(p) => p,
            None => { return Err(ParseHeaderSectionTableError { offset: cur.offset }) },
        };
        Ok((c, HeaderSectionTableEntry { file_offset, length }))
    }
}

impl HeaderSectionTable {
    /// Reads the two fixed-purpose section-table entries: header section 0,
    /// then the directory listing.
    fn parse(buf: &[u8], cur: Cursor) -> (r: Result<
        (Cursor, HeaderSectionTable),
        ParseHeaderSectionTableError,
    >)
        requires
            cur.wf(buf@),
        ensures
            r.is_ok() == (cur.remaining() >= 32),
            r matches Ok(p) ==> {
                &&& p.0 == (Cursor { offset: (cur.offset + 32) as usize, end: cur.end })
                &&& p.1 == (HeaderSectionTable {
                    header_section_0: spec_table_entry_at(buf@, cur.offset as int),
                    directory_listing_entry: spec_table_entry_at(buf@, cur.offset + 16),
                })
            },
            r matches Err(e) ==> e.offset == if cur.remaining() < 16 {
                cur.offset as int
            } else {
                cur.offset + 16
            },
    {
        let (c, header_section_0) = HeaderSectionTableEntry::parse(buf, cur)?;
        let (c, directory_listing_entry) = HeaderSectionTableEntry::parse(buf, c)?;
        Ok((c, HeaderSectionTable { header_section_0, directory_listing_entry }))
    }
}

/// The first file-header identifier as a byte vector.
fn header_guid_1_vec() -> (v: Vec<u8>)
    ensures
        v@ == header_guid_1(),
{
    let mut v: Vec<u8> = Vec::new();
    v.push(0x10);
    v.push(0xFD);
    v.push(0x01);
    v.push(0x7C);
    v.push(0xAA);
    v.push(0x7B);
    v.push(0xD0);
    v.push(0x11);
    v.push(0x9E);
    v.push(0x0C);
    v.push(0x00);
    v.push(0xA0);
    v.push(0xC9);
    v.push(0x22);
    v.push(0xE6);
    v.push(0xEC);
    proof {
        assert(v@ =~= header_guid_1());
    }
    v
}

/// The second file-header identifier as a byte vector.
fn header_guid_2_vec() -> (v: Vec<u8>)
    ensures
        v@ == header_guid_2(),
{
    let mut v: Vec<u8> = Vec::new();
    v.push(0x11);
    v.push(0xFD);
    v.push(0x01);
    v.push(0x7C);
    v.push(0xAA);
    v.push(0x7B);
    v.push(0xD0);
    v.push(0x11);
    v.push(0x9E);
    v.push(0x0C);
    v.push(0x00);
    v.push(0xA0);
    v.push(0xC9);
    v.push(0x22);
    v.push(0xE6);
    v.push(0xEC);
    proof {
        assert(v@ =~= header_guid_2());
    }
    v
}

/// Exactly when each outcome of [`Header::parse`] occurs and what it
/// carries.
pub open spec fn header_result_matches(
    b: Seq<u8>,
    cur: Cursor,
    r: Result<(Cursor, Header), ParseHeaderError>,
) -> bool {
    let i = cur.offset as int;
    let rem = cur.remaining();
    let tag_ok = rem >= 4 && b.subrange(i, i + 4) == itsf_tag();
    let guid1 = b.subrange(i + 24, i + 40);
    let guid2 = b.subrange(i + 40, i + 56);
    let version = le32_at(b, i + 4);
    match r {
                    Ok(p) => {
                        &&& tag_ok
                        &&& rem >= 40
                        &&& guid1 == header_guid_1()
                        &&& guid2 == header_guid_2()
                        &&& rem >= spec_header_len(b, i)
                        &&& p.0 == (Cursor {
                            offset: (i + spec_header_len(b, i)) as usize,
                            end: cur.end,
                        })
                        &&& p.1 == spec_header_at(b, i)
                    },
                    Err(ParseHeaderError::NotEnoughData) => {
                        &&& tag_ok
                        &&& (rem < 24 || (guid1 == header_guid_1() && guid2 == header_guid_2()
                            && version > 2 && 88 <= rem < 96))
                    },
                    Err(ParseHeaderError::InvalidTag { offset, expected }) => {
                        &&& !tag_ok
                        &&& offset == cur.offset
                        &&& expected@ == itsf_tag()
                    },
                    Err(ParseHeaderError::ParseUuidFailed { source }) => {
                        &&& tag_ok
                        &&& rem >= 24
                        &&& match source {
                            ParseExactUuidError::ParseFailed { .. } => rem < 40 || (guid1
                                == header_guid_1() && rem < 56),
                            ParseExactUuidError::WrongUuid { expected, parsed } => {
                                ||| (rem >= 40 && guid1 != header_guid_1() && expected@
                                    == header_guid_1() && parsed@ == guid1)
                                ||| (guid1 == header_guid_1() && rem >= 56 && guid2
                                    != header_guid_2() && expected@ == header_guid_2() && parsed@
                                    == guid2)
                            },
                        }
                    },
                    Err(ParseHeaderError::HeaderSectionTableFailed { source }) => {
                        &&& tag_ok
                        &&& guid1 == header_guid_1()
                        &&& guid2 == header_guid_2()
                        &&& 56 <= rem < 88
                        &&& source.offset == if rem < 72 {
                            i + 56
                        } else {
                            i + 72
                        }
                    },
    }
}

impl Header {
    /// Decodes the fixed file header starting at the cursor.
    ///
    /// Accepts exactly the buffers whose window starts with the tag, whose
    /// two identifiers match the fixed constants, and which hold the whole
    /// 88-byte (or, above version 2, 96-byte) layout; the decoded fields are
    /// the little-endian values at their fixed offsets.
    pub fn parse(buf: &[u8], cur: Cursor) -> (r: Result<(Cursor, Header), ParseHeaderError>)
        requires
            cur.wf(buf@),
        ensures
            header_result_matches(buf@, cur, r),
    {
        let mut tag: Vec<u8> = Vec::new();
        tag.push(0x49);
        tag.push(0x54);
        tag.push(0x53);
        tag.push(0x46);
        proof {
            assert(tag@ =~= itsf_tag());
        }
        if cur.end - cur.offset < 4 || !bytes_eq_at(buf, cur.offset, tag.as_slice()) {
            return Err(ParseHeaderError::InvalidTag { offset: cur.offset, expected: tag });
        }
        let c = Cursor { offset: cur.offset + 4, end: cur.end };
        let (c, version) = match c.read_u32_le(buf) {
            Some(p) => p,
            None => { return Err(ParseHeaderError::NotEnoughData) },
        };
        let (c, total_header_length) = match c.read_u32_le(buf) {
            Some(p) => p,
            None => { return Err(ParseHeaderError::NotEnoughData) },
        };
        let (c, unknown_dword) = match c.read_u32_le(buf) {
            Some(p) => p,
            None => { return Err(ParseHeaderError::NotEnoughData) },
        };
        let (c, timestamp) = match c.read_u32_le(buf) {
            Some(p) => p,
            None => { return Err(ParseHeaderError::NotEnoughData) },
        };
        let (c, language_id) = match c.read_u32_le(buf) {
            Some(p) => p,
            None => { return Err(ParseHeaderError::NotEnoughData) },
        };
        let g1 = header_guid_1_vec();
        let (c, _) = match parse_exact_uuid(buf, c, g1.as_slice()) {
            Ok(p) => p,
            Err(source) => { return Err(ParseHeaderError::ParseUuidFailed { source }) },
        };
        let g2 = header_guid_2_vec();
        let (c, _) = match parse_exact_uuid(buf, c, g2.as_slice()) {
            Ok(p) => p,
            Err(source) => { return Err(ParseHeaderError::ParseUuidFailed { source }) },
        };
        let (c, header_section_table) = match HeaderSectionTable::parse(buf, c) {
            Ok(p) => p,
            Err(source) => { return Err(ParseHeaderError::HeaderSectionTableFailed { source }) },
        };
        let (c, offset_content_section_0) = if version > 2 {
            match c.read_u64_le(buf) {
                Some((c2, v)) => (c2, Some(v)),
                None => { return Err(ParseHeaderError::NotEnoughData) },
            }
        } else {
            (c, None)
        };
        Ok((
            c,
            Header {
                version,
                total_header_length,
                unknown_dword,
                timestamp,
                language_id,
                header_section_table,
                offset_content_section_0,
            },
        ))
    }
}

} // verus!
