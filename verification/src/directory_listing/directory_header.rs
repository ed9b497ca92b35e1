//! The header of the directory-listing section.
//!
//! The 84-byte layout is: a four-byte tag, version, the directory header
//! length (which appears a second time further down and must agree), a
//! reserved dword, the chunk size, the quickref density, the index tree
//! depth, the root index chunk number (an all-ones sentinel means none), the
//! first and last listing chunk numbers, a reserved dword, the total chunk
//! count, the language id, a fixed 16-byte identifier, the repeated header
//! length, and three reserved dwords.

use vstd::prelude::*;

use crate::cursor::{bytes_eq_at, le32_at, Cursor};
use crate::uuid::{parse_exact_uuid, ParseExactUuidError};

verus! {

/// The fixed tag that opens the directory header.
pub open spec fn itsp_tag() -> Seq<u8> {
    seq![0x49u8, 0x54u8, 0x53u8, 0x50u8]
}

/// The fixed identifier embedded in the directory header.
pub open spec fn directory_header_guid() -> Seq<u8> {
    seq![
        0x6Au8, 0x92u8, 0x02u8, 0x5Du8, 0x2Eu8, 0x21u8, 0xD0u8, 0x11u8, 0x9Du8, 0xF9u8, 0x00u8,
        0xA0u8, 0xC9u8, 0x22u8, 0xE6u8, 0xECu8,
    ]
}

/// How deep the index tree of the directory is.
#[derive(Debug, Clone, Copy, PartialEq, Eq, Structural)]
pub enum IndexTreeDepth {
    NoIndex,
    OneLevelOfPMGI,
}

#[derive(Debug, Clone, Copy, PartialEq, Eq, Structural)]
pub struct DirectoryHeader {
    pub version: u32,
    pub directory_header_length: u32,
    pub directory_chunk_size: u32,
    pub quickref_density: u32,
    pub index_tree_depth: IndexTreeDepth,
    pub root_index_chunk_number: Option<u32>,
    pub first_pmgl_chunk_number: u32,
    pub last_pmgl_chunk_number: u32,
    pub total_directory_chunk_count: u32,
    pub windows_language_id: u32,
}

/// A chunk-number field where the all-ones sentinel means "none".
pub open spec fn spec_opt_chunk_number(v: int) -> Option<u32> {
    if v == 0xFFFF_FFFF {
        None
    } else {
        Some(v as u32)
    }
}

/// The directory header decoded from the bytes starting at `i`.
pub open spec fn spec_directory_header_at(b: Seq<u8>, i: int) -> DirectoryHeader {
    DirectoryHeader {
        version: le32_at(b, i + 4) as u32,
        directory_header_length: le32_at(b, i + 8) as u32,
        directory_chunk_size: le32_at(b, i + 16) as u32,
        quickref_density: le32_at(b, i + 20) as u32,
        index_tree_depth: if le32_at(b, i + 24) == 1 {
            IndexTreeDepth::NoIndex
        } else {
            IndexTreeDepth::OneLevelOfPMGI
        },
        root_index_chunk_number: spec_opt_chunk_number(le32_at(b, i + 28)),
        first_pmgl_chunk_number: le32_at(b, i + 32) as u32,
        last_pmgl_chunk_number: le32_at(b, i + 36) as u32,
        total_directory_chunk_count: le32_at(b, i + 44) as u32,
        windows_language_id: le32_at(b, i + 48) as u32,
    }
}

#[derive(Debug, Clone)]
pub enum DirectoryHeaderParseError {
    NotEnoughData,
    UnknownIndexTreeDepth,
    InvalidTag { offset: usize, expected: Vec<u8> },
    UuidFailed { source: ParseExactUuidError },
    DirectoryHeaderLengthsDoNotMatch { first: u32, second: u32 },
}

impl DirectoryHeaderParseError {
    /// Short reads and tag or identifier mismatches may mean "something else
    /// starts here"; a bad depth value or disagreeing lengths may not.
    pub fn recoverable(&self) -> (r: bool)
        ensures
            r == (match self {
                DirectoryHeaderParseError::NotEnoughData => true,
                DirectoryHeaderParseError::UnknownIndexTreeDepth => false,
                DirectoryHeaderParseError::InvalidTag { .. } => true,
                DirectoryHeaderParseError::UuidFailed { source } => source is ParseFailed,
                DirectoryHeaderParseError::DirectoryHeaderLengthsDoNotMatch { .. } => false,
            }),
    {
        match self {
            DirectoryHeaderParseError::NotEnoughData => true,
            DirectoryHeaderParseError::UnknownIndexTreeDepth => false,
            DirectoryHeaderParseError::InvalidTag { .. } => true,
            DirectoryHeaderParseError::UuidFailed { source } => source.recoverable(),
            DirectoryHeaderParseError::DirectoryHeaderLengthsDoNotMatch { .. } => false,
        }
    }
}

/// Exactly when each outcome of [`DirectoryHeader::parse`] occurs and what
/// it carries.
pub open spec fn dh_result_matches(
    b: Seq<u8>,
    cur: Cursor,
    r: Result<(Cursor, DirectoryHeader), DirectoryHeaderParseError>,
) -> bool {
    let i = cur.offset as int;
    let rem = cur.remaining();
    let tag_ok = rem >= 4 && b.subrange(i, i + 4) == itsp_tag();
    let depth = le32_at(b, i + 24);
    let depth_ok = depth == 1 || depth == 2;
    let guid = b.subrange(i + 52, i + 68);
    let len1 = le32_at(b, i + 8);
    let len2 = le32_at(b, i + 68);
    match r {
        Ok(p) => {
            &&& tag_ok
            &&& rem >= 84
            &&& depth_ok
            &&& guid == directory_header_guid()
            &&& len1 == len2
            &&& p.0 == (Cursor { offset: (i + 84) as usize, end: cur.end })
            &&& p.1 == spec_directory_header_at(b, i)
        },
        Err(DirectoryHeaderParseError::NotEnoughData) => {
            &&& tag_ok
            &&& (rem < 28 || (depth_ok && rem < 52) || (depth_ok && guid == directory_header_guid()
                && (rem < 72 || (len1 == len2 && rem < 84))))
        },
        Err(DirectoryHeaderParseError::UnknownIndexTreeDepth) => {
            &&& tag_ok
            &&& rem >= 28
            &&& !depth_ok
        },
        Err(DirectoryHeaderParseError::InvalidTag { offset, expected }) => {
            &&& !tag_ok
            &&& offset == cur.offset
            &&& expected@ == itsp_tag()
        },
        Err(DirectoryHeaderParseError::UuidFailed { source }) => {
            &&& tag_ok
            &&& depth_ok
            &&& rem >= 52
            &&& match source {
                ParseExactUuidError::ParseFailed { .. } => rem < 68,
                ParseExactUuidError::WrongUuid { expected, parsed } => {
                    &&& rem >= 68
                    &&& guid != directory_header_guid()
                    &&& expected@ == directory_header_guid()
                    &&& parsed@ == guid
                },
            }
        },
        Err(DirectoryHeaderParseError::DirectoryHeaderLengthsDoNotMatch { first, second }) => {
            &&& tag_ok
            &&& depth_ok
            &&& guid == directory_header_guid()
            &&& rem >= 72
            &&& len1 != len2
            &&& first as int == len1
            &&& second as int == len2
        },
    }
}

/// The directory-header identifier as a byte vector.
fn directory_header_guid_vec() -> (v: Vec<u8>)
    ensures
        v@ == directory_header_guid(),
{
    let mut v: Vec<u8> = Vec::new();
    v.push(0x6A);
    v.push(0x92);
    v.push(0x02);
    v.push(0x5D);
    v.push(0x2E);
    v.push(0x21);
    v.push(0xD0);
    v.push(0x11);
    v.push(0x9D);
    v.push(0xF9);
    v.push(0x00);
    v.push(0xA0);
    v.push(0xC9);
    v.push(0x22);
    v.push(0xE6);
    v.push(0xEC);
    proof {
        assert(v@ =~= directory_header_guid());
    }
    v
}

impl DirectoryHeader {
    /// Decodes the 84-byte directory header starting at the cursor.
    ///
    /// The duplicated-length cross-check and the identifier check are fatal
    /// validations; the reserved dwords are read but not constrained.
    pub fn parse(buf: &[u8], cur: Cursor) -> (r: Result<
        (Cursor, DirectoryHeader),
        DirectoryHeaderParseError,
    >)
        requires
            cur.wf(buf@),
        ensures
            dh_result_matches(buf@, cur, r),
    {
        let mut tag: Vec<u8> = Vec::new();
        tag.push(0x49);
        tag.push(0x54);
        tag.push(0x53);
        tag.push(0x50);
        proof {
            assert(tag@ =~= itsp_tag());
        }
        if cur.end - cur.offset < 4 || !bytes_eq_at(buf, cur.offset, tag.as_slice()) {
            return Err(DirectoryHeaderParseError::InvalidTag {
                offset: cur.offset,
                expected: tag,
            });
        }
        let c = Cursor { offset: cur.offset + 4, end: cur.end };
        let (c, version) = match c.read_u32_le(buf) {
            Some(p) => p,
            None => { return Err(DirectoryHeaderParseError::NotEnoughData) },
        };
        let (c, directory_header_length) = match c.read_u32_le(buf) {
            Some(p) => p,
            None => { return Err(DirectoryHeaderParseError::NotEnoughData) },
        };
        // reserved
        let (c, _) = match c.read_u32_le(buf) {
            Some(p) => p,
            None => { return Err(DirectoryHeaderParseError::NotEnoughData) },
        };
        let (c, directory_chunk_size) = match c.read_u32_le(buf) {
            Some(p) => p,
            None => { return Err(DirectoryHeaderParseError::NotEnoughData) },
        };
        let (c, quickref_density) = match c.read_u32_le(buf) {
            Some(p) => p,
            None => { return Err(DirectoryHeaderParseError::NotEnoughData) },
        };
        let (c, depth_value) = match c.read_u32_le(buf) {
            Some(p) => p,
            None => { return Err(DirectoryHeaderParseError::NotEnoughData) },
        };
        let index_tree_depth = match depth_value {
            1 => IndexTreeDepth::NoIndex,
            2 => IndexTreeDepth::OneLevelOfPMGI,
            _ => { return Err(DirectoryHeaderParseError::UnknownIndexTreeDepth) },
        };
        let (c, root_value) = match c.read_u32_le(buf) {
            Some(p) => p,
            None => { return Err(DirectoryHeaderParseError::NotEnoughData) },
        };
        let root_index_chunk_number = if root_value == 0xFFFF_FFFF {
            None
        } else {
            Some(root_value)
        };
        let (c, first_pmgl_chunk_number) = match c.read_u32_le(buf) {
            Some(p) => p,
            None => { return Err(DirectoryHeaderParseError::NotEnoughData) },
        };
        let (c, last_pmgl_chunk_number) = match c.read_u32_le(buf) {
            Some(p) => p,
            None => { return Err(DirectoryHeaderParseError::NotEnoughData) },
        };
        // reserved
        let (c, _) = match c.read_u32_le(buf) {
            Some(p) => p,
            None => { return Err(DirectoryHeaderParseError::NotEnoughData) },
        };
        let (c, total_directory_chunk_count) = match c.read_u32_le(buf) {
            Some(p) => p,
            None => { return Err(DirectoryHeaderParseError::NotEnoughData) },
        };
        let (c, windows_language_id) = match c.read_u32_le(buf) {
            Some(p) => p,
            None => { return Err(DirectoryHeaderParseError::NotEnoughData) },
        };
        let guid = directory_header_guid_vec();
        let (c, _) = match parse_exact_uuid(buf, c, guid.as_slice()) {
            Ok(p) => p,
            Err(source) => { return Err(DirectoryHeaderParseError::UuidFailed { source }) },
        };
        let (c, second_length) = match c.read_u32_le(buf) {
            Some(p) => p,
            None => { return Err(DirectoryHeaderParseError::NotEnoughData) },
        };
        if directory_header_length != second_length {
            return Err(DirectoryHeaderParseError::DirectoryHeaderLengthsDoNotMatch {
                first: directory_header_length,
                second: second_length,
            });
        }
        // three reserved dwords close the header
        let (c, _) = match c.read_u32_le(buf) {
            Some(p) => p,
            None => { return Err(DirectoryHeaderParseError::NotEnoughData) },
        };
        let (c, _) = match c.read_u32_le(buf) {
            Some(p) => p,
            None => { return Err(DirectoryHeaderParseError::NotEnoughData) },
        };
        let (c, _) = match c.read_u32_le(buf) {
            Some(p) => p,
            None => { return Err(DirectoryHeaderParseError::NotEnoughData) },
        };
        Ok((
            c,
            DirectoryHeader {
                version,
                directory_header_length,
                directory_chunk_size,
                quickref_density,
                index_tree_depth,
                root_index_chunk_number,
                first_pmgl_chunk_number,
                last_pmgl_chunk_number,
                total_directory_chunk_count,
                windows_language_id,
            },
        ))
    }
}

} // verus!
