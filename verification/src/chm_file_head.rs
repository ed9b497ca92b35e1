//! Decoding everything up to, and including, the directory listing.
//!
//! The file head ties the fixed structures together: the file header, the
//! bounds-checked slices of header section 0 and of the directory-listing
//! section that its section table names, the file-size cross-check, and the
//! decoded directory listing. It also resolves where content section 0
//! starts: versions above 2 carry that offset in the header, but a producer
//! that left the field zero gets the conventional position immediately
//! after the header, which is also what versions 2 and below always use.

use vstd::prelude::*;

use crate::cursor::Cursor;
use crate::directory_listing::{dl_ok_matches, dl_result_matches, DirectoryListing,
    ParseDirectoryListingError};
use crate::header::{header_result_matches, spec_header_at, spec_header_len, Header,
    HeaderSectionTableEntry, ParseHeaderError};
use crate::header_section_0::{hs0_result_matches, HeaderSection0, ParseHeaderSection0Error};

verus! {

/// Everything decoded from the fixed head of the file.
#[derive(Debug, Clone, PartialEq, Eq)]
pub struct ChmFileHead {
    pub header: Header,
    pub header_section_0: HeaderSection0,
    pub directory_listing: DirectoryListing,
    pub actual_offset_content_section_0: u64,
}

#[derive(Debug, Clone)]
pub enum ParseChmFileHeadError {
    ParseHeader { offset: usize, source: Box<ParseHeaderError> },
    OutOfBounds { what: &'static str },
    ParseHeaderSection0 { offset: usize, source: Box<ParseHeaderSection0Error> },
    ParseDirectoryListing { offset: usize, source: Box<ParseDirectoryListingError> },
}

/// The byte range a section-table entry names, as a cursor, provided it
/// lies inside the buffer.
pub open spec fn spec_section_cursor(entry: HeaderSectionTableEntry) -> Cursor {
    Cursor {
        offset: entry.file_offset as usize,
        end: (entry.file_offset + entry.length) as usize,
    }
}

/// A section-table entry stays inside a buffer of `len` bytes.
pub open spec fn spec_section_in_bounds(entry: HeaderSectionTableEntry, len: int) -> bool {
    entry.file_offset + entry.length <= len
}

/// Where content section 0 starts: the header's own field when it is
/// present and non-zero, and the position immediately after the header
/// otherwise.
pub open spec fn spec_resolved_cs0(b: Seq<u8>) -> int {
    match spec_header_at(b, 0).offset_content_section_0 {
        Some(o) => if o != 0 {
            o as int
        } else {
            spec_header_len(b, 0)
        },
        None => spec_header_len(b, 0),
    }
}

/// Slices the byte range a section-table entry names out of the file,
/// failing with an out-of-bounds error naming `what` whenever the range
/// overflows or leaves the buffer.
pub fn get_header_section_data(
    what: &'static str,
    file: &[u8],
    entry: &HeaderSectionTableEntry,
) -> (r: Result<Cursor, ParseChmFileHeadError>)
    ensures
        r.is_ok() == spec_section_in_bounds(*entry, file@.len() as int),
        r matches Ok(c) ==> c == spec_section_cursor(*entry) && c.wf(file@),
        r matches Err(e) ==> e matches ParseChmFileHeadError::OutOfBounds { what: w } && w == what,
{
    let len = file.len() as u64;
    match entry.file_offset.checked_add(entry.length) {
        Some(end) => {
            if end <= len {
                Ok(Cursor { offset: entry.file_offset as usize, end: end as usize })
            } else {
                Err(ParseChmFileHeadError::OutOfBounds { what })
            }
        },
        None => Err(ParseChmFileHeadError::OutOfBounds { what }),
    }
}

/// Exactly when each outcome of [`ChmFileHead::parse`] occurs and what it
/// carries.
pub open spec fn cfh_result_matches(
    b: Seq<u8>,
    r: Result<ChmFileHead, ParseChmFileHeadError>,
) -> bool {
    let cur0 = Cursor { offset: 0, end: b.len() as usize };
    let h = spec_header_at(b, 0);
    let hdr_cur = Cursor { offset: spec_header_len(b, 0) as usize, end: b.len() as usize };
    let hdr_ok = header_result_matches(b, cur0, Ok((hdr_cur, h)));
    let hs0_entry = h.header_section_table.header_section_0;
    let dl_entry = h.header_section_table.directory_listing_entry;
    let hs0_cur = spec_section_cursor(hs0_entry);
    let dl_cur = spec_section_cursor(dl_entry);
    let hs0 = HeaderSection0 {
        unknown_dword_1: crate::cursor::le32_at(b, hs0_cur.offset + 4) as u32,
        file_size: crate::cursor::le64_at(b, hs0_cur.offset + 8) as u64,
        unknown_dword_2: crate::cursor::le32_at(b, hs0_cur.offset + 16) as u32,
        unknown_dword_3: crate::cursor::le32_at(b, hs0_cur.offset + 20) as u32,
    };
    let hs0_after = Cursor { offset: (hs0_cur.offset + 24) as usize, end: hs0_cur.end };
    let hs0_ok = hs0_result_matches(b, hs0_cur, b.len() as u64, Ok((hs0_after, hs0)));
    match r {
        Ok(head) => {
            &&& hdr_ok
            &&& head.header == h
            &&& spec_section_in_bounds(hs0_entry, b.len() as int)
            &&& hs0_ok
            &&& head.header_section_0 == hs0
            &&& spec_section_in_bounds(dl_entry, b.len() as int)
            &&& dl_ok_matches(b, dl_cur, head.directory_listing)
            &&& head.actual_offset_content_section_0 == spec_resolved_cs0(b)
        },
        Err(ParseChmFileHeadError::ParseHeader { offset, source }) => {
            &&& offset == 0
            &&& header_result_matches(b, cur0, Err(*source))
        },
        Err(ParseChmFileHeadError::OutOfBounds { what }) => {
            ||| (hdr_ok && !spec_section_in_bounds(hs0_entry, b.len() as int) && what@
                == "Header section 0"@)
            ||| (hdr_ok && spec_section_in_bounds(hs0_entry, b.len() as int) && hs0_ok
                && !spec_section_in_bounds(dl_entry, b.len() as int) && what@
                == "Directory listing header section"@)
        },
        Err(ParseChmFileHeadError::ParseHeaderSection0 { offset, source }) => {
            &&& hdr_ok
            &&& spec_section_in_bounds(hs0_entry, b.len() as int)
            &&& hs0_result_matches(b, hs0_cur, b.len() as u64, Err(*source))
            &&& offset == hs0_cur.offset
        },
        Err(ParseChmFileHeadError::ParseDirectoryListing { offset, source }) => {
            &&& hdr_ok
            &&& spec_section_in_bounds(hs0_entry, b.len() as int)
            &&& hs0_ok
            &&& spec_section_in_bounds(dl_entry, b.len() as int)
            &&& dl_result_matches(b, dl_cur, Err(*source))
            &&& offset == dl_cur.offset
        },
    }
}

impl ChmFileHead {
    /// Decodes the file header, header section 0 (cross-checking the stored
    /// file size against the buffer length), and the directory listing, and
    /// resolves where content section 0 starts.
    pub fn parse(file: &[u8]) -> (r: Result<ChmFileHead, ParseChmFileHeadError>)
        ensures
            cfh_result_matches(file@, r),
    {
        let cur = Cursor::new(file);
        let (after_header, header) = match crate::header::Header::parse(file, cur) {
            Ok(p) => p,
            Err(e) => {
                return Err(ParseChmFileHeadError::ParseHeader { offset: 0, source: Box::new(e) });
            },
        };
        // Content section 0 usually follows the header; only versions above
        // 2 name its offset explicitly, and some producers leave that field
        // zero, in which case the conventional position applies.
        let actual_offset_content_section_0 = match header.offset_content_section_0 {
            Some(o) => if o != 0 {
                o
            } else {
                after_header.offset as u64
            },
            None => after_header.offset as u64,
        };
        let hs0_cur = get_header_section_data(
            "Header section 0",
            file,
            &header.header_section_table.header_section_0,
        )?;
        let (_, header_section_0) = match crate::header_section_0::HeaderSection0::parse(
            file.len() as u64,
            file,
            hs0_cur,
        ) {
            Ok(p) => p,
            Err(e) => {
                return Err(ParseChmFileHeadError::ParseHeaderSection0 {
                    offset: hs0_cur.offset,
                    source: Box::new(e),
                });
            },
        };
        let dl_cur = get_header_section_data(
            "Directory listing header section",
            file,
            &header.header_section_table.directory_listing_entry,
        )?;
        let (_, directory_listing) = match DirectoryListing::parse(file, dl_cur) {
            Ok(p) => p,
            Err(e) => {
                return Err(ParseChmFileHeadError::ParseDirectoryListing {
                    offset: dl_cur.offset,
                    source: Box::new(e),
                });
            },
        };
        Ok(ChmFileHead {
            header,
            header_section_0,
            directory_listing,
            actual_offset_content_section_0,
        })
    }
}

} // verus!
