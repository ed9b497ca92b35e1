//! The special directory entry that names the content sections.
//!
//! The `::DataSpace/NameList` entry holds, after a leading word count, up to
//! two UTF-16 little-endian names, each length-prefixed (in 16-bit words)
//! and null-terminated. Only the names "Uncompressed" and "MSCompressed"
//! are recognised; every valid file must declare the uncompressed section.

use vstd::prelude::*;

use crate::cursor::{bytes_eq_at, le16_at, Cursor};

verus! {

/// "Uncompressed" in UTF-16 little-endian.
pub open spec fn uncompressed_name() -> Seq<u8> {
    seq![
        0x55u8, 0x00u8, 0x6Eu8, 0x00u8, 0x63u8, 0x00u8, 0x6Fu8, 0x00u8, 0x6Du8, 0x00u8, 0x70u8,
        0x00u8, 0x72u8, 0x00u8, 0x65u8, 0x00u8, 0x73u8, 0x00u8, 0x73u8, 0x00u8, 0x65u8, 0x00u8,
        0x64u8, 0x00u8,
    ]
}

/// "MSCompressed" in UTF-16 little-endian.
pub open spec fn mscompressed_name() -> Seq<u8> {
    seq![
        0x4Du8, 0x00u8, 0x53u8, 0x00u8, 0x43u8, 0x00u8, 0x6Fu8, 0x00u8, 0x6Du8, 0x00u8, 0x70u8,
        0x00u8, 0x72u8, 0x00u8, 0x65u8, 0x00u8, 0x73u8, 0x00u8, 0x73u8, 0x00u8, 0x65u8, 0x00u8,
        0x64u8, 0x00u8,
    ]
}

/// Which content sections the name list declares.
#[derive(Debug, Clone, Copy, PartialEq, Eq, Structural)]
pub struct NameList {
    pub has_ms_compressed_section: bool,
}

#[derive(Debug, Clone, Copy, PartialEq, Eq, Structural)]
pub enum ParseNameListError {
    NotEnoughData,
    TooManyNameListEntries { actual: u16 },
    NameListEntryNotNullTerminated,
    UnknownSectionName,
    MissingUncompressedSectionEntry,
}

impl ParseNameListError {
    /// Only a short read may be retried elsewhere. A malformed or unknown
    /// entry is fatal, and so is a clean list that lacks the mandatory
    /// "Uncompressed" entry: every valid file must declare it.
    pub fn recoverable(&self) -> (r: bool)
        ensures
            r == (self is NotEnoughData),
    {
        match self {
            ParseNameListError::NotEnoughData => true,
            ParseNameListError::MissingUncompressedSectionEntry => false,
            ParseNameListError::TooManyNameListEntries { .. } => false,
            ParseNameListError::NameListEntryNotNullTerminated => false,
            ParseNameListError::UnknownSectionName => false,
        }
    }
}

/// Outcome of reading `k` more name-list entries: which of the two known
/// sections have been seen, or the error that stopped the reading.
pub enum NameListEntriesResult {
    Done(bool, bool),
    Fail(ParseNameListError),
}

/// Reads `k` name-list entries of `b` from `q`, bounded by `ce`, carrying
/// which of the two known names were seen so far (uncompressed first).
pub open spec fn spec_name_list_entries(
    b: Seq<u8>,
    q: int,
    ce: int,
    k: int,
    has_unc: bool,
    has_msc: bool,
) -> NameListEntriesResult
    decreases k,
{
    if k <= 0 {
        NameListEntriesResult::Done(has_unc, has_msc)
    } else if ce - q < 2 {
        NameListEntriesResult::Fail(ParseNameListError::NotEnoughData)
    } else {
        let m = 2 * le16_at(b, q);
        if ce - (q + 2) < m || ce - (q + 2 + m) < 2 {
            NameListEntriesResult::Fail(ParseNameListError::NotEnoughData)
        } else if !(b[q + 2 + m] == 0 && b[q + 2 + m + 1] == 0) {
            NameListEntriesResult::Fail(ParseNameListError::NameListEntryNotNullTerminated)
        } else {
            let name = b.subrange(q + 2, q + 2 + m);
            if name == uncompressed_name() {
                spec_name_list_entries(b, q + 2 + m + 2, ce, k - 1, true, has_msc)
            } else if name == mscompressed_name() {
                spec_name_list_entries(b, q + 2 + m + 2, ce, k - 1, has_unc, true)
            } else {
                NameListEntriesResult::Fail(ParseNameListError::UnknownSectionName)
            }
        }
    }
}

/// Exactly when [`NameList::parse`] succeeds on the window at `cur`.
pub open spec fn spec_name_list_ok(b: Seq<u8>, cur: Cursor) -> bool {
    let p = cur.offset as int;
    let rem = cur.remaining();
    let flw = le16_at(b, p);
    let cl = (flw - 1) * 2;
    let ce = p + 2 + cl;
    let num = le16_at(b, p + 2);
    &&& rem >= 2 && flw >= 1 && rem - 2 >= cl && cl >= 2
    &&& num <= 2
    &&& match spec_name_list_entries(b, p + 4, ce, num, false, false) {
        NameListEntriesResult::Done(has_unc, _) => has_unc,
        NameListEntriesResult::Fail(_) => false,
    }
}

/// The name list [`NameList::parse`] yields when it succeeds on the window
/// at `cur`.
pub open spec fn spec_name_list_value(b: Seq<u8>, cur: Cursor) -> NameList {
    let p = cur.offset as int;
    let flw = le16_at(b, p);
    let ce = p + 2 + (flw - 1) * 2;
    let num = le16_at(b, p + 2);
    match spec_name_list_entries(b, p + 4, ce, num, false, false) {
        NameListEntriesResult::Done(_, has_msc) => NameList { has_ms_compressed_section: has_msc },
        NameListEntriesResult::Fail(_) => NameList { has_ms_compressed_section: false },
    }
}

/// Exactly when each outcome of [`NameList::parse`] occurs and what it
/// carries.
pub open spec fn nl_result_matches(
    b: Seq<u8>,
    cur: Cursor,
    r: Result<(Cursor, NameList), ParseNameListError>,
) -> bool {
    let p = cur.offset as int;
    let rem = cur.remaining();
    let flw = le16_at(b, p);
    let cl = (flw - 1) * 2;
    let ce = p + 2 + cl;
    let num = le16_at(b, p + 2);
    let prefix_ok = rem >= 2 && flw >= 1 && rem - 2 >= cl && cl >= 2;
    match r {
        Ok(pr) => {
            &&& prefix_ok
            &&& num <= 2
            &&& match spec_name_list_entries(b, p + 4, ce, num, false, false) {
                NameListEntriesResult::Done(has_unc, has_msc) => {
                    &&& has_unc
                    &&& pr.1 == (NameList { has_ms_compressed_section: has_msc })
                },
                NameListEntriesResult::Fail(_) => false,
            }
            &&& pr.0 == (Cursor { offset: ce as usize, end: cur.end })
        },
        Err(ParseNameListError::NotEnoughData) => {
            ||| !prefix_ok
            ||| (num <= 2 && spec_name_list_entries(b, p + 4, ce, num, false, false)
                == NameListEntriesResult::Fail(ParseNameListError::NotEnoughData))
        },
        Err(ParseNameListError::TooManyNameListEntries { actual }) => {
            &&& prefix_ok
            &&& num > 2
            &&& actual as int == num
        },
        Err(ParseNameListError::NameListEntryNotNullTerminated) => {
            &&& prefix_ok
            &&& num <= 2
            &&& spec_name_list_entries(b, p + 4, ce, num, false, false)
                == NameListEntriesResult::Fail(ParseNameListError::NameListEntryNotNullTerminated)
        },
        Err(ParseNameListError::UnknownSectionName) => {
            &&& prefix_ok
            &&& num <= 2
            &&& spec_name_list_entries(b, p + 4, ce, num, false, false)
                == NameListEntriesResult::Fail(ParseNameListError::UnknownSectionName)
        },
        Err(ParseNameListError::MissingUncompressedSectionEntry) => {
            &&& prefix_ok
            &&& num <= 2
            &&& match spec_name_list_entries(b, p + 4, ce, num, false, false) {
                NameListEntriesResult::Done(has_unc, _) => !has_unc,
                NameListEntriesResult::Fail(_) => false,
            }
        },
    }
}

/// The UTF-16 little-endian bytes of "Uncompressed".
fn uncompressed_name_vec() -> (v: Vec<u8>)
    ensures
        v@ == uncompressed_name(),
{
    let mut v: Vec<u8> = Vec::new();
    v.push(0x55);
    v.push(0x00);
    v.push(0x6E);
    v.push(0x00);
    v.push(0x63);
    v.push(0x00);
    v.push(0x6F);
    v.push(0x00);
    v.push(0x6D);
    v.push(0x00);
    v.push(0x70);
    v.push(0x00);
    v.push(0x72);
    v.push(0x00);
    v.push(0x65);
    v.push(0x00);
    v.push(0x73);
    v.push(0x00);
    v.push(0x73);
    v.push(0x00);
    v.push(0x65);
    v.push(0x00);
    v.push(0x64);
    v.push(0x00);
    proof {
        assert(v@ =~= uncompressed_name());
    }
    v
}

/// The UTF-16 little-endian bytes of "MSCompressed".
fn mscompressed_name_vec() -> (v: Vec<u8>)
    ensures
        v@ == mscompressed_name(),
{
    let mut v: Vec<u8> = Vec::new();
    v.push(0x4D);
    v.push(0x00);
    v.push(0x53);
    v.push(0x00);
    v.push(0x43);
    v.push(0x00);
    v.push(0x6F);
    v.push(0x00);
    v.push(0x6D);
    v.push(0x00);
    v.push(0x70);
    v.push(0x00);
    v.push(0x72);
    v.push(0x00);
    v.push(0x65);
    v.push(0x00);
    v.push(0x73);
    v.push(0x00);
    v.push(0x73);
    v.push(0x00);
    v.push(0x65);
    v.push(0x00);
    v.push(0x64);
    v.push(0x00);
    proof {
        assert(v@ =~= mscompressed_name());
    }
    v
}

impl NameList {
    /// Decodes the name list from its entry's bytes: a leading length in
    /// 16-bit words bounds the content, then a word count of entries, each
    /// a length-prefixed, null-terminated UTF-16 name that must be one of
    /// the two known section names. The uncompressed section must be
    /// declared. On success the cursor has advanced past the declared
    /// content.
    #[verifier::loop_isolation(false)]
    pub fn parse(buf: &[u8], cur: Cursor) -> (r: Result<(Cursor, NameList), ParseNameListError>)
        requires
            cur.wf(buf@),
        ensures
            nl_result_matches(buf@, cur, r),
    {
        let ghost b = buf@;
        let ghost p = cur.offset as int;
        let (c, file_len_words) = match cur.read_u16_le(buf) {
            Some(pr) => pr,
            None => { return Err(ParseNameListError::NotEnoughData) },
        };
        if file_len_words < 1 {
            return Err(ParseNameListError::NotEnoughData);
        }
        let content_len = (file_len_words as usize - 1) * 2;
        let (after, content) = match c.take(content_len) {
            Some(pr) => pr,
            None => { return Err(ParseNameListError::NotEnoughData) },
        };
        let ghost ce = content.end as int;
        let (c, num_entries) = match content.read_u16_le(buf) {
            Some(pr) => pr,
            None => { return Err(ParseNameListError::NotEnoughData) },
        };
        if num_entries > 2 {
            return Err(ParseNameListError::TooManyNameListEntries { actual: num_entries });
        }
        let uncompressed = uncompressed_name_vec();
        let mscompressed = mscompressed_name_vec();
        let mut has_unc = false;
        let mut has_msc = false;
        let mut c = c;
        let mut k: u16 = 0;
        while k < num_entries
            invariant
                k <= num_entries,
                c.end == ce,
                cur.offset + 4 <= c.offset,
                c.offset <= c.end <= buf@.len(),
                uncompressed@ == uncompressed_name(),
                mscompressed@ == mscompressed_name(),
                spec_name_list_entries(b, p + 4, ce, num_entries as int, false, false)
                    == spec_name_list_entries(
                    b,
                    c.offset as int,
                    ce,
                    num_entries - k,
                    has_unc,
                    has_msc,
                ),
            decreases num_entries - k,
        {
            let (c2, len_words) = match c.read_u16_le(buf) {
                Some(pr) => pr,
                None => { return Err(ParseNameListError::NotEnoughData) },
            };
            let name_len = 2 * len_words as usize;
            let (c3, name_win) = match c2.take(name_len) {
                Some(pr) => pr,
                None => { return Err(ParseNameListError::NotEnoughData) },
            };
            let (c4, null_win) = match c3.take(2) {
                Some(pr) => pr,
                None => { return Err(ParseNameListError::NotEnoughData) },
            };
            if !(buf[null_win.offset] == 0 && buf[null_win.offset + 1] == 0) {
                return Err(ParseNameListError::NameListEntryNotNullTerminated);
            }
            let is_unc = name_len == 24 && bytes_eq_at(buf, name_win.offset, uncompressed.as_slice());
            let is_msc = !is_unc && name_len == 24 && bytes_eq_at(
                buf,
                name_win.offset,
                mscompressed.as_slice(),
            );
            proof {
                let name = b.subrange(name_win.offset as int, name_win.offset + name_len);
                if name_len != 24 {
                    assert(name.len() != 24);
                    assert(name != uncompressed_name());
                    assert(name != mscompressed_name());
                }
            }
            if is_unc {
                has_unc = true;
            } else if is_msc {
                has_msc = true;
            } else {
                return Err(ParseNameListError::UnknownSectionName);
            }
            c = c4;
            k = k + 1;
        }
        if !has_unc {
            return Err(ParseNameListError::MissingUncompressedSectionEntry);
        }
        Ok((after, NameList { has_ms_compressed_section: has_msc }))
    }
}

} // verus!
