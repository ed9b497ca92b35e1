//! Listing chunks: the leaves of the directory tree.
//!
//! A listing chunk occupies exactly the directory's fixed chunk size. After
//! its tag comes the length of the trailing quickref area (which is skipped
//! uninterpreted), a reserved dword, the optional indices of the previous
//! and next listing chunks, and then name-to-content-location entries until
//! the entry area is exhausted. Each entry is an ENCINT name length, that
//! many bytes of UTF-8 name, and three ENCINTs: content-section index,
//! offset within the section, and content length.

use vstd::prelude::*;

use crate::cursor::{bytes_eq_at, copy_range, le32_at, utf8_is_valid, Cursor};
use crate::directory_listing::directory_header::spec_opt_chunk_number;
use crate::encint::{
    encint_ok, encint_runs_out, encint_used, encint_value, lemma_encint_term_nonneg,
    parse_encint_be, EncIntParseError,
};
use vstd::utf8::valid_utf8;

verus! {

/// The tag that opens a listing chunk.
pub open spec fn pmgl_tag() -> Seq<u8> {
    seq![0x50u8, 0x4Du8, 0x47u8, 0x4Cu8]
}

/// One name-to-content-location entry of a listing chunk. The name bytes
/// are a validated UTF-8 string, owned rather than borrowed from the input
/// buffer.
#[derive(Debug, Clone, PartialEq, Eq)]
pub struct ListingChunkEntry {
    pub name: Vec<u8>,
    pub content_section: u64,
    pub content_section_offset: u64,
    pub content_length: u64,
}

/// Mathematical image of a [`ListingChunkEntry`].
pub struct ListingChunkEntrySpec {
    pub name: Seq<u8>,
    pub content_section: int,
    pub content_section_offset: int,
    pub content_length: int,
}

impl View for ListingChunkEntry {
    type V = ListingChunkEntrySpec;

    open spec fn view(&self) -> ListingChunkEntrySpec {
        ListingChunkEntrySpec {
            name: self.name@,
            content_section: self.content_section as int,
            content_section_offset: self.content_section_offset as int,
            content_length: self.content_length as int,
        }
    }
}

#[derive(Debug, Clone, Copy, PartialEq, Eq, Structural)]
pub enum ParseListingChunkEntryError {
    NotEnoughData,
    LengthOfNameInvalid { source: EncIntParseError },
    NameTooLong,
    NameStringOutOfBounds,
    NameInvalidUtf8,
    ContentSectionNumberInvalid { source: EncIntParseError },
    ContentSectionOffsetInvalid { source: EncIntParseError },
    ContentLengthInvalid { source: EncIntParseError },
}

impl ParseListingChunkEntryError {
    /// Only running out of input at the very start of an entry lets the
    /// enclosing chunk treat the entry area as finished.
    pub fn recoverable(&self) -> (r: bool)
        ensures
            r == (self is NotEnoughData),
    {
        match self {
            ParseListingChunkEntryError::NotEnoughData => true,
            _ => false,
        }
    }
}

/// Outcome of attempting one listing entry at offset `p`, bounded by `end`:
/// the entry area is exhausted (`Stop`), the entry is malformed (`Fail`), or
/// an entry is decoded and the next one starts at the carried offset.
pub enum ListingEntryStep {
    Stop,
    Fail(ParseListingChunkEntryError),
    Entry(ListingChunkEntrySpec, int),
}

/// Decodes one listing entry of `b` at `p`, reading no byte at `end` or
/// beyond.
pub open spec fn spec_listing_entry(b: Seq<u8>, p: int, end: int) -> ListingEntryStep {
    let w0 = b.subrange(p, end);
    if encint_runs_out(w0) {
        ListingEntryStep::Stop
    } else if !encint_ok(w0) {
        ListingEntryStep::Fail(
            ParseListingChunkEntryError::LengthOfNameInvalid {
                source: EncIntParseError::EncodedIntegerTooLong,
            },
        )
    } else {
        let nl = encint_value(w0);
        let p1 = p + encint_used(w0);
        if nl > usize::MAX {
            ListingEntryStep::Fail(ParseListingChunkEntryError::NameTooLong)
        } else if p1 + nl > end {
            ListingEntryStep::Fail(ParseListingChunkEntryError::NameStringOutOfBounds)
        } else {
            let name = b.subrange(p1, p1 + nl);
            let p2 = p1 + nl;
            if !valid_utf8(name) {
                ListingEntryStep::Fail(ParseListingChunkEntryError::NameInvalidUtf8)
            } else {
                let w2 = b.subrange(p2, end);
                if !encint_ok(w2) {
                    ListingEntryStep::Fail(
                        ParseListingChunkEntryError::ContentSectionNumberInvalid {
                            source: if encint_runs_out(w2) {
                                EncIntParseError::NotEnoughData
                            } else {
                                EncIntParseError::EncodedIntegerTooLong
                            },
                        },
                    )
                } else {
                    let cs = encint_value(w2);
                    let p3 = p2 + encint_used(w2);
                    let w3 = b.subrange(p3, end);
                    if !encint_ok(w3) {
                        ListingEntryStep::Fail(
                            ParseListingChunkEntryError::ContentSectionOffsetInvalid {
                                source: if encint_runs_out(w3) {
                                    EncIntParseError::NotEnoughData
                                } else {
                                    EncIntParseError::EncodedIntegerTooLong
                                },
                            },
                        )
                    } else {
                        let cso = encint_value(w3);
                        let p4 = p3 + encint_used(w3);
                        let w4 = b.subrange(p4, end);
                        if !encint_ok(w4) {
                            ListingEntryStep::Fail(
                                ParseListingChunkEntryError::ContentLengthInvalid {
                                    source: if encint_runs_out(w4) {
                                        EncIntParseError::NotEnoughData
                                    } else {
                                        EncIntParseError::EncodedIntegerTooLong
                                    },
                                },
                            )
                        } else {
                            let cl = encint_value(w4);
                            let p5 = p4 + encint_used(w4);
                            ListingEntryStep::Entry(
                                ListingChunkEntrySpec {
                                    name,
                                    content_section: cs,
                                    content_section_offset: cso,
                                    content_length: cl,
                                },
                                p5,
                            )
                        }
                    }
                }
            }
        }
    }
}

impl ListingChunkEntry {
    /// Decodes one listing entry at the cursor.
    ///
    /// Running out of input on the name-length ENCINT is the recoverable
    /// "entry area exhausted" outcome; every later failure is fatal for the
    /// chunk.
    pub fn parse(buf: &[u8], cur: Cursor) -> (r: Result<
        (Cursor, ListingChunkEntry),
        ParseListingChunkEntryError,
    >)
        requires
            cur.wf(buf@),
        ensures
            ({
                let step = spec_listing_entry(buf@, cur.offset as int, cur.end as int);
                match r {
                    Ok(p) => {
                        &&& step == ListingEntryStep::Entry(p.1@, p.0.offset as int)
                        &&& p.0.end == cur.end
                        &&& cur.offset < p.0.offset <= cur.end
                    },
                    Err(ParseListingChunkEntryError::NotEnoughData) => step is Stop,
                    Err(e) => step == ListingEntryStep::Fail(e),
                }
            }),
    {
        let ghost b = buf@;
        let ghost p = cur.offset as int;
        let ghost end = cur.end as int;
        let (c1, name_len) = match parse_encint_be(buf, cur) {
            Ok(p) => p,
            Err(EncIntParseError::NotEnoughData) => {
                return Err(ParseListingChunkEntryError::NotEnoughData);
            },
            Err(e) => {
                return Err(ParseListingChunkEntryError::LengthOfNameInvalid { source: e });
            },
        };
        proof {
            lemma_encint_term_nonneg(b.subrange(p, end));
        }
        if name_len > usize::MAX as u64 {
            return Err(ParseListingChunkEntryError::NameTooLong);
        }
        let nl = name_len as usize;
        let (c2, name_win) = match c1.take(nl) {
            Some(pair) => pair,
            None => { return Err(ParseListingChunkEntryError::NameStringOutOfBounds) },
        };
        let name = copy_range(buf, name_win.offset, name_win.end);
        if !utf8_is_valid(name.as_slice()) {
            return Err(ParseListingChunkEntryError::NameInvalidUtf8);
        }
        let (c3, content_section) = match parse_encint_be(buf, c2) {
            Ok(p) => p,
            Err(e) => {
                return Err(ParseListingChunkEntryError::ContentSectionNumberInvalid { source: e });
            },
        };
        proof {
            lemma_encint_term_nonneg(b.subrange(c2.offset as int, end));
        }
        let (c4, content_section_offset) = match parse_encint_be(buf, c3) {
            Ok(p) => p,
            Err(e) => {
                return Err(ParseListingChunkEntryError::ContentSectionOffsetInvalid { source: e });
            },
        };
        proof {
            lemma_encint_term_nonneg(b.subrange(c3.offset as int, end));
        }
        let (c5, content_length) = match parse_encint_be(buf, c4) {
            Ok(p) => p,
            Err(e) => {
                return Err(ParseListingChunkEntryError::ContentLengthInvalid { source: e });
            },
        };
        proof {
            lemma_encint_term_nonneg(b.subrange(c4.offset as int, end));
        }
        Ok((
            c5,
            ListingChunkEntry { name, content_section, content_section_offset, content_length },
        ))
    }
}

/// Outcome of decoding listing entries from `p` until the area is exhausted:
/// the entries in order, or the offset of the malformed entry and its error.
pub enum ListingEntriesResult {
    Entries(Seq<ListingChunkEntrySpec>),
    Fail(int, ParseListingChunkEntryError),
}

/// Decodes listing entries of `b` from `p` up to `end` until the area is
/// exhausted or an entry is malformed.
pub open spec fn spec_listing_entries(b: Seq<u8>, p: int, end: int) -> ListingEntriesResult
    decreases end - p,
{
    match spec_listing_entry(b, p, end) {
        ListingEntryStep::Stop => ListingEntriesResult::Entries(Seq::empty()),
        ListingEntryStep::Fail(e) => ListingEntriesResult::Fail(p, e),
        ListingEntryStep::Entry(es, p2) => {
            if p < p2 <= end {
                match spec_listing_entries(b, p2, end) {
                    ListingEntriesResult::Entries(rest) => ListingEntriesResult::Entries(
                        seq![es] + rest,
                    ),
                    ListingEntriesResult::Fail(o, e) => ListingEntriesResult::Fail(o, e),
                }
            } else {
                ListingEntriesResult::Entries(Seq::empty())
            }
        },
    }
}

/// A decoded listing chunk: its neighbours in the listing order, and its
/// entries.
#[derive(Debug, Clone, PartialEq, Eq)]
pub struct ListingChunk {
    pub chunk_index_before: Option<u32>,
    pub chunk_index_after: Option<u32>,
    pub entries: Vec<ListingChunkEntry>,
}

/// Mathematical image of a [`ListingChunk`].
pub struct ListingChunkSpec {
    pub chunk_index_before: Option<u32>,
    pub chunk_index_after: Option<u32>,
    pub entries: Seq<ListingChunkEntrySpec>,
}

impl View for ListingChunk {
    type V = ListingChunkSpec;

    open spec fn view(&self) -> ListingChunkSpec {
        ListingChunkSpec {
            chunk_index_before: self.chunk_index_before,
            chunk_index_after: self.chunk_index_after,
            entries: self.entries@.map_values(|e: ListingChunkEntry| e@),
        }
    }
}

/// Outcome of decoding one listing chunk whose `n` bytes start at `i`.
pub enum ListingChunkResult {
    Good(ListingChunkSpec),
    BadTag,
    NotEnoughData,
    EntryFail(int, ParseListingChunkEntryError),
}

/// Decodes the listing chunk whose `n` bytes start at `i`: checks the tag,
/// splits off the quickref area, skips the reserved dword, reads the
/// neighbour indices, and decodes the entry area.
pub open spec fn spec_listing_chunk(b: Seq<u8>, i: int, n: int) -> ListingChunkResult {
    if !(n >= 4 && b.subrange(i, i + 4) == pmgl_tag()) {
        ListingChunkResult::BadTag
    } else if n < 8 {
        ListingChunkResult::NotEnoughData
    } else {
        let q = le32_at(b, i + 4);
        if q > n - 8 || n - 8 - q < 12 {
            ListingChunkResult::NotEnoughData
        } else {
            match spec_listing_entries(b, i + 20, i + n - q) {
                ListingEntriesResult::Entries(s) => ListingChunkResult::Good(
                    ListingChunkSpec {
                        chunk_index_before: spec_opt_chunk_number(le32_at(b, i + 12)),
                        chunk_index_after: spec_opt_chunk_number(le32_at(b, i + 16)),
                        entries: s,
                    },
                ),
                ListingEntriesResult::Fail(o, e) => ListingChunkResult::EntryFail(o, e),
            }
        }
    }
}

#[derive(Debug, Clone)]
pub enum ParseListingChunkError {
    NotEnoughDataInChunk,
    ChunkOutOfBounds { offset: usize, chunk_size: usize },
    InvalidTag { offset: usize, expected: Vec<u8> },
    InvalidChunkEntry { offset: usize, source: ParseListingChunkEntryError },
}

impl ParseListingChunkError {
    /// A malformed entry is fatal unless it merely ran out of input at an
    /// entry boundary; everything else may mean "this is an index chunk".
    pub fn recoverable(&self) -> (r: bool)
        ensures
            r == (match self {
                ParseListingChunkError::InvalidChunkEntry { source, .. } => source
                    is NotEnoughData,
                _ => true,
            }),
    {
        match self {
            ParseListingChunkError::InvalidChunkEntry { source, .. } => source.recoverable(),
            _ => true,
        }
    }
}

/// Exactly when each outcome of [`ListingChunk::parse`] occurs and what it
/// carries.
pub open spec fn lc_result_matches(
    b: Seq<u8>,
    cur: Cursor,
    chunk_size: usize,
    r: Result<(Cursor, ListingChunk), ParseListingChunkError>,
) -> bool {
    let i = cur.offset as int;
    let rem = cur.remaining();
    let n = chunk_size as int;
    match r {
        Ok(p) => {
            &&& rem >= n
            &&& spec_listing_chunk(b, i, n) == ListingChunkResult::Good(p.1@)
            &&& p.0 == (Cursor { offset: (i + n) as usize, end: cur.end })
        },
        Err(ParseListingChunkError::ChunkOutOfBounds { offset, chunk_size: cs }) => {
            &&& rem < n
            &&& offset == cur.offset
            &&& cs == chunk_size
        },
        Err(ParseListingChunkError::InvalidTag { offset, expected }) => {
            &&& rem >= n
            &&& spec_listing_chunk(b, i, n) is BadTag
            &&& offset == cur.offset
            &&& expected@ == pmgl_tag()
        },
        Err(ParseListingChunkError::NotEnoughDataInChunk) => {
            &&& rem >= n
            &&& spec_listing_chunk(b, i, n) is NotEnoughData
        },
        Err(ParseListingChunkError::InvalidChunkEntry { offset, source }) => {
            &&& rem >= n
            &&& spec_listing_chunk(b, i, n) == ListingChunkResult::EntryFail(
                offset as int,
                source,
            )
        },
    }
}

/// Prepends already-decoded entries to the outcome of decoding the rest.
pub open spec fn prepend_entries(
    prefix: Seq<ListingChunkEntrySpec>,
    r: ListingEntriesResult,
) -> ListingEntriesResult {
    match r {
        ListingEntriesResult::Entries(s) => ListingEntriesResult::Entries(prefix + s),
        ListingEntriesResult::Fail(o, e) => ListingEntriesResult::Fail(o, e),
    }
}

impl ListingChunk {
    /// Decodes one listing chunk of exactly `chunk_size` bytes at the
    /// cursor. On success the returned cursor has advanced past the whole
    /// chunk, trailing quickref area included.
    #[verifier::loop_isolation(false)]
    #[verifier::rlimit(50)]
    pub fn parse(chunk_size: usize, buf: &[u8], cur: Cursor) -> (r: Result<
        (Cursor, ListingChunk),
        ParseListingChunkError,
    >)
        requires
            cur.wf(buf@),
        ensures
            lc_result_matches(buf@, cur, chunk_size, r),
    {
        let ghost b = buf@;
        let ghost i = cur.offset as int;
        let ghost n = chunk_size as int;
        let (after, _chunk_win) = match cur.take(chunk_size) {
            Some(p) => p,
            None => {
                return Err(ParseListingChunkError::ChunkOutOfBounds {
                    offset: cur.offset,
                    chunk_size,
                });
            },
        };
        let mut tag: Vec<u8> = Vec::new();
        tag.push(0x50);
        tag.push(0x4D);
        tag.push(0x47);
        tag.push(0x4C);
        proof {
            assert(tag@ =~= pmgl_tag());
        }
        if chunk_size < 4 || !bytes_eq_at(buf, cur.offset, tag.as_slice()) {
            return Err(ParseListingChunkError::InvalidTag { offset: cur.offset, expected: tag });
        }
        if chunk_size < 8 {
            return Err(ParseListingChunkError::NotEnoughDataInChunk);
        }
        let (_, quickref_len) = match (Cursor {
            offset: cur.offset + 4,
            end: cur.offset + chunk_size,
        }).read_u32_le(buf) {
            Some(p) => p,
            None => { return Err(ParseListingChunkError::NotEnoughDataInChunk) },
        };
        let q = quickref_len as usize;
        if q > chunk_size - 8 || chunk_size - 8 - q < 12 {
            return Err(ParseListingChunkError::NotEnoughDataInChunk);
        }
        let ea_end = cur.offset + chunk_size - q;
        // the reserved dword at the start of the entry area is skipped
        let c = Cursor { offset: cur.offset + 12, end: ea_end };
        let (c, before_value) = match c.read_u32_le(buf) {
            Some(p) => p,
            None => { return Err(ParseListingChunkError::NotEnoughDataInChunk) },
        };
        let (c, after_value) = match c.read_u32_le(buf) {
            Some(p) => p,
            None => { return Err(ParseListingChunkError::NotEnoughDataInChunk) },
        };
        let chunk_index_before = if before_value == 0xFFFF_FFFF {
            None
        } else {
            Some(before_value)
        };
        let chunk_index_after = if after_value == 0xFFFF_FFFF {
            None
        } else {
            Some(after_value)
        };
        let ghost ea_start = c.offset as int;
        let mut entries: Vec<ListingChunkEntry> = Vec::new();
        let mut c = c;
        loop
            invariant
                cur.wf(b),
                b == buf@,
                c.end == ea_end,
                ea_start <= c.offset as int <= ea_end,
                ea_end <= cur.end,
                ea_start == i + 20,
                ea_end == i + n - le32_at(b, i + 4),
                spec_listing_entries(b, ea_start, ea_end as int) == prepend_entries(
                    entries@.map_values(|e: ListingChunkEntry| e@),
                    spec_listing_entries(b, c.offset as int, ea_end as int),
                ),
            decreases ea_end - c.offset,
        {
            match ListingChunkEntry::parse(buf, c) {
                Ok((c2, e)) => {
                    proof {
                        let prefix = entries@.map_values(|x: ListingChunkEntry| x@);
                        let step = spec_listing_entry(b, c.offset as int, ea_end as int);
                        assert(spec_listing_entries(b, c.offset as int, ea_end as int)
                            == prepend_entries(
                            seq![e@],
                            spec_listing_entries(b, c2.offset as int, ea_end as int),
                        ));
                        assert(entries@.push(e).map_values(|x: ListingChunkEntry| x@)
                            =~= prefix.push(e@));
                        match spec_listing_entries(b, c2.offset as int, ea_end as int) {
                            ListingEntriesResult::Entries(rest) => {
                                assert(prefix + (seq![e@] + rest) =~= prefix.push(e@) + rest);
                            },
                            ListingEntriesResult::Fail(_, _) => {},
                        }
                    }
                    entries.push(e);
                    c = c2;
                },
                Err(ParseListingChunkEntryError::NotEnoughData) => {
                    let chunk = ListingChunk { chunk_index_before, chunk_index_after, entries };
                    proof {
                        let prefix = chunk.entries@.map_values(|x: ListingChunkEntry| x@);
                        assert(spec_listing_entries(b, c.offset as int, ea_end as int)
                            == ListingEntriesResult::Entries(Seq::<ListingChunkEntrySpec>::empty()));
                        assert(prefix + Seq::<ListingChunkEntrySpec>::empty() =~= prefix);
                        assert(spec_listing_entries(b, i + 20, ea_end as int)
                            == ListingEntriesResult::Entries(prefix));
                        assert(spec_listing_chunk(b, i, n) == ListingChunkResult::Good(chunk@));
                    }
                    return Ok((after, chunk));
                },
                Err(e) => {
                    return Err(ParseListingChunkError::InvalidChunkEntry {
                        offset: c.offset,
                        source: e,
                    });
                },
            }
        }
    }
}

} // verus!
