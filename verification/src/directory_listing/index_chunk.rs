//! Index chunks: the internal nodes of the directory tree.
//!
//! An index chunk occupies exactly the directory's fixed chunk size: its
//! tag, the length of the trailing quickref area, and entries mapping a name
//! to the listing chunk whose entries start at or after that name. The
//! decoder parses the entries for structural completeness but keeps none of
//! them: every listing chunk is visited directly anyway.

use vstd::prelude::*;

use crate::cursor::{bytes_eq_at, copy_range, le32_at, utf8_is_valid, Cursor};
use crate::encint::{
    encint_ok, encint_runs_out, encint_used, encint_value, lemma_encint_term_nonneg,
    parse_encint_be, EncIntParseError,
};
use vstd::utf8::valid_utf8;

verus! {

/// The tag that opens an index chunk.
pub open spec fn pmgi_tag() -> Seq<u8> {
    seq![0x50u8, 0x4Du8, 0x47u8, 0x49u8]
}

/// One entry of an index chunk: a name and the number of the listing chunk
/// where entries from that name on are found.
#[derive(Debug, Clone, PartialEq, Eq)]
pub struct IndexChunkEntry {
    pub name: Vec<u8>,
    pub listing_chunk_starting_with_name: u64,
}

#[derive(Debug, Clone, Copy, PartialEq, Eq, Structural)]
pub enum ParseIndexChunkEntryError {
    NotEnoughData,
    LengthOfNameInvalid { source: EncIntParseError },
    NameTooLong,
    NameStringOutOfBounds,
    NameInvalidUtf8,
    ChunkNumberInvalid { source: EncIntParseError },
}

impl ParseIndexChunkEntryError {
    /// Only running out of input at the very start of an entry lets the
    /// enclosing chunk treat the entry area as finished.
    pub fn recoverable(&self) -> (r: bool)
        ensures
            r == (self is NotEnoughData),
    {
        match self {
            ParseIndexChunkEntryError::NotEnoughData => true,
            _ => false,
        }
    }
}

/// Outcome of attempting one index entry at offset `p`, bounded by `end`.
pub enum IndexEntryStep {
    Stop,
    Fail(ParseIndexChunkEntryError),
    Entry(Seq<u8>, int, int),
}

/// Decodes one index entry of `b` at `p`, reading no byte at `end` or
/// beyond: an ENCINT name length, the UTF-8 name, and the ENCINT number of
/// the listing chunk starting with that name.
pub open spec fn spec_index_entry(b: Seq<u8>, p: int, end: int) -> IndexEntryStep {
    let w0 = b.subrange(p, end);
    if encint_runs_out(w0) {
        IndexEntryStep::Stop
    } else if !encint_ok(w0) {
        IndexEntryStep::Fail(
            ParseIndexChunkEntryError::LengthOfNameInvalid {
                source: EncIntParseError::EncodedIntegerTooLong,
            },
        )
    } else {
        let nl = encint_value(w0);
        let p1 = p + encint_used(w0);
        if nl > usize::MAX {
            IndexEntryStep::Fail(ParseIndexChunkEntryError::NameTooLong)
        } else if p1 + nl > end {
            IndexEntryStep::Fail(ParseIndexChunkEntryError::NameStringOutOfBounds)
        } else {
            let name = b.subrange(p1, p1 + nl);
            let p2 = p1 + nl;
            if !valid_utf8(name) {
                IndexEntryStep::Fail(ParseIndexChunkEntryError::NameInvalidUtf8)
            } else {
                let w2 = b.subrange(p2, end);
                if !encint_ok(w2) {
                    IndexEntryStep::Fail(
                        ParseIndexChunkEntryError::ChunkNumberInvalid {
                            source: if encint_runs_out(w2) {
                                EncIntParseError::NotEnoughData
                            } else {
                                EncIntParseError::EncodedIntegerTooLong
                            },
                        },
                    )
                } else {
                    IndexEntryStep::Entry(name, encint_value(w2), p2 + encint_used(w2))
                }
            }
        }
    }
}

impl IndexChunkEntry {
    /// Decodes one index entry at the cursor.
    pub fn parse(buf: &[u8], cur: Cursor) -> (r: Result<
        (Cursor, IndexChunkEntry),
        ParseIndexChunkEntryError,
    >)
        requires
            cur.wf(buf@),
        ensures
            ({
                let step = spec_index_entry(buf@, cur.offset as int, cur.end as int);
                match r {
                    Ok(p) => {
                        &&& step == IndexEntryStep::Entry(
                            p.1.name@,
                            p.1.listing_chunk_starting_with_name as int,
                            p.0.offset as int,
                        )
                        &&& p.0.end == cur.end
                        &&& cur.offset < p.0.offset <= cur.end
                    },
                    Err(ParseIndexChunkEntryError::NotEnoughData) => step is Stop,
                    Err(e) => step == IndexEntryStep::Fail(e),
                }
            }),
    {
        let ghost b = buf@;
        let ghost end = cur.end as int;
        let (c1, name_len) = match parse_encint_be(buf, cur) {
            Ok(p) => p,
            Err(EncIntParseError::NotEnoughData) => {
                return Err(ParseIndexChunkEntryError::NotEnoughData);
            },
            Err(e) => {
                return Err(ParseIndexChunkEntryError::LengthOfNameInvalid { source: e });
            },
        };
        proof {
            lemma_encint_term_nonneg(b.subrange(cur.offset as int, end));
        }
        if name_len > usize::MAX as u64 {
            return Err(ParseIndexChunkEntryError::NameTooLong);
        }
        let nl = name_len as usize;
        let (c2, name_win) = match c1.take(nl) {
            Some(pair) => pair,
            None => { return Err(ParseIndexChunkEntryError::NameStringOutOfBounds) },
        };
        let name = copy_range(buf, name_win.offset, name_win.end);
        if !utf8_is_valid(name.as_slice()) {
            return Err(ParseIndexChunkEntryError::NameInvalidUtf8);
        }
        let (c3, listing_chunk_starting_with_name) = match parse_encint_be(buf, c2) {
            Ok(p) => p,
            Err(e) => {
                return Err(ParseIndexChunkEntryError::ChunkNumberInvalid { source: e });
            },
        };
        proof {
            lemma_encint_term_nonneg(b.subrange(c2.offset as int, end));
        }
        Ok((c3, IndexChunkEntry { name, listing_chunk_starting_with_name }))
    }
}

/// Outcome of decoding index entries from `p` until the area is exhausted.
pub enum IndexEntriesResult {
    Done,
    Fail(int, ParseIndexChunkEntryError),
}

/// Decodes index entries of `b` from `p` up to `end` until the area is
/// exhausted or an entry is malformed.
pub open spec fn spec_index_entries(b: Seq<u8>, p: int, end: int) -> IndexEntriesResult
    decreases end - p,
{
    match spec_index_entry(b, p, end) {
        IndexEntryStep::Stop => IndexEntriesResult::Done,
        IndexEntryStep::Fail(e) => IndexEntriesResult::Fail(p, e),
        IndexEntryStep::Entry(_, _, p2) => {
            if p < p2 <= end {
                spec_index_entries(b, p2, end)
            } else {
                IndexEntriesResult::Done
            }
        },
    }
}

/// Outcome of decoding one index chunk whose `n` bytes start at `i`.
pub enum IndexChunkResult {
    Good,
    BadTag,
    NotEnoughData,
    EntryFail(int, ParseIndexChunkEntryError),
}

/// Decodes the index chunk whose `n` bytes start at `i`: checks the tag,
/// splits off the quickref area, and decodes the entry area.
pub open spec fn spec_index_chunk(b: Seq<u8>, i: int, n: int) -> IndexChunkResult {
    if !(n >= 4 && b.subrange(i, i + 4) == pmgi_tag()) {
        IndexChunkResult::BadTag
    } else if n < 8 {
        IndexChunkResult::NotEnoughData
    } else {
        let q = le32_at(b, i + 4);
        if q > n - 8 {
            IndexChunkResult::NotEnoughData
        } else {
            match spec_index_entries(b, i + 8, i + n - q) {
                IndexEntriesResult::Done => IndexChunkResult::Good,
                IndexEntriesResult::Fail(o, e) => IndexChunkResult::EntryFail(o, e),
            }
        }
    }
}

#[derive(Debug, Clone)]
pub enum ParseIndexChunkError {
    NotEnoughDataInChunk,
    ChunkOutOfBounds { offset: usize, chunk_size: usize },
    InvalidTag { offset: usize, expected: Vec<u8> },
    InvalidChunkEntry { offset: usize, source: ParseIndexChunkEntryError },
}

impl ParseIndexChunkError {
    /// A malformed entry is fatal unless it merely ran out of input at an
    /// entry boundary; everything else may mean "this is a listing chunk".
    pub fn recoverable(&self) -> (r: bool)
        ensures
            r == (match self {
                ParseIndexChunkError::InvalidChunkEntry { source, .. } => source is NotEnoughData,
                _ => true,
            }),
    {
        match self {
            ParseIndexChunkError::InvalidChunkEntry { source, .. } => source.recoverable(),
            _ => true,
        }
    }
}

/// Exactly when each outcome of [`parse_index_chunk`] occurs and what it
/// carries.
pub open spec fn ic_result_matches(
    b: Seq<u8>,
    cur: Cursor,
    chunk_size: usize,
    r: Result<Cursor, ParseIndexChunkError>,
) -> bool {
    let i = cur.offset as int;
    let rem = cur.remaining();
    let n = chunk_size as int;
    match r {
        Ok(c) => {
            &&& rem >= n
            &&& spec_index_chunk(b, i, n) is Good
            &&& c == (Cursor { offset: (i + n) as usize, end: cur.end })
        },
        Err(ParseIndexChunkError::ChunkOutOfBounds { offset, chunk_size: cs }) => {
            &&& rem < n
            &&& offset == cur.offset
            &&& cs == chunk_size
        },
        Err(ParseIndexChunkError::InvalidTag { offset, expected }) => {
            &&& rem >= n
            &&& spec_index_chunk(b, i, n) is BadTag
            &&& offset == cur.offset
            &&& expected@ == pmgi_tag()
        },
        Err(ParseIndexChunkError::NotEnoughDataInChunk) => {
            &&& rem >= n
            &&& spec_index_chunk(b, i, n) is NotEnoughData
        },
        Err(ParseIndexChunkError::InvalidChunkEntry { offset, source }) => {
            &&& rem >= n
            &&& spec_index_chunk(b, i, n) == IndexChunkResult::EntryFail(offset as int, source)
        },
    }
}

/// Decodes one index chunk of exactly `chunk_size` bytes at the cursor,
/// validating its entries without keeping them. On success the returned
/// cursor has advanced past the whole chunk.
#[verifier::loop_isolation(false)]
pub fn parse_index_chunk(chunk_size: usize, buf: &[u8], cur: Cursor) -> (r: Result<
    Cursor,
    ParseIndexChunkError,
>)
    requires
        cur.wf(buf@),
    ensures
        ic_result_matches(buf@, cur, chunk_size, r),
{
    let ghost b = buf@;
    let ghost i = cur.offset as int;
    let ghost n = chunk_size as int;
    let (after, _chunk_win) = match cur.take(chunk_size) {
        Some(p) => p,
        None => {
            return Err(ParseIndexChunkError::ChunkOutOfBounds {
                offset: cur.offset,
                chunk_size,
            });
        },
    };
    let mut tag: Vec<u8> = Vec::new();
    tag.push(0x50);
    tag.push(0x4D);
    tag.push(0x47);
    tag.push(0x49);
    proof {
        assert(tag@ =~= pmgi_tag());
    }
    if chunk_size < 4 || !bytes_eq_at(buf, cur.offset, tag.as_slice()) {
        return Err(ParseIndexChunkError::InvalidTag { offset: cur.offset, expected: tag });
    }
    if chunk_size < 8 {
        return Err(ParseIndexChunkError::NotEnoughDataInChunk);
    }
    let (_, quickref_len) = match (Cursor {
        offset: cur.offset + 4,
        end: cur.offset + chunk_size,
    }).read_u32_le(buf) {
        Some(p) => p,
        None => { return Err(ParseIndexChunkError::NotEnoughDataInChunk) },
    };
    let q = quickref_len as usize;
    if q > chunk_size - 8 {
        return Err(ParseIndexChunkError::NotEnoughDataInChunk);
    }
    let ea_end = cur.offset + chunk_size - q;
    let mut c = Cursor { offset: cur.offset + 8, end: ea_end };
    loop
        invariant
            c.end == ea_end,
            i + 8 <= c.offset as int <= ea_end,
            spec_index_entries(b, i + 8, ea_end as int) == spec_index_entries(
                b,
                c.offset as int,
                ea_end as int,
            ),
        decreases ea_end - c.offset,
    {
        match IndexChunkEntry::parse(buf, c) {
            Ok((c2, _entry)) => {
                c = c2;
            },
            Err(ParseIndexChunkEntryError::NotEnoughData) => {
                proof {
                    assert(spec_index_chunk(b, i, n) is Good);
                }
                return Ok(after);
            },
            Err(e) => {
                return Err(ParseIndexChunkError::InvalidChunkEntry {
                    offset: c.offset,
                    source: e,
                });
            },
        }
    }
}

} // verus!
