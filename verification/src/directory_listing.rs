//! The directory-listing section: its header and its fixed-count sequence
//! of equally sized chunks.
//!
//! After the directory header come exactly `total_directory_chunk_count`
//! chunks of exactly `directory_chunk_size` bytes each. A chunk is either a
//! listing chunk (tag `PMGL`, holding the real entries) or an index chunk
//! (tag `PMGI`, parsed for structural completeness but contributing
//! nothing); a chunk beginning with neither tag fails the whole parse. The
//! kind is selected by a peek at the four-byte tag before either body is
//! decoded.

use vstd::prelude::*;

pub mod directory_header;
pub mod index_chunk;
pub mod listing_chunk;

use crate::cursor::{bytes_eq_at, Cursor};
use directory_header::{
    dh_result_matches, spec_directory_header_at, DirectoryHeader, DirectoryHeaderParseError,
};
use index_chunk::{
    ic_result_matches, parse_index_chunk, pmgi_tag, spec_index_chunk, IndexChunkResult,
    ParseIndexChunkEntryError, ParseIndexChunkError,
};
use listing_chunk::{
    lc_result_matches, pmgl_tag, spec_listing_chunk, ListingChunk, ListingChunkResult,
    ListingChunkSpec, ParseListingChunkEntryError, ParseListingChunkError,
};

verus! {

/// Why one chunk of the directory failed to decode.
pub enum ChunkFail {
    OutOfBounds,
    BadTag,
    ListingNotEnoughData,
    ListingEntry(int, ParseListingChunkEntryError),
    IndexNotEnoughData,
    IndexEntry(int, ParseIndexChunkEntryError),
}

/// Outcome of decoding the one chunk whose `n` bytes start at `i`, bounded
/// by `e`: the chunk's tag picks the listing or the index decoder.
pub enum ChunkStep {
    Fail(ChunkFail),
    Listing(ListingChunkSpec),
    Index,
}

/// Decodes the one directory chunk whose `n` bytes start at `i`.
pub open spec fn spec_chunk(b: Seq<u8>, i: int, e: int, n: int) -> ChunkStep {
    if e - i < n {
        ChunkStep::Fail(ChunkFail::OutOfBounds)
    } else if n >= 4 && b.subrange(i, i + 4) == pmgl_tag() {
        match spec_listing_chunk(b, i, n) {
            ListingChunkResult::Good(lc) => ChunkStep::Listing(lc),
            ListingChunkResult::BadTag => ChunkStep::Fail(ChunkFail::BadTag),
            ListingChunkResult::NotEnoughData => ChunkStep::Fail(ChunkFail::ListingNotEnoughData),
            ListingChunkResult::EntryFail(o, err) => ChunkStep::Fail(
                ChunkFail::ListingEntry(o, err),
            ),
        }
    } else if n >= 4 && b.subrange(i, i + 4) == pmgi_tag() {
        match spec_index_chunk(b, i, n) {
            IndexChunkResult::Good => ChunkStep::Index,
            IndexChunkResult::BadTag => ChunkStep::Fail(ChunkFail::BadTag),
            IndexChunkResult::NotEnoughData => ChunkStep::Fail(ChunkFail::IndexNotEnoughData),
            IndexChunkResult::EntryFail(o, err) => ChunkStep::Fail(ChunkFail::IndexEntry(o, err)),
        }
    } else {
        ChunkStep::Fail(ChunkFail::BadTag)
    }
}

/// Outcome of decoding `cnt` consecutive chunks from `i`: the listing
/// chunks in order (index chunks contribute nothing) and the offset after
/// the last chunk, or the offset of the chunk that failed and why.
pub enum DirChunksResult {
    Chunks(Seq<ListingChunkSpec>, int),
    Fail(int, ChunkFail),
}

/// Decodes `cnt` consecutive chunks of `b` starting at `i`.
pub open spec fn spec_chunks(b: Seq<u8>, i: int, e: int, n: int, cnt: int) -> DirChunksResult
    decreases cnt,
{
    if cnt <= 0 {
        DirChunksResult::Chunks(Seq::empty(), i)
    } else {
        match spec_chunk(b, i, e, n) {
            ChunkStep::Fail(f) => DirChunksResult::Fail(i, f),
            ChunkStep::Listing(lc) => match spec_chunks(b, i + n, e, n, cnt - 1) {
                DirChunksResult::Chunks(s, fin) => DirChunksResult::Chunks(seq![lc] + s, fin),
                DirChunksResult::Fail(o, f) => DirChunksResult::Fail(o, f),
            },
            ChunkStep::Index => spec_chunks(b, i + n, e, n, cnt - 1),
        }
    }
}

/// Prepends already-decoded listing chunks to the outcome of decoding the
/// remaining chunks.
pub open spec fn prepend_chunks(
    prefix: Seq<ListingChunkSpec>,
    r: DirChunksResult,
) -> DirChunksResult {
    match r {
        DirChunksResult::Chunks(s, fin) => DirChunksResult::Chunks(prefix + s, fin),
        DirChunksResult::Fail(o, f) => DirChunksResult::Fail(o, f),
    }
}

/// The decoded directory listing: its header and its listing chunks, in
/// chunk order.
#[derive(Debug, Clone, PartialEq, Eq)]
pub struct DirectoryListing {
    pub header: DirectoryHeader,
    pub entries: Vec<ListingChunk>,
}

#[derive(Debug, Clone)]
pub enum ParseDirectoryListingError {
    DirectoryHeaderParse { source: DirectoryHeaderParseError },
    ListingChunkParse { offset: usize, source: ParseListingChunkError },
    IndexChunkParse { offset: usize, source: ParseIndexChunkError },
}

impl ParseDirectoryListingError {
    /// Recoverability is inherited from the failing layer.
    pub fn recoverable(&self) -> (r: bool)
        ensures
            r == (match self {
                ParseDirectoryListingError::DirectoryHeaderParse { source } => match source {
                    DirectoryHeaderParseError::NotEnoughData => true,
                    DirectoryHeaderParseError::UnknownIndexTreeDepth => false,
                    DirectoryHeaderParseError::InvalidTag { .. } => true,
                    DirectoryHeaderParseError::UuidFailed { source } => source is ParseFailed,
                    DirectoryHeaderParseError::DirectoryHeaderLengthsDoNotMatch { .. } => false,
                },
                ParseDirectoryListingError::ListingChunkParse { source, .. } => match source {
                    ParseListingChunkError::InvalidChunkEntry { source, .. } => source
                        is NotEnoughData,
                    _ => true,
                },
                ParseDirectoryListingError::IndexChunkParse { source, .. } => match source {
                    ParseIndexChunkError::InvalidChunkEntry { source, .. } => source
                        is NotEnoughData,
                    _ => true,
                },
            }),
    {
        match self {
            ParseDirectoryListingError::DirectoryHeaderParse { source } => source.recoverable(),
            ParseDirectoryListingError::ListingChunkParse { source, .. } => source.recoverable(),
            ParseDirectoryListingError::IndexChunkParse { source, .. } => source.recoverable(),
        }
    }
}

/// What a successfully decoded directory listing holds: its header is the
/// one decoded at the cursor, and its entries are the listing chunks of the
/// declared chunk sequence, in order.
pub open spec fn dl_ok_matches(b: Seq<u8>, cur: Cursor, dl: DirectoryListing) -> bool {
    let i = cur.offset as int;
    let e = cur.end as int;
    let dh = spec_directory_header_at(b, i);
    let hdr_cur = Cursor { offset: (i + 84) as usize, end: cur.end };
    let n = dh.directory_chunk_size as int;
    let cnt = dh.total_directory_chunk_count as int;
    &&& dh_result_matches(b, cur, Ok((hdr_cur, dh)))
    &&& dl.header == dh
    &&& match spec_chunks(b, i + 84, e, n, cnt) {
        DirChunksResult::Chunks(s, _) => dl.entries@.map_values(|c: ListingChunk| c@) == s,
        DirChunksResult::Fail(_, _) => false,
    }
}

/// Exactly when each outcome of [`DirectoryListing::parse`] occurs and what
/// it carries. A failing chunk is reported at its own starting offset; a
/// chunk that begins with neither tag, or does not fit in the window, is
/// reported as a failed index chunk, the last alternative tried.
pub open spec fn dl_result_matches(
    b: Seq<u8>,
    cur: Cursor,
    r: Result<(Cursor, DirectoryListing), ParseDirectoryListingError>,
) -> bool {
    let i = cur.offset as int;
    let e = cur.end as int;
    let dh = spec_directory_header_at(b, i);
    let hdr_cur = Cursor { offset: (i + 84) as usize, end: cur.end };
    let n = dh.directory_chunk_size as int;
    let cnt = dh.total_directory_chunk_count as int;
    match r {
        Ok(p) => {
            &&& dl_ok_matches(b, cur, p.1)
            &&& match spec_chunks(b, i + 84, e, n, cnt) {
                DirChunksResult::Chunks(_, fin) => p.0 == (Cursor {
                    offset: fin as usize,
                    end: cur.end,
                }),
                DirChunksResult::Fail(_, _) => false,
            }
        },
        Err(ParseDirectoryListingError::DirectoryHeaderParse { source }) => dh_result_matches(
            b,
            cur,
            Err(source),
        ),
        Err(ParseDirectoryListingError::ListingChunkParse { offset, source }) => {
            &&& dh_result_matches(b, cur, Ok((hdr_cur, dh)))
            &&& spec_chunks(b, i + 84, e, n, cnt) matches DirChunksResult::Fail(o, _) && o
                == offset
            &&& lc_result_matches(
                b,
                Cursor { offset, end: cur.end },
                dh.directory_chunk_size as usize,
                Err(source),
            )
        },
        Err(ParseDirectoryListingError::IndexChunkParse { offset, source }) => {
            &&& dh_result_matches(b, cur, Ok((hdr_cur, dh)))
            &&& spec_chunks(b, i + 84, e, n, cnt) matches DirChunksResult::Fail(o, _) && o
                == offset
            &&& ic_result_matches(
                b,
                Cursor { offset, end: cur.end },
                dh.directory_chunk_size as usize,
                Err(source),
            )
        },
    }
}

/// Decodes the one chunk whose `chunk_size` bytes start at the cursor: a
/// peek at the tag picks the listing or the index decoder. A chunk that
/// does not fit in the window, or begins with neither tag, is reported as a
/// failed index chunk, the last alternative tried.
fn parse_one_chunk(chunk_size: usize, buf: &[u8], c: Cursor) -> (r: Result<
    (Cursor, Option<ListingChunk>),
    ParseDirectoryListingError,
>)
    requires
        c.wf(buf@),
    ensures
        ({
            let b = buf@;
            let i = c.offset as int;
            let e = c.end as int;
            let n = chunk_size as int;
            match r {
                Ok(p) => {
                    &&& p.0 == (Cursor { offset: (i + n) as usize, end: c.end })
                    &&& match p.1 {
                        Some(chunk) => spec_chunk(b, i, e, n) == ChunkStep::Listing(chunk@),
                        None => spec_chunk(b, i, e, n) == ChunkStep::Index,
                    }
                },
                Err(ParseDirectoryListingError::ListingChunkParse { offset, source }) => {
                    &&& spec_chunk(b, i, e, n) is Fail
                    &&& offset == c.offset
                    &&& lc_result_matches(b, c, chunk_size, Err(source))
                },
                Err(ParseDirectoryListingError::IndexChunkParse { offset, source }) => {
                    &&& spec_chunk(b, i, e, n) is Fail
                    &&& offset == c.offset
                    &&& ic_result_matches(b, c, chunk_size, Err(source))
                },
                Err(ParseDirectoryListingError::DirectoryHeaderParse { .. }) => false,
            }
        }),
{
    let ghost b = buf@;
    let ghost i = c.offset as int;
    let ghost e = c.end as int;
    let ghost n = chunk_size as int;
    if c.end - c.offset < chunk_size {
        return Err(ParseDirectoryListingError::IndexChunkParse {
            offset: c.offset,
            source: ParseIndexChunkError::ChunkOutOfBounds { offset: c.offset, chunk_size },
        });
    }
    let mut pmgl: Vec<u8> = Vec::new();
    pmgl.push(0x50);
    pmgl.push(0x4D);
    pmgl.push(0x47);
    pmgl.push(0x4C);
    let mut pmgi: Vec<u8> = Vec::new();
    pmgi.push(0x50);
    pmgi.push(0x4D);
    pmgi.push(0x47);
    pmgi.push(0x49);
    proof {
        assert(pmgl@ =~= pmgl_tag());
        assert(pmgi@ =~= pmgi_tag());
    }
    let is_listing = chunk_size >= 4 && bytes_eq_at(buf, c.offset, pmgl.as_slice());
    let is_index = !is_listing && chunk_size >= 4 && bytes_eq_at(buf, c.offset, pmgi.as_slice());
    if is_listing {
        match ListingChunk::parse(chunk_size, buf, c) {
            Ok((c2, chunk)) => {
                proof {
                    assert(spec_chunk(b, i, e, n) == ChunkStep::Listing(chunk@));
                }
                Ok((c2, Some(chunk)))
            },
            Err(source) => {
                Err(ParseDirectoryListingError::ListingChunkParse { offset: c.offset, source })
            },
        }
    } else if is_index {
        match parse_index_chunk(chunk_size, buf, c) {
            Ok(c2) => {
                proof {
                    assert(spec_chunk(b, i, e, n) == ChunkStep::Index);
                }
                Ok((c2, None))
            },
            Err(source) => {
                Err(ParseDirectoryListingError::IndexChunkParse { offset: c.offset, source })
            },
        }
    } else {
        // neither tag matches: report the index attempt, the last
        // alternative tried
        proof {
            assert(spec_chunk(b, i, e, n) == ChunkStep::Fail(ChunkFail::BadTag));
        }
        Err(ParseDirectoryListingError::IndexChunkParse {
            offset: c.offset,
            source: ParseIndexChunkError::InvalidTag { offset: c.offset, expected: pmgi },
        })
    }
}

impl DirectoryListing {
    /// Decodes the directory header and then exactly its declared number of
    /// chunks, each of exactly its declared size, keeping the listing
    /// chunks.
    #[verifier::loop_isolation(false)]
    pub fn parse(buf: &[u8], cur: Cursor) -> (r: Result<
        (Cursor, DirectoryListing),
        ParseDirectoryListingError,
    >)
        requires
            cur.wf(buf@),
        ensures
            dl_result_matches(buf@, cur, r),
    {
        let ghost b = buf@;
        let ghost i = cur.offset as int;
        let ghost e = cur.end as int;
        let (c0, header) = match DirectoryHeader::parse(buf, cur) {
            Ok(p) => p,
            Err(source) => {
                return Err(ParseDirectoryListingError::DirectoryHeaderParse { source });
            },
        };
        let chunk_size = header.directory_chunk_size as usize;
        let ghost n = chunk_size as int;
        let cnt = header.total_directory_chunk_count;
        let mut entries: Vec<ListingChunk> = Vec::new();
        let mut c = c0;
        let mut k: u32 = 0;
        while k < cnt
            invariant
                k <= cnt,
                c.end == cur.end,
                c.offset <= c.end,
                spec_chunks(b, i + 84, e, n, cnt as int) == prepend_chunks(
                    entries@.map_values(|ch: ListingChunk| ch@),
                    spec_chunks(b, c.offset as int, e, n, cnt - k),
                ),
            decreases cnt - k,
        {
            let ghost prefix = entries@.map_values(|ch: ListingChunk| ch@);
            match parse_one_chunk(chunk_size, buf, c) {
                Ok((c2, Some(chunk))) => {
                    proof {
                        assert(entries@.push(chunk).map_values(|ch: ListingChunk| ch@)
                            =~= prefix.push(chunk@));
                        match spec_chunks(b, c2.offset as int, e, n, cnt - k - 1) {
                            DirChunksResult::Chunks(rest, _) => {
                                assert(prefix + (seq![chunk@] + rest) =~= prefix.push(chunk@)
                                    + rest);
                            },
                            DirChunksResult::Fail(_, _) => {},
                        }
                    }
                    entries.push(chunk);
                    c = c2;
                },
                Ok((c2, None)) => {
                    c = c2;
                },
                Err(err) => {
                    return Err(err);
                },
            }
            k = k + 1;
        }
        proof {
            let prefix = entries@.map_values(|ch: ListingChunk| ch@);
            assert(prefix + Seq::<ListingChunkSpec>::empty() =~= prefix);
        }
        Ok((c, DirectoryListing { header, entries }))
    }
}

} // verus!
