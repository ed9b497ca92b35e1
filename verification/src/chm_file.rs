//! The decoded container: entry table and content resolution.
//!
//! After the file head is decoded, the listing entries of every listing
//! chunk are folded, in order, into a table from entry name to content
//! location; a later entry with the same name wins. Loading then reads the
//! name list (itself a directory entry in content section 0) and, when an
//! MSCompressed section is declared, records the raw byte range of its
//! content entry for an external decompressor; this decoder never
//! decompresses anything itself.

use vstd::prelude::*;

use crate::chm_file_head::{cfh_result_matches, spec_resolved_cs0, ChmFileHead,
    ParseChmFileHeadError};
use crate::cursor::{bytes_eq, copy_range, Cursor};
use crate::directory_listing::listing_chunk::{ListingChunk, ListingChunkEntry,
    ListingChunkEntrySpec, ListingChunkSpec};
use crate::directory_listing::{spec_chunks, DirChunksResult};
use crate::header::spec_header_at;
use crate::name_list::{nl_result_matches, spec_name_list_ok, spec_name_list_value, NameList,
    ParseNameListError};

verus! {

/// The bytes of a block-compressed content section: still raw, or already
/// decompressed by the external decompressor.
#[derive(Debug, Clone, PartialEq, Eq)]
pub enum CompressedContentSection {
    Raw(Cursor),
    Decompressed(Vec<u8>),
}

/// Where a named entry's content lives: in which content section, at which
/// offset within it, and how long it is.
#[derive(Debug, Clone, Copy, PartialEq, Eq, Structural)]
pub struct FileEntry {
    pub content_section: u64,
    pub content_section_offset: u64,
    pub content_length: u64,
}

impl From<ListingChunkEntry> for FileEntry {
    /// A file entry is a listing entry with its name dropped.
    fn from(entry: ListingChunkEntry) -> (r: FileEntry) {
        FileEntry {
            content_section: entry.content_section,
            content_section_offset: entry.content_section_offset,
            content_length: entry.content_length,
        }
    }
}

impl vstd::std_specs::convert::FromSpecImpl<ListingChunkEntry> for FileEntry {
    open spec fn obeys_from_spec() -> bool {
        true
    }

    open spec fn from_spec(entry: ListingChunkEntry) -> FileEntry {
        FileEntry {
            content_section: entry.content_section,
            content_section_offset: entry.content_section_offset,
            content_length: entry.content_length,
        }
    }
}

#[derive(Debug, Clone, Copy, PartialEq, Eq, Structural)]
pub enum GetPosForFileError {
    FileNotFound,
    FileOutOfBounds,
    FileInInvalidContentSection,
}

#[derive(Debug, Clone)]
pub enum ParseChmFileError {
    ParseChmFileHead { source: ParseChmFileHeadError },
    MissingContentSectionNameList,
    ContentSectionNameListNotInContentSection0,
    NameListOutOfBounds,
    ParseNameList { source: ParseNameListError },
    PopulateContentSections { source: GetPosForFileError },
}

/// The fixed name of the directory entry that holds the name list.
pub open spec fn name_list_key() -> Seq<u8> {
    seq![0x3Au8, 0x3Au8, 0x44u8, 0x61u8, 0x74u8, 0x61u8, 0x53u8, 0x70u8, 0x61u8, 0x63u8, 0x65u8,
        0x2Fu8, 0x4Eu8, 0x61u8, 0x6Du8, 0x65u8, 0x4Cu8, 0x69u8, 0x73u8, 0x74u8]
}

/// The fixed name of the directory entry that holds the compressed
/// section's content.
pub open spec fn ms_content_key() -> Seq<u8> {
    seq![0x3Au8, 0x3Au8, 0x44u8, 0x61u8, 0x74u8, 0x61u8, 0x53u8, 0x70u8, 0x61u8, 0x63u8, 0x65u8,
        0x2Fu8, 0x53u8, 0x74u8, 0x6Fu8, 0x72u8, 0x61u8, 0x67u8, 0x65u8, 0x2Fu8, 0x4Du8, 0x53u8,
        0x43u8, 0x6Fu8, 0x6Du8, 0x70u8, 0x72u8, 0x65u8, 0x73u8, 0x73u8, 0x65u8, 0x64u8, 0x2Fu8,
        0x43u8, 0x6Fu8, 0x6Eu8, 0x74u8, 0x65u8, 0x6Eu8, 0x74u8]
}

/// `::DataSpace/NameList` as a byte vector.
pub fn name_list_key_vec() -> (v: Vec<u8>)
    ensures
        v@ == name_list_key(),
{
    let mut v: Vec<u8> = Vec::new();
    v.push(0x3A);
    v.push(0x3A);
    v.push(0x44);
    v.push(0x61);
    v.push(0x74);
    v.push(0x61);
    v.push(0x53);
    v.push(0x70);
    v.push(0x61);
    v.push(0x63);
    v.push(0x65);
    v.push(0x2F);
    v.push(0x4E);
    v.push(0x61);
    v.push(0x6D);
    v.push(0x65);
    v.push(0x4C);
    v.push(0x69);
    v.push(0x73);
    v.push(0x74);
    proof {
        assert(v@ =~= name_list_key());
    }
    v
}

/// `::DataSpace/Storage/MSCompressed/Content` as a byte vector.
pub fn ms_content_key_vec() -> (v: Vec<u8>)
    ensures
        v@ == ms_content_key(),
{
    let mut v: Vec<u8> = Vec::new();
    v.push(0x3A);
    v.push(0x3A);
    v.push(0x44);
    v.push(0x61);
    v.push(0x74);
    v.push(0x61);
    v.push(0x53);
    v.push(0x70);
    v.push(0x61);
    v.push(0x63);
    v.push(0x65);
    v.push(0x2F);
    v.push(0x53);
    v.push(0x74);
    v.push(0x6F);
    v.push(0x72);
    v.push(0x61);
    v.push(0x67);
    v.push(0x65);
    v.push(0x2F);
    v.push(0x4D);
    v.push(0x53);
    v.push(0x43);
    v.push(0x6F);
    v.push(0x6D);
    v.push(0x70);
    v.push(0x72);
    v.push(0x65);
    v.push(0x73);
    v.push(0x73);
    v.push(0x65);
    v.push(0x64);
    v.push(0x2F);
    v.push(0x43);
    v.push(0x6F);
    v.push(0x6E);
    v.push(0x74);
    v.push(0x65);
    v.push(0x6E);
    v.push(0x74);
    proof {
        assert(v@ =~= ms_content_key());
    }
    v
}

/// The mathematical image of one table pair.
pub open spec fn pair_view(p: (Vec<u8>, FileEntry)) -> (Seq<u8>, FileEntry) {
    (p.0@, p.1)
}

/// The table pair a decoded listing entry contributes.
pub open spec fn spec_entry_pair(e: ListingChunkEntrySpec) -> (Seq<u8>, FileEntry) {
    (
        e.name,
        FileEntry {
            content_section: e.content_section as u64,
            content_section_offset: e.content_section_offset as u64,
            content_length: e.content_length as u64,
        },
    )
}

/// All table pairs of a chunk sequence, in chunk order and in-chunk order.
pub open spec fn spec_flat_entries(chunks: Seq<ListingChunkSpec>) -> Seq<(Seq<u8>, FileEntry)>
    decreases chunks.len(),
{
    if chunks.len() == 0 {
        Seq::empty()
    } else {
        spec_flat_entries(chunks.drop_last()) + chunks.last().entries.map_values(
            |e: ListingChunkEntrySpec| spec_entry_pair(e),
        )
    }
}

/// Folds an ordered pair sequence into a name-keyed table; a later pair
/// with the same name overwrites an earlier one.
pub open spec fn spec_assoc_map(s: Seq<(Seq<u8>, FileEntry)>) -> Map<Seq<u8>, FileEntry>
    decreases s.len(),
{
    if s.len() == 0 {
        Map::empty()
    } else {
        spec_assoc_map(s.drop_last()).insert(s.last().0, s.last().1)
    }
}

/// A name absent from the pairs of `s` from index `i` on is resolved by the
/// pairs before `i` alone.
proof fn lemma_assoc_map_skip(s: Seq<(Seq<u8>, FileEntry)>, n: Seq<u8>, i: int)
    requires
        0 <= i <= s.len(),
        forall|j: int| i <= j < s.len() ==> s[j].0 != n,
    ensures
        spec_assoc_map(s).contains_key(n) == spec_assoc_map(s.take(i)).contains_key(n),
        spec_assoc_map(s).contains_key(n) ==> spec_assoc_map(s)[n] == spec_assoc_map(s.take(i))[n],
    decreases s.len() - i,
{
    if i == s.len() {
        assert(s.take(i) =~= s);
    } else {
        assert(s[s.len() - 1].0 != n);
        let s1 = s.drop_last();
        lemma_assoc_map_skip(s1, n, i);
        assert(s1.take(i) =~= s.take(i));
    }
}

/// Duplicate names: when several pairs share a name, the table resolves the
/// name to the last of them.
pub proof fn lemma_duplicate_names_last_wins(s: Seq<(Seq<u8>, FileEntry)>, j: int)
    requires
        0 <= j < s.len(),
        forall|k: int| j < k < s.len() ==> s[k].0 != s[j].0,
    ensures
        spec_assoc_map(s).contains_key(s[j].0),
        spec_assoc_map(s)[s[j].0] == s[j].1,
{
    lemma_assoc_map_skip(s, s[j].0, j + 1);
    let t = s.take(j + 1);
    assert(t.drop_last() =~= s.take(j));
    assert(t.last() == s[j]);
}

/// Looks a name up in the table; the latest pair with that name wins.
#[verifier::loop_isolation(false)]
fn lookup_entry(entries: &Vec<(Vec<u8>, FileEntry)>, name: &[u8]) -> (r: Option<FileEntry>)
    ensures
        ({
            let m = spec_assoc_map(entries@.map_values(|p: (Vec<u8>, FileEntry)| pair_view(p)));
            match r {
                Some(fe) => m.contains_key(name@) && m[name@] == fe,
                None => !m.contains_key(name@),
            }
        }),
{
    let ghost s = entries@.map_values(|p: (Vec<u8>, FileEntry)| pair_view(p));
    let mut i = entries.len();
    while i > 0
        invariant
            i <= entries.len(),
            forall|j: int| i <= j < s.len() ==> s[j].0 != name@,
        decreases i,
    {
        i = i - 1;
        if bytes_eq(entries[i].0.as_slice(), name) {
            proof {
                lemma_assoc_map_skip(s, name@, i + 1);
                let t = s.take(i + 1);
                assert(t.drop_last() =~= s.take(i as int));
                assert(t.last() == s[i as int]);
            }
            return Some(entries[i].1);
        }
    }
    proof {
        lemma_assoc_map_skip(s, name@, 0);
        assert(s.take(0) =~= Seq::<(Seq<u8>, FileEntry)>::empty());
    }
    None
}

/// The decoded container: the structures of the file head, the name-keyed
/// entry table, and — once loaded — the located compressed section.
#[derive(Debug, Clone, PartialEq, Eq)]
pub struct ChmFile {
    pub head: ChmFileHead,
    pub file_entries: Vec<(Vec<u8>, FileEntry)>,
    pub compressed_content_section: Option<CompressedContentSection>,
}

/// The entry table a buffer decodes to: every listing entry of every
/// listing chunk, later entries winning.
pub open spec fn spec_chm_entries(b: Seq<u8>) -> Seq<(Seq<u8>, FileEntry)> {
    let h = spec_header_at(b, 0);
    let dl_cur = crate::chm_file_head::spec_section_cursor(
        h.header_section_table.directory_listing_entry,
    );
    let dh = crate::directory_listing::directory_header::spec_directory_header_at(
        b,
        dl_cur.offset as int,
    );
    match spec_chunks(
        b,
        dl_cur.offset + 84,
        dl_cur.end as int,
        dh.directory_chunk_size as int,
        dh.total_directory_chunk_count as int,
    ) {
        DirChunksResult::Chunks(s, _) => spec_flat_entries(s),
        DirChunksResult::Fail(_, _) => Seq::empty(),
    }
}

/// The name-keyed table a buffer decodes to.
pub open spec fn spec_chm_map(b: Seq<u8>) -> Map<Seq<u8>, FileEntry> {
    spec_assoc_map(spec_chm_entries(b))
}

impl ChmFile {
    /// The table this container resolves names against.
    pub open spec fn entries_map(self) -> Map<Seq<u8>, FileEntry> {
        spec_assoc_map(self.file_entries@.map_values(|p: (Vec<u8>, FileEntry)| pair_view(p)))
    }
}

/// Exactly when each outcome of [`ChmFile::parse`] occurs and what it
/// carries.
pub open spec fn chm_parse_matches(b: Seq<u8>, r: Result<ChmFile, ParseChmFileError>) -> bool {
    match r {
        Ok(f) => {
            &&& cfh_result_matches(b, Ok(f.head))
            &&& f.file_entries@.map_values(|p: (Vec<u8>, FileEntry)| pair_view(p))
                == spec_chm_entries(b)
            &&& f.compressed_content_section is None
        },
        Err(ParseChmFileError::ParseChmFileHead { source }) => cfh_result_matches(b, Err(source)),
        Err(_) => false,
    }
}

/// Exactly when each outcome of looking a name up in a table occurs and
/// what it carries: names in content section 0 resolve to an absolute byte
/// range checked against the buffer length, names elsewhere are not
/// resolved here, and a range past the end of the buffer is refused.
pub open spec fn gpf_result_matches(
    blen: int,
    m: Map<Seq<u8>, FileEntry>,
    cs0: int,
    name: Seq<u8>,
    r: Result<Cursor, GetPosForFileError>,
) -> bool {
    match r {
        Ok(c) => {
            &&& m.contains_key(name)
            &&& m[name].content_section == 0
            &&& cs0 + m[name].content_section_offset + m[name].content_length <= blen
            &&& c == (Cursor {
                offset: (cs0 + m[name].content_section_offset) as usize,
                end: (cs0 + m[name].content_section_offset + m[name].content_length) as usize,
            })
        },
        Err(GetPosForFileError::FileNotFound) => !m.contains_key(name),
        Err(GetPosForFileError::FileInInvalidContentSection) => {
            &&& m.contains_key(name)
            &&& m[name].content_section != 0
        },
        Err(GetPosForFileError::FileOutOfBounds) => {
            &&& m.contains_key(name)
            &&& m[name].content_section == 0
            &&& cs0 + m[name].content_section_offset + m[name].content_length > blen
        },
    }
}

/// Exactly when each outcome of locating the extra content sections occurs:
/// `m` and `cs0` are the table and resolved section-0 offset of the decoded
/// file, `comp0` the compressed-section field before and `comp` the one
/// after.
pub open spec fn populate_matches(
    b: Seq<u8>,
    m: Map<Seq<u8>, FileEntry>,
    cs0: int,
    comp0: Option<CompressedContentSection>,
    r: Result<(), ParseChmFileError>,
    comp: Option<CompressedContentSection>,
) -> bool {
    let blen = b.len() as int;
    let nk = name_list_key();
    let nl_e = m[nk];
    let nl_cur = Cursor {
        offset: (cs0 + nl_e.content_section_offset) as usize,
        end: (cs0 + nl_e.content_section_offset + nl_e.content_length) as usize,
    };
    let nl_pos_ok = m.contains_key(nk) && nl_e.content_section == 0 && cs0
        + nl_e.content_section_offset + nl_e.content_length <= blen;
    let ck = ms_content_key();
    let c_e = m[ck];
    let c_cur = Cursor {
        offset: (cs0 + c_e.content_section_offset) as usize,
        end: (cs0 + c_e.content_section_offset + c_e.content_length) as usize,
    };
    match r {
        Ok(()) => {
            &&& nl_pos_ok
            &&& spec_name_list_ok(b, nl_cur)
            &&& if spec_name_list_value(b, nl_cur).has_ms_compressed_section {
                &&& gpf_result_matches(blen, m, cs0, ck, Ok(c_cur))
                &&& comp == Some(CompressedContentSection::Raw(c_cur))
            } else {
                comp == comp0
            }
        },
        Err(ParseChmFileError::MissingContentSectionNameList) => !m.contains_key(nk),
        Err(ParseChmFileError::ContentSectionNameListNotInContentSection0) => {
            &&& m.contains_key(nk)
            &&& nl_e.content_section != 0
        },
        Err(ParseChmFileError::NameListOutOfBounds) => {
            &&& m.contains_key(nk)
            &&& nl_e.content_section == 0
            &&& cs0 + nl_e.content_section_offset + nl_e.content_length > blen
        },
        Err(ParseChmFileError::ParseNameList { source }) => {
            &&& nl_pos_ok
            &&& nl_result_matches(b, nl_cur, Err(source))
        },
        Err(ParseChmFileError::PopulateContentSections { source }) => {
            &&& nl_pos_ok
            &&& spec_name_list_ok(b, nl_cur)
            &&& spec_name_list_value(b, nl_cur).has_ms_compressed_section
            &&& gpf_result_matches(blen, m, cs0, ck, Err(source))
        },
        Err(ParseChmFileError::ParseChmFileHead { .. }) => false,
    }
}

impl ChmFile {
    /// Decodes the file head and folds every listing entry into the entry
    /// table, later entries with the same name overwriting earlier ones.
    /// The extra content sections are not located yet.
    #[verifier::loop_isolation(false)]
    pub fn parse(file: &[u8]) -> (r: Result<ChmFile, ParseChmFileError>)
        ensures
            chm_parse_matches(file@, r),
    {
        let ghost b = file@;
        let head = match ChmFileHead::parse(file) {
            Ok(h) => h,
            Err(source) => { return Err(ParseChmFileError::ParseChmFileHead { source }) },
        };
        let ghost cview = head.directory_listing.entries@.map_values(|c: ListingChunk| c@);
        let mut file_entries: Vec<(Vec<u8>, FileEntry)> = Vec::new();
        let chunk_count = head.directory_listing.entries.len();
        let mut k: usize = 0;
        while k < chunk_count
            invariant
                k <= chunk_count,
                file_entries@.map_values(|p: (Vec<u8>, FileEntry)| pair_view(p))
                    == spec_flat_entries(cview.take(k as int)),
            decreases chunk_count - k,
        {
            let chunk = &head.directory_listing.entries[k];
            let entry_count = chunk.entries.len();
            let mut j: usize = 0;
            while j < entry_count
                invariant
                    j <= entry_count,
                    k < chunk_count,
                    entry_count == chunk.entries@.len(),
                    chunk == &head.directory_listing.entries[k as int],
                    file_entries@.map_values(|p: (Vec<u8>, FileEntry)| pair_view(p))
                        == spec_flat_entries(cview.take(k as int)) + cview[k as int].entries.take(
                        j as int,
                    ).map_values(|e: ListingChunkEntrySpec| spec_entry_pair(e)),
                decreases entry_count - j,
            {
                let e = &chunk.entries[j];
                let name = copy_range(e.name.as_slice(), 0, e.name.len());
                let fe = FileEntry {
                    content_section: e.content_section,
                    content_section_offset: e.content_section_offset,
                    content_length: e.content_length,
                };
                proof {
                    let old_pairs = file_entries@.map_values(
                        |p: (Vec<u8>, FileEntry)| pair_view(p),
                    );
                    assert(name@ =~= e.name@);
                    assert(file_entries@.push((name, fe)).map_values(
                        |p: (Vec<u8>, FileEntry)| pair_view(p),
                    ) =~= old_pairs.push(pair_view((name, fe))));
                    assert(cview[k as int].entries[j as int] == chunk.entries[j as int]@);
                    assert(pair_view((name, fe)) == spec_entry_pair(
                        cview[k as int].entries[j as int],
                    ));
                    assert(cview[k as int].entries.take(j + 1).map_values(
                        |x: ListingChunkEntrySpec| spec_entry_pair(x),
                    ) =~= cview[k as int].entries.take(j as int).map_values(
                        |x: ListingChunkEntrySpec| spec_entry_pair(x),
                    ).push(spec_entry_pair(cview[k as int].entries[j as int])));
                    assert(old_pairs.push(pair_view((name, fe))) =~= spec_flat_entries(
                        cview.take(k as int),
                    ) + cview[k as int].entries.take(j + 1).map_values(
                        |x: ListingChunkEntrySpec| spec_entry_pair(x),
                    ));
                }
                file_entries.push((name, fe));
                j = j + 1;
            }
            proof {
                assert(cview.take(k + 1).drop_last() =~= cview.take(k as int));
                assert(cview.take(k + 1).last() == cview[k as int]);
                assert(cview[k as int].entries.take(j as int) =~= cview[k as int].entries);
            }
            k = k + 1;
        }
        proof {
            assert(cview.take(chunk_count as int) =~= cview);
        }
        Ok(ChmFile { head, file_entries, compressed_content_section: None })
    }

    /// Every entry name known from the directory listing, in listing
    /// order; a name recorded by several entries appears once per entry.
    #[verifier::loop_isolation(false)]
    pub fn entry_names(&self) -> (r: Vec<Vec<u8>>)
        ensures
            r@.map_values(|n: Vec<u8>| n@) == self.file_entries@.map_values(
                |p: (Vec<u8>, FileEntry)| p.0@,
            ),
    {
        let ghost names = self.file_entries@.map_values(|p: (Vec<u8>, FileEntry)| p.0@);
        let mut r: Vec<Vec<u8>> = Vec::new();
        let mut i: usize = 0;
        while i < self.file_entries.len()
            invariant
                i <= self.file_entries@.len(),
                r@.map_values(|n: Vec<u8>| n@) == names.take(i as int),
            decreases self.file_entries@.len() - i,
        {
            let name = &self.file_entries[i].0;
            let copy = copy_range(name.as_slice(), 0, name.len());
            proof {
                assert(copy@ =~= name@);
                assert(r@.push(copy).map_values(|n: Vec<u8>| n@) =~= r@.map_values(
                    |n: Vec<u8>| n@,
                ).push(copy@));
                assert(names.take(i + 1) =~= names.take(i as int).push(names[i as int]));
            }
            r.push(copy);
            i = i + 1;
        }
        proof {
            assert(names.take(self.file_entries@.len() as int) =~= names);
        }
        r
    }

    /// Resolves a named entry to the absolute byte range of its content
    /// within the uncompressed section. A name that is absent, that lives
    /// in another content section, or whose stored location leaves the
    /// buffer is refused, each distinctly.
    pub fn get_pos_for_file(&self, file: &[u8], file_name: &[u8]) -> (r: Result<
        Cursor,
        GetPosForFileError,
    >)
        ensures
            gpf_result_matches(
                file@.len() as int,
                self.entries_map(),
                self.head.actual_offset_content_section_0 as int,
                file_name@,
                r,
            ),
            r matches Ok(c) ==> c.wf(file@),
    {
        let flen = file.len();
        let entry = match lookup_entry(&self.file_entries, file_name) {
            Some(e) => e,
            None => { return Err(GetPosForFileError::FileNotFound) },
        };
        if entry.content_section != 0 {
            return Err(GetPosForFileError::FileInInvalidContentSection);
        }
        let cs0 = self.head.actual_offset_content_section_0;
        let start = match cs0.checked_add(entry.content_section_offset) {
            Some(s) => s,
            None => { return Err(GetPosForFileError::FileOutOfBounds) },
        };
        let end = match start.checked_add(entry.content_length) {
            Some(e) => e,
            None => { return Err(GetPosForFileError::FileOutOfBounds) },
        };
        if end > flen as u64 {
            return Err(GetPosForFileError::FileOutOfBounds);
        }
        Ok(Cursor { offset: start as usize, end: end as usize })
    }

    /// Reads the name list and, when it declares the MSCompressed section,
    /// records the raw byte range of that section's content entry for the
    /// external decompressor.
    fn populate_extra_content_sections(&mut self, file: &[u8]) -> (r: Result<
        (),
        ParseChmFileError,
    >)
        ensures
            final(self).head == old(self).head,
            final(self).file_entries == old(self).file_entries,
            populate_matches(
                file@,
                old(self).entries_map(),
                old(self).head.actual_offset_content_section_0 as int,
                old(self).compressed_content_section,
                r,
                final(self).compressed_content_section,
            ),
    {
        let nl_key = name_list_key_vec();
        let nl_cur = match self.get_pos_for_file(file, nl_key.as_slice()) {
            Ok(c) => c,
            Err(GetPosForFileError::FileNotFound) => {
                return Err(ParseChmFileError::MissingContentSectionNameList);
            },
            Err(GetPosForFileError::FileOutOfBounds) => {
                return Err(ParseChmFileError::NameListOutOfBounds);
            },
            Err(GetPosForFileError::FileInInvalidContentSection) => {
                return Err(ParseChmFileError::ContentSectionNameListNotInContentSection0);
            },
        };
        let (_, name_list) = match NameList::parse(file, nl_cur) {
            Ok(p) => p,
            Err(source) => { return Err(ParseChmFileError::ParseNameList { source }) },
        };
        if name_list.has_ms_compressed_section {
            let content_key = ms_content_key_vec();
            let c_cur = match self.get_pos_for_file(file, content_key.as_slice()) {
                Ok(c) => c,
                Err(source) => {
                    return Err(ParseChmFileError::PopulateContentSections { source });
                },
            };
            self.compressed_content_section = Some(CompressedContentSection::Raw(c_cur));
        }
        Ok(())
    }

    /// Decodes a whole container from one in-memory buffer: the file head,
    /// the entry table, the name list, and the location of the compressed
    /// section when one is declared.
    pub fn load(file: &[u8]) -> (r: Result<ChmFile, ParseChmFileError>)
        ensures
            ({
                let b = file@;
                let m = spec_chm_map(b);
                let cs0 = spec_resolved_cs0(b);
                match r {
                    Ok(f) => {
                        &&& chm_parse_matches(
                            b,
                            Ok(
                                ChmFile {
                                    head: f.head,
                                    file_entries: f.file_entries,
                                    compressed_content_section: None,
                                },
                            ),
                        )
                        &&& populate_matches(b, m, cs0, None, Ok(()), f.compressed_content_section)
                    },
                    Err(ParseChmFileError::ParseChmFileHead { source }) => cfh_result_matches(
                        b,
                        Err(source),
                    ),
                    Err(e) => populate_matches(b, m, cs0, None, Err(e), None),
                }
            }),
    {
        let mut chm_file = ChmFile::parse(file)?;
        proof {
            assert(chm_file.entries_map() =~= spec_chm_map(file@));
        }
        match chm_file.populate_extra_content_sections(file) {
            Ok(()) => Ok(chm_file),
            Err(e) => Err(e),
        }
    }
}

} // verus!
