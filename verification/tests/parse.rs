use chmparse::chm_file::{
    ChmFile, CompressedContentSection, GetPosForFileError, ParseChmFileError,
};
use chmparse::chm_file_head::{get_header_section_data, ParseChmFileHeadError};
use chmparse::cursor::Cursor;
use chmparse::directory_listing::directory_header::{DirectoryHeader, DirectoryHeaderParseError};
use chmparse::directory_listing::index_chunk::parse_index_chunk;
use chmparse::directory_listing::listing_chunk::{
    ListingChunk, ParseListingChunkEntryError, ParseListingChunkError,
};
use chmparse::directory_listing::{DirectoryListing, ParseDirectoryListingError};
use chmparse::header::{Header, HeaderSectionTableEntry, ParseHeaderError};
use chmparse::header_section_0::{HeaderSection0, ParseHeaderSection0Error};
use chmparse::name_list::{NameList, ParseNameListError};
use chmparse::uuid::{parse_exact_uuid, ParseExactUuidError};

const HEADER_GUID_1: [u8; 16] = [
    0x10, 0xFD, 0x01, 0x7C, 0xAA, 0x7B, 0xD0, 0x11, 0x9E, 0x0C, 0x00, 0xA0, 0xC9, 0x22, 0xE6, 0xEC,
];
const HEADER_GUID_2: [u8; 16] = [
    0x11, 0xFD, 0x01, 0x7C, 0xAA, 0x7B, 0xD0, 0x11, 0x9E, 0x0C, 0x00, 0xA0, 0xC9, 0x22, 0xE6, 0xEC,
];
const DIRECTORY_HEADER_GUID: [u8; 16] = [
    0x6A, 0x92, 0x02, 0x5D, 0x2E, 0x21, 0xD0, 0x11, 0x9D, 0xF9, 0x00, 0xA0, 0xC9, 0x22, 0xE6, 0xEC,
];

const CHUNK_SIZE: usize = 128;
const HEADER_LEN: usize = 96;
const HS0_OFF: usize = 96;
const DL_OFF: usize = 120;

fn encint(v: u64) -> Vec<u8> {
    let mut groups = vec![(v & 0x7F) as u8];
    let mut rest = v >> 7;
    while rest != 0 {
        groups.push((rest & 0x7F) as u8 | 0x80);
        rest >>= 7;
    }
    groups.reverse();
    groups
}

fn utf16(name: &str) -> Vec<u8> {
    name.encode_utf16().flat_map(|u| u.to_le_bytes()).collect()
}

/// The serialized name list: a leading length in 16-bit words, an entry
/// count, and each name length-prefixed and null-terminated.
fn name_list_bytes(names: &[&str]) -> Vec<u8> {
    let mut inner = Vec::new();
    inner.extend_from_slice(&(names.len() as u16).to_le_bytes());
    for name in names {
        let bytes = utf16(name);
        inner.extend_from_slice(&((bytes.len() / 2) as u16).to_le_bytes());
        inner.extend_from_slice(&bytes);
        inner.extend_from_slice(&[0, 0]);
    }
    let mut out = Vec::new();
    out.extend_from_slice(&((inner.len() / 2 + 1) as u16).to_le_bytes());
    out.extend_from_slice(&inner);
    out
}

fn listing_entry_bytes(name: &[u8], section: u64, offset: u64, length: u64) -> Vec<u8> {
    let mut out = Vec::new();
    out.extend_from_slice(&encint(name.len() as u64));
    out.extend_from_slice(name);
    out.extend_from_slice(&encint(section));
    out.extend_from_slice(&encint(offset));
    out.extend_from_slice(&encint(length));
    out
}

fn listing_chunk_bytes(entries: &[Vec<u8>]) -> Vec<u8> {
    let mut body = Vec::new();
    for e in entries {
        body.extend_from_slice(e);
    }
    let quickref = CHUNK_SIZE - 20 - body.len();
    let mut out = Vec::new();
    out.extend_from_slice(b"PMGL");
    out.extend_from_slice(&(quickref as u32).to_le_bytes());
    out.extend_from_slice(&0u32.to_le_bytes());
    out.extend_from_slice(&u32::MAX.to_le_bytes());
    out.extend_from_slice(&u32::MAX.to_le_bytes());
    out.extend_from_slice(&body);
    out.resize(CHUNK_SIZE, 0);
    out
}

fn index_chunk_bytes() -> Vec<u8> {
    let mut body = Vec::new();
    body.extend_from_slice(&encint(1));
    body.extend_from_slice(b"a");
    body.extend_from_slice(&encint(0));
    let quickref = CHUNK_SIZE - 8 - body.len();
    let mut out = Vec::new();
    out.extend_from_slice(b"PMGI");
    out.extend_from_slice(&(quickref as u32).to_le_bytes());
    out.extend_from_slice(&body);
    out.resize(CHUNK_SIZE, 0);
    out
}

fn directory_listing_bytes(chunks: &[Vec<u8>]) -> Vec<u8> {
    let mut out = Vec::new();
    out.extend_from_slice(b"ITSP");
    out.extend_from_slice(&1u32.to_le_bytes()); // version
    out.extend_from_slice(&84u32.to_le_bytes()); // directory header length
    out.extend_from_slice(&u32::MAX.to_le_bytes()); // reserved
    out.extend_from_slice(&(CHUNK_SIZE as u32).to_le_bytes());
    out.extend_from_slice(&2u32.to_le_bytes()); // quickref density
    out.extend_from_slice(&1u32.to_le_bytes()); // no index tree
    out.extend_from_slice(&u32::MAX.to_le_bytes()); // no root index chunk
    out.extend_from_slice(&0u32.to_le_bytes()); // first listing chunk
    out.extend_from_slice(&0u32.to_le_bytes()); // last listing chunk
    out.extend_from_slice(&u32::MAX.to_le_bytes()); // reserved
    out.extend_from_slice(&(chunks.len() as u32).to_le_bytes());
    out.extend_from_slice(&0x409u32.to_le_bytes()); // language id
    out.extend_from_slice(&DIRECTORY_HEADER_GUID);
    out.extend_from_slice(&84u32.to_le_bytes()); // header length again
    out.extend_from_slice(&u32::MAX.to_le_bytes());
    out.extend_from_slice(&u32::MAX.to_le_bytes());
    out.extend_from_slice(&u32::MAX.to_le_bytes());
    for chunk in chunks {
        out.extend_from_slice(chunk);
    }
    out
}

fn header_bytes(dl_len: usize, cs0: u64) -> Vec<u8> {
    let mut out = Vec::new();
    out.extend_from_slice(b"ITSF");
    out.extend_from_slice(&3u32.to_le_bytes()); // version
    out.extend_from_slice(&(HEADER_LEN as u32).to_le_bytes());
    out.extend_from_slice(&0u32.to_le_bytes());
    out.extend_from_slice(&0u32.to_le_bytes()); // timestamp
    out.extend_from_slice(&0x409u32.to_le_bytes()); // language id
    out.extend_from_slice(&HEADER_GUID_1);
    out.extend_from_slice(&HEADER_GUID_2);
    out.extend_from_slice(&(HS0_OFF as u64).to_le_bytes());
    out.extend_from_slice(&24u64.to_le_bytes());
    out.extend_from_slice(&(DL_OFF as u64).to_le_bytes());
    out.extend_from_slice(&(dl_len as u64).to_le_bytes());
    out.extend_from_slice(&cs0.to_le_bytes());
    out
}

fn hs0_bytes(file_size: u64) -> Vec<u8> {
    let mut out = Vec::new();
    out.extend_from_slice(&[0xFE, 0x01, 0x00, 0x00]);
    out.extend_from_slice(&0u32.to_le_bytes());
    out.extend_from_slice(&file_size.to_le_bytes());
    out.extend_from_slice(&0u32.to_le_bytes());
    out.extend_from_slice(&0u32.to_le_bytes());
    out
}

/// A whole synthetic container: header, header section 0, a directory
/// listing with the given chunks, and `content` as content section 0.
/// `size_delta` corrupts the stored file size.
fn build_file(chunks: &[Vec<u8>], content: &[u8], size_delta: i64) -> Vec<u8> {
    let dl = directory_listing_bytes(chunks);
    let cs0 = (DL_OFF + dl.len()) as u64;
    let total = DL_OFF + dl.len() + content.len();
    let mut out = header_bytes(dl.len(), cs0);
    out.extend_from_slice(&hs0_bytes((total as i64 + size_delta) as u64));
    out.extend_from_slice(&dl);
    out.extend_from_slice(content);
    assert_eq!(out.len(), total);
    out
}

/// The standard single-chunk file: "hello.txt" at offset 10, the name list
/// at offset 20 of content section 0.
fn minimal_file(name_list: &[&str], extra_entries: &[Vec<u8>]) -> Vec<u8> {
    let nl = name_list_bytes(name_list);
    let mut entries = vec![
        listing_entry_bytes(b"hello.txt", 0, 10, 5),
        listing_entry_bytes(b"::DataSpace/NameList", 0, 20, nl.len() as u64),
    ];
    entries.extend_from_slice(extra_entries);
    let mut content = vec![0u8; 20 + nl.len()];
    content[10..15].copy_from_slice(b"hello");
    content[20..].copy_from_slice(&nl);
    build_file(&[listing_chunk_bytes(&entries)], &content, 0)
}

#[test]
fn end_to_end_minimal_file_resolves_hello() {
    let file = minimal_file(&["Uncompressed"], &[]);
    let chm = ChmFile::load(&file).unwrap();
    let cs0 = DL_OFF + 84 + CHUNK_SIZE;
    let pos = chm.get_pos_for_file(&file, b"hello.txt").unwrap();
    assert_eq!(pos, Cursor { offset: cs0 + 10, end: cs0 + 15 });
    assert_eq!(&file[pos.offset..pos.end], b"hello");
    assert!(matches!(
        chm.get_pos_for_file(&file, b"not-there.txt"),
        Err(GetPosForFileError::FileNotFound)
    ));
}

#[test]
fn index_chunks_contribute_no_entries_but_must_parse() {
    let nl = name_list_bytes(&["Uncompressed"]);
    let entries = vec![
        listing_entry_bytes(b"hello.txt", 0, 10, 5),
        listing_entry_bytes(b"::DataSpace/NameList", 0, 20, nl.len() as u64),
    ];
    let mut content = vec![0u8; 20 + nl.len()];
    content[10..15].copy_from_slice(b"hello");
    content[20..].copy_from_slice(&nl);
    let file = build_file(
        &[listing_chunk_bytes(&entries), index_chunk_bytes()],
        &content,
        0,
    );
    let chm = ChmFile::load(&file).unwrap();
    let cs0 = DL_OFF + 84 + 2 * CHUNK_SIZE;
    let pos = chm.get_pos_for_file(&file, b"hello.txt").unwrap();
    assert_eq!(pos, Cursor { offset: cs0 + 10, end: cs0 + 15 });
}

#[test]
fn entry_names_are_enumerated_in_listing_order() {
    let file = minimal_file(&["Uncompressed"], &[]);
    let chm = ChmFile::load(&file).unwrap();
    assert_eq!(
        chm.entry_names(),
        vec![b"hello.txt".to_vec(), b"::DataSpace/NameList".to_vec()]
    );
}

#[test]
fn duplicate_names_resolve_to_the_later_entry() {
    let extra = vec![
        listing_entry_bytes(b"dup", 0, 1, 3),
        listing_entry_bytes(b"dup", 0, 7, 4),
    ];
    let file = minimal_file(&["Uncompressed"], &extra);
    let chm = ChmFile::load(&file).unwrap();
    let cs0 = DL_OFF + 84 + CHUNK_SIZE;
    let pos = chm.get_pos_for_file(&file, b"dup").unwrap();
    assert_eq!(pos, Cursor { offset: cs0 + 7, end: cs0 + 11 });
}

#[test]
fn missing_uncompressed_entry_is_fatal() {
    let file = minimal_file(&["MSCompressed"], &[]);
    assert!(matches!(
        ChmFile::load(&file),
        Err(ParseChmFileError::ParseNameList {
            source: ParseNameListError::MissingUncompressedSectionEntry
        })
    ));
    let empty = minimal_file(&[], &[]);
    assert!(matches!(
        ChmFile::load(&empty),
        Err(ParseChmFileError::ParseNameList {
            source: ParseNameListError::MissingUncompressedSectionEntry
        })
    ));
}

#[test]
fn declared_compressed_section_is_located_raw() {
    let nl = name_list_bytes(&["Uncompressed", "MSCompressed"]);
    let packed_off = 20 + nl.len();
    let entries = vec![
        listing_entry_bytes(b"hello.txt", 0, 10, 5),
        listing_entry_bytes(b"::DataSpace/NameList", 0, 20, nl.len() as u64),
        listing_entry_bytes(
            b"::DataSpace/Storage/MSCompressed/Content",
            0,
            packed_off as u64,
            8,
        ),
    ];
    let mut content = vec![0u8; packed_off + 8];
    content[10..15].copy_from_slice(b"hello");
    content[20..packed_off].copy_from_slice(&nl);
    let file = build_file(&[listing_chunk_bytes(&entries)], &content, 0);
    let chm = ChmFile::load(&file).unwrap();
    let cs0 = DL_OFF + 84 + CHUNK_SIZE;
    assert_eq!(
        chm.compressed_content_section,
        Some(CompressedContentSection::Raw(Cursor {
            offset: cs0 + packed_off,
            end: cs0 + packed_off + 8,
        }))
    );
}

#[test]
fn declared_compressed_section_without_content_entry_fails() {
    let file = minimal_file(&["Uncompressed", "MSCompressed"], &[]);
    assert!(matches!(
        ChmFile::load(&file),
        Err(ParseChmFileError::PopulateContentSections {
            source: GetPosForFileError::FileNotFound
        })
    ));
}

#[test]
fn file_size_mismatch_is_fatal() {
    let nl = name_list_bytes(&["Uncompressed"]);
    let entries = vec![listing_entry_bytes(b"::DataSpace/NameList", 0, 0, nl.len() as u64)];
    let file = build_file(&[listing_chunk_bytes(&entries)], &nl, 1);
    match ChmFile::load(&file) {
        Err(ParseChmFileError::ParseChmFileHead {
            source: ParseChmFileHeadError::ParseHeaderSection0 { source, .. },
        }) => {
            assert!(matches!(
                *source,
                ParseHeaderSection0Error::FileSizeMismatch { .. }
            ));
        },
        other => panic!("expected a file-size mismatch, got {:?}", other),
    }
}

#[test]
fn section_table_ranges_are_bounds_checked() {
    let buf = [0u8; 10];
    // overflowing offset + length
    assert!(matches!(
        get_header_section_data(
            "overflow",
            &buf,
            &HeaderSectionTableEntry { file_offset: u64::MAX, length: 2 },
        ),
        Err(ParseChmFileHeadError::OutOfBounds { what: "overflow" })
    ));
    // range past the end of the buffer
    assert!(matches!(
        get_header_section_data(
            "past the end",
            &buf,
            &HeaderSectionTableEntry { file_offset: 2, length: 9 },
        ),
        Err(ParseChmFileHeadError::OutOfBounds { .. })
    ));
    // a range that fits is returned as-is
    assert_eq!(
        get_header_section_data(
            "fits",
            &buf,
            &HeaderSectionTableEntry { file_offset: 2, length: 8 },
        )
        .unwrap(),
        Cursor { offset: 2, end: 10 },
    );
}

#[test]
fn pmgl_tag_decodes_as_listing_chunk() {
    let chunk = listing_chunk_bytes(&[listing_entry_bytes(b"a.txt", 0, 0, 1)]);
    let (after, parsed) = ListingChunk::parse(CHUNK_SIZE, &chunk, Cursor::new(&chunk)).unwrap();
    assert_eq!(after.offset, CHUNK_SIZE);
    assert_eq!(parsed.entries.len(), 1);
    assert_eq!(parsed.entries[0].name, b"a.txt");
    assert_eq!(parsed.entries[0].content_length, 1);
    assert_eq!(parsed.chunk_index_before, None);
    assert_eq!(parsed.chunk_index_after, None);
}

#[test]
fn pmgi_tag_decodes_as_index_chunk() {
    let chunk = index_chunk_bytes();
    let after = parse_index_chunk(CHUNK_SIZE, &chunk, Cursor::new(&chunk)).unwrap();
    assert_eq!(after.offset, CHUNK_SIZE);
    // an index chunk is not a listing chunk
    assert!(matches!(
        ListingChunk::parse(CHUNK_SIZE, &chunk, Cursor::new(&chunk)),
        Err(ParseListingChunkError::InvalidTag { .. })
    ));
}

#[test]
fn chunk_with_neither_tag_fails_fatally() {
    let mut chunk = listing_chunk_bytes(&[]);
    chunk[0..4].copy_from_slice(b"XXXX");
    let dl = directory_listing_bytes(&[chunk]);
    match DirectoryListing::parse(&dl, Cursor::new(&dl)) {
        Err(ParseDirectoryListingError::IndexChunkParse { offset, source }) => {
            assert_eq!(offset, 84);
            assert!(matches!(
                source,
                chmparse::directory_listing::index_chunk::ParseIndexChunkError::InvalidTag { .. }
            ));
        },
        other => panic!("expected a failed chunk, got {:?}", other),
    }
}

#[test]
fn truncated_chunk_is_out_of_bounds() {
    let mut dl = directory_listing_bytes(&[listing_chunk_bytes(&[])]);
    dl.truncate(84 + 17);
    assert!(matches!(
        DirectoryListing::parse(&dl, Cursor::new(&dl)),
        Err(ParseDirectoryListingError::IndexChunkParse {
            source:
                chmparse::directory_listing::index_chunk::ParseIndexChunkError::ChunkOutOfBounds {
                    ..
                },
            ..
        })
    ));
}

#[test]
fn invalid_utf8_name_is_fatal() {
    let entry = listing_entry_bytes(&[0xFF, 0xFE, 0x41], 0, 0, 1);
    let chunk = listing_chunk_bytes(&[entry]);
    assert!(matches!(
        ListingChunk::parse(CHUNK_SIZE, &chunk, Cursor::new(&chunk)),
        Err(ParseListingChunkError::InvalidChunkEntry {
            source: ParseListingChunkEntryError::NameInvalidUtf8,
            ..
        })
    ));
}

#[test]
fn entry_in_other_content_section_is_not_resolved() {
    let extra = vec![listing_entry_bytes(b"packed.txt", 1, 0, 4)];
    let file = minimal_file(&["Uncompressed", "MSCompressed"], &extra);
    // the compressed Content entry is absent, so loading fails; parse alone
    // still builds the table
    let chm = ChmFile::parse(&file).unwrap();
    assert!(matches!(
        chm.get_pos_for_file(&file, b"packed.txt"),
        Err(GetPosForFileError::FileInInvalidContentSection)
    ));
}

#[test]
fn entry_past_the_end_of_the_buffer_is_out_of_bounds() {
    let extra = vec![listing_entry_bytes(b"huge.txt", 0, 1 << 40, 10)];
    let file = minimal_file(&["Uncompressed"], &extra);
    let chm = ChmFile::load(&file).unwrap();
    assert!(matches!(
        chm.get_pos_for_file(&file, b"huge.txt"),
        Err(GetPosForFileError::FileOutOfBounds)
    ));
}

#[test]
fn missing_name_list_entry_is_fatal() {
    let nl = name_list_bytes(&["Uncompressed"]);
    let entries = vec![listing_entry_bytes(b"hello.txt", 0, 10, 5)];
    let mut content = vec![0u8; 20 + nl.len()];
    content[20..].copy_from_slice(&nl);
    let file = build_file(&[listing_chunk_bytes(&entries)], &content, 0);
    assert!(matches!(
        ChmFile::load(&file),
        Err(ParseChmFileError::MissingContentSectionNameList)
    ));
}

#[test]
fn name_list_outside_content_section_0_is_fatal() {
    let nl = name_list_bytes(&["Uncompressed"]);
    let entries = vec![listing_entry_bytes(b"::DataSpace/NameList", 1, 0, nl.len() as u64)];
    let file = build_file(&[listing_chunk_bytes(&entries)], &nl, 0);
    assert!(matches!(
        ChmFile::load(&file),
        Err(ParseChmFileError::ContentSectionNameListNotInContentSection0)
    ));
}

#[test]
fn name_list_past_the_end_of_the_buffer_is_fatal() {
    let entries = vec![listing_entry_bytes(b"::DataSpace/NameList", 0, 1 << 30, 32)];
    let file = build_file(&[listing_chunk_bytes(&entries)], &[], 0);
    assert!(matches!(
        ChmFile::load(&file),
        Err(ParseChmFileError::NameListOutOfBounds)
    ));
}

#[test]
fn too_many_name_list_entries_is_fatal() {
    let nl = name_list_bytes(&["Uncompressed", "MSCompressed", "Uncompressed"]);
    assert!(matches!(
        NameList::parse(&nl, Cursor::new(&nl)),
        Err(ParseNameListError::TooManyNameListEntries { actual: 3 })
    ));
}

#[test]
fn unterminated_name_list_entry_is_fatal() {
    let mut nl = name_list_bytes(&["Uncompressed"]);
    let last = nl.len() - 1;
    nl[last] = 0xFF; // clobber half of the null terminator
    assert!(matches!(
        NameList::parse(&nl, Cursor::new(&nl)),
        Err(ParseNameListError::NameListEntryNotNullTerminated)
    ));
}

#[test]
fn unknown_section_name_is_fatal() {
    let nl = name_list_bytes(&["Compressed12"]);
    assert!(matches!(
        NameList::parse(&nl, Cursor::new(&nl)),
        Err(ParseNameListError::UnknownSectionName)
    ));
}

#[test]
fn name_list_parses_both_sections() {
    let nl = name_list_bytes(&["Uncompressed", "MSCompressed"]);
    let (after, parsed) = NameList::parse(&nl, Cursor::new(&nl)).unwrap();
    assert_eq!(parsed, NameList { has_ms_compressed_section: true });
    assert_eq!(after.offset, nl.len());
    let nl2 = name_list_bytes(&["Uncompressed"]);
    let (_, parsed2) = NameList::parse(&nl2, Cursor::new(&nl2)).unwrap();
    assert_eq!(parsed2, NameList { has_ms_compressed_section: false });
}

#[test]
fn header_with_wrong_magic_is_rejected() {
    let mut file = minimal_file(&["Uncompressed"], &[]);
    file[0] = b'J';
    match ChmFile::load(&file) {
        Err(ParseChmFileError::ParseChmFileHead {
            source: ParseChmFileHeadError::ParseHeader { offset: 0, source },
        }) => {
            assert!(matches!(*source, ParseHeaderError::InvalidTag { offset: 0, .. }));
        },
        other => panic!("expected an invalid tag, got {:?}", other),
    }
}

#[test]
fn header_with_wrong_guid_is_rejected() {
    let mut file = minimal_file(&["Uncompressed"], &[]);
    file[24] ^= 0xFF; // corrupt the first identifier
    match ChmFile::load(&file) {
        Err(ParseChmFileError::ParseChmFileHead {
            source: ParseChmFileHeadError::ParseHeader { source, .. },
        }) => {
            match *source {
                ParseHeaderError::ParseUuidFailed {
                    source: ParseExactUuidError::WrongUuid { ref expected, ref parsed },
                } => {
                    assert_eq!(expected, &HEADER_GUID_1.to_vec());
                    assert_eq!(parsed[0], 0x10 ^ 0xFF);
                },
                ref other => panic!("expected a wrong identifier, got {:?}", other),
            }
        },
        other => panic!("expected a header failure, got {:?}", other),
    }
}

#[test]
fn short_uuid_read_is_recoverable() {
    let buf = [0u8; 7];
    let err = parse_exact_uuid(&buf, Cursor::new(&buf), &HEADER_GUID_1).unwrap_err();
    assert!(matches!(err, ParseExactUuidError::ParseFailed { .. }));
    assert!(err.recoverable());
    let wrong = [0u8; 16];
    let err2 = parse_exact_uuid(&wrong, Cursor::new(&wrong), &HEADER_GUID_1).unwrap_err();
    assert!(matches!(err2, ParseExactUuidError::WrongUuid { .. }));
    assert!(!err2.recoverable());
}

#[test]
fn header_parses_its_fields() {
    let file = minimal_file(&["Uncompressed"], &[]);
    let (after, header) = Header::parse(&file, Cursor::new(&file)).unwrap();
    assert_eq!(after.offset, HEADER_LEN);
    assert_eq!(header.version, 3);
    assert_eq!(header.total_header_length, HEADER_LEN as u32);
    assert_eq!(header.language_id, 0x409);
    assert_eq!(header.header_section_table.header_section_0.file_offset, HS0_OFF as u64);
    assert_eq!(header.header_section_table.header_section_0.length, 24);
    assert_eq!(header.header_section_table.directory_listing_entry.file_offset, DL_OFF as u64);
    assert_eq!(
        header.offset_content_section_0,
        Some((DL_OFF + 84 + CHUNK_SIZE) as u64)
    );
}

#[test]
fn version_2_header_has_no_content_section_offset() {
    let mut file = minimal_file(&["Uncompressed"], &[]);
    file[4..8].copy_from_slice(&2u32.to_le_bytes());
    let (after, header) = Header::parse(&file, Cursor::new(&file)).unwrap();
    assert_eq!(after.offset, 88);
    assert_eq!(header.version, 2);
    assert_eq!(header.offset_content_section_0, None);
}

#[test]
fn zero_content_section_offset_falls_back_to_after_the_header() {
    let mut file = minimal_file(&["Uncompressed"], &[]);
    file[88..96].copy_from_slice(&0u64.to_le_bytes());
    let head = chmparse::ChmFileHead::parse(&file).unwrap();
    assert_eq!(head.actual_offset_content_section_0, HEADER_LEN as u64);
}

#[test]
fn header_section_0_parses_and_cross_checks() {
    let bytes = hs0_bytes(384);
    let (after, parsed) = HeaderSection0::parse(384, &bytes, Cursor::new(&bytes)).unwrap();
    assert_eq!(after.offset, 24);
    assert_eq!(parsed.file_size, 384);
    assert!(matches!(
        HeaderSection0::parse(400, &bytes, Cursor::new(&bytes)),
        Err(ParseHeaderSection0Error::FileSizeMismatch { expected: 400, parsed: 384 })
    ));
    let short = &bytes[..20];
    assert!(matches!(
        HeaderSection0::parse(384, short, Cursor::new(short)),
        Err(ParseHeaderSection0Error::NotEnoughData)
    ));
    let mut wrong = bytes.clone();
    wrong[0] = 0xFD;
    assert!(matches!(
        HeaderSection0::parse(384, &wrong, Cursor::new(&wrong)),
        Err(ParseHeaderSection0Error::InvalidTag { offset: 0, .. })
    ));
}

#[test]
fn directory_header_parses_its_fields() {
    let dl = directory_listing_bytes(&[]);
    let (after, dh) = DirectoryHeader::parse(&dl, Cursor::new(&dl)).unwrap();
    assert_eq!(after.offset, 84);
    assert_eq!(dh.version, 1);
    assert_eq!(dh.directory_header_length, 84);
    assert_eq!(dh.directory_chunk_size, CHUNK_SIZE as u32);
    assert_eq!(dh.quickref_density, 2);
    assert_eq!(dh.root_index_chunk_number, None);
    assert_eq!(dh.total_directory_chunk_count, 0);
    assert_eq!(dh.windows_language_id, 0x409);
}

#[test]
fn file_entry_keeps_the_location_of_a_listing_entry() {
    let chunk = listing_chunk_bytes(&[listing_entry_bytes(b"a.txt", 0, 10, 5)]);
    let (_, parsed) = ListingChunk::parse(CHUNK_SIZE, &chunk, Cursor::new(&chunk)).unwrap();
    let entry = chmparse::chm_file::FileEntry::from(parsed.entries[0].clone());
    assert_eq!(entry.content_section, 0);
    assert_eq!(entry.content_section_offset, 10);
    assert_eq!(entry.content_length, 5);
}

#[test]
fn recoverable_and_fatal_errors_are_told_apart() {
    // running out of input or a tag mismatch may be retried at a choice
    // point; a violated structural invariant may not
    let short: &[u8] = &[0xFF];
    assert!(chmparse::encint::parse_encint_be(short, Cursor::new(short))
        .unwrap_err()
        .recoverable());
    let eleven = [0x80u8; 11];
    assert!(!chmparse::encint::parse_encint_be(&eleven, Cursor::new(&eleven))
        .unwrap_err()
        .recoverable());
    let chunk = index_chunk_bytes();
    assert!(ListingChunk::parse(CHUNK_SIZE, &chunk, Cursor::new(&chunk))
        .unwrap_err()
        .recoverable());
    let bytes = hs0_bytes(384);
    assert!(!HeaderSection0::parse(400, &bytes, Cursor::new(&bytes))
        .unwrap_err()
        .recoverable());
    let nl = name_list_bytes(&["Compressed12"]);
    assert!(!NameList::parse(&nl, Cursor::new(&nl)).unwrap_err().recoverable());
    // a clean list that lacks the mandatory "Uncompressed" entry is fatal too
    let nl2 = name_list_bytes(&[]);
    assert!(!NameList::parse(&nl2, Cursor::new(&nl2)).unwrap_err().recoverable());
}

#[test]
fn unknown_index_tree_depth_is_fatal() {
    let mut dl = directory_listing_bytes(&[]);
    dl[24..28].copy_from_slice(&3u32.to_le_bytes());
    assert!(matches!(
        DirectoryHeader::parse(&dl, Cursor::new(&dl)),
        Err(DirectoryHeaderParseError::UnknownIndexTreeDepth)
    ));
}

#[test]
fn disagreeing_directory_header_lengths_are_fatal() {
    let mut dl = directory_listing_bytes(&[]);
    dl[68..72].copy_from_slice(&80u32.to_le_bytes());
    assert!(matches!(
        DirectoryHeader::parse(&dl, Cursor::new(&dl)),
        Err(DirectoryHeaderParseError::DirectoryHeaderLengthsDoNotMatch { first: 84, second: 80 })
    ));
}
