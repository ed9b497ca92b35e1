//! Decoder for the ITSF compiled-help container format.
//!
//! The decoder consumes a single in-memory byte buffer and either produces a
//! fully decoded view of the container (header, directory listing, name list,
//! and a table mapping entry names to content locations) or reports a
//! structured error. Every slice of the buffer goes through bounds-checked
//! cursor arithmetic, and the contracts of the parsing functions pin down,
//! byte for byte, which inputs are accepted and what is decoded from them.

use vstd::prelude::*;

pub mod chm_file;
pub mod chm_file_head;
pub mod cursor;
pub mod directory_listing;
pub mod encint;
pub mod error;
pub mod header;
pub mod header_section_0;
pub mod name_list;
pub mod uuid;

pub use chm_file::{ChmFile, ParseChmFileError};
pub use chm_file_head::{ChmFileHead, ParseChmFileHeadError};

verus! {

/// Shared parsing state; warnings collect the offsets of oddities that were
/// tolerated during a decode together with a short description.
pub struct ParseState {
    pub warnings: Vec<(usize, String)>,
}

impl ParseState {
    /// A fresh state with no warnings recorded.
    pub fn new() -> (r: ParseState)
        ensures
            r.warnings@.len() == 0,
    {
        ParseState { warnings: Vec::new() }
    }
}

} // verus!
