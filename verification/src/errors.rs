//! Error taxonomy of the segment reader.

use vstd::prelude::*;

verus! {

/// Everything that can go wrong while attaching to a segment or
/// reading a record out of it.
///
/// The first three variants arise while locating, opening or mapping
/// the backing file and are produced by the unverified shell around
/// this library. `SegmentTooSmall` and `BadMagic` are format
/// mismatches found while validating a header. `TruncatedRecord` and
/// `OutOfBounds` are per-record conditions: the polling loop treats
/// them as "no record this cycle" and keeps running.
#[derive(Debug, Clone, PartialEq, Eq)]
pub enum SegmentError {
    /// No candidate path pointed at an existing file.
    SegmentNotFound,
    /// A candidate file existed but could not be opened.
    OpenFailed,
    /// The opened file could not be memory mapped.
    MapFailed,
    /// The mapped segment is shorter than the 64-byte header.
    SegmentTooSmall,
    /// The first four bytes of the segment are not the expected
    /// magic signature; carries the bytes that were observed.
    BadMagic(Vec<u8>),
    /// A record slice is shorter than the 80 bytes the mandatory
    /// fields occupy.
    TruncatedRecord,
    /// The ring slot for the latest tick ends beyond the mapped
    /// length; producer and reader have desynchronized.
    OutOfBounds,
}

impl SegmentError {
    /// Short diagnostic label for this error.
    pub fn label(&self) -> (r: &'static str)
        ensures
            self is SegmentNotFound ==> r@ == "segment not found"@,
            self is OpenFailed ==> r@ == "open failed"@,
            self is MapFailed ==> r@ == "map failed"@,
            self is SegmentTooSmall ==> r@ == "segment too small"@,
            self is BadMagic ==> r@ == "bad magic"@,
            self is TruncatedRecord ==> r@ == "truncated record"@,
            self is OutOfBounds ==> r@ == "out of bounds"@,
    {
        match self {
            SegmentError::SegmentNotFound => "segment not found",
            SegmentError::OpenFailed => "open failed",
            SegmentError::MapFailed => "map failed",
            SegmentError::SegmentTooSmall => "segment too small",
            SegmentError::BadMagic(_) => "bad magic",
            SegmentError::TruncatedRecord => "truncated record",
            SegmentError::OutOfBounds => "out of bounds",
        }
    }
}

} // verus!
