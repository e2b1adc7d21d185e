//! The global file header: read once per capture, before any record.
//!
//! The 24-byte header carries the magic number (which selects byte order
//! and timestamp precision), the format version, the snapshot length and
//! the link-layer type.  The timezone-offset and timestamp-accuracy
//! fields are read past and ignored.

use vstd::prelude::*;
use crate::errors::CaptureError;
use crate::format::{
    Endianness, Precision, GLOBAL_HEADER_LEN, spec_magic_kind, spec_u16_at, spec_u32_at,
    magic_kind, read_u16_at, read_u32_at,
};

verus! {

/// The per-file constants of one capture, immutable once parsed.
#[derive(Clone, Copy, Debug, PartialEq, Eq, Structural)]
pub struct CaptureHeader {
    /// The magic number, read in the byte order it selects.
    pub magic: u32,
    /// Major format version.
    pub version_major: u16,
    /// Minor format version.
    pub version_minor: u16,
    /// Byte order of every multi-byte field of the file.
    pub endianness: Endianness,
    /// Unit of the sub-second fraction of every timestamp of the file.
    pub precision: Precision,
    /// Maximum number of payload bytes stored per packet.
    pub snap_len: u32,
    /// Link-layer type of the captured traffic.
    pub link_type: u32,
}

/// What parsing the global header of `b` yields: the per-file constants,
/// or the error that the leading bytes force.
///
/// Fewer than 24 bytes is a truncation; an unrecognized magic number is
/// a format error.  Nothing else can fail.
pub open spec fn spec_parse_header(b: Seq<u8>) -> Result<CaptureHeader, CaptureError> {
    if b.len() < GLOBAL_HEADER_LEN {
        Err(CaptureError::TruncatedInputError)
    } else {
        match spec_magic_kind(b[0], b[1], b[2], b[3]) {
            None => Err(CaptureError::FormatError),
            Some((en, prec)) => Ok(
                CaptureHeader {
                    magic: spec_u32_at(b, 0, en),
                    version_major: spec_u16_at(b, 4, en),
                    version_minor: spec_u16_at(b, 6, en),
                    endianness: en,
                    precision: prec,
                    snap_len: spec_u32_at(b, 16, en),
                    link_type: spec_u32_at(b, 20, en),
                },
            ),
        }
    }
}

/// Reads and validates the global header at the start of `b`.
///
/// Succeeds exactly on inputs of at least 24 bytes whose magic number
/// matches one of the four known variants; the cursor of a session that
/// called this stands at byte 24 afterwards.
pub fn parse_header(b: &Vec<u8>) -> (r: Result<CaptureHeader, CaptureError>)
    ensures
        r == spec_parse_header(b@),
{
    if b.len() < GLOBAL_HEADER_LEN {
        return Err(CaptureError::TruncatedInputError);
    }
    match magic_kind(b[0], b[1], b[2], b[3]) {
        None => Err(CaptureError::FormatError),
        Some((en, prec)) => Ok(
            CaptureHeader {
                magic: read_u32_at(b, 0, en),
                version_major: read_u16_at(b, 4, en),
                version_minor: read_u16_at(b, 6, en),
                endianness: en,
                precision: prec,
                snap_len: read_u32_at(b, 16, en),
                link_type: read_u32_at(b, 20, en),
            },
        ),
    }
}

} // verus!
