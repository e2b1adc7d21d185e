//! Byte-level facts of the classic pcap format: the four magic-number
//! variants, the byte orders and timestamp precisions they select, and
//! the reading of multi-byte integers from the raw stream.

use vstd::prelude::*;

verus! {

/// Size in bytes of the global file header.
pub const GLOBAL_HEADER_LEN: usize = 24;

/// Size in bytes of a per-record header.
pub const RECORD_HEADER_LEN: usize = 16;

/// Byte order of the multi-byte fields of a capture, selected by its
/// magic number.
#[derive(Clone, Copy, Debug, PartialEq, Eq, Structural)]
pub enum Endianness {
    Little,
    Big,
}

/// Unit of the sub-second fraction of every timestamp in a capture,
/// selected by its magic number.
#[derive(Clone, Copy, Debug, PartialEq, Eq, Structural)]
pub enum Precision {
    Microsecond,
    Nanosecond,
}

/// The 16-bit value stored at `i` in byte order `en`.
pub open spec fn spec_u16_at(b: Seq<u8>, i: int, en: Endianness) -> u16 {
    match en {
        Endianness::Little => (b[i] as int + b[i + 1] as int * 0x100) as u16,
        Endianness::Big => (b[i + 1] as int + b[i] as int * 0x100) as u16,
    }
}

/// The 32-bit value stored at `i` in byte order `en`.
pub open spec fn spec_u32_at(b: Seq<u8>, i: int, en: Endianness) -> u32 {
    match en {
        Endianness::Little => (b[i] as int + b[i + 1] as int * 0x100 + b[i + 2] as int * 0x1_0000
            + b[i + 3] as int * 0x100_0000) as u32,
        Endianness::Big => (b[i + 3] as int + b[i + 2] as int * 0x100 + b[i + 1] as int * 0x1_0000
            + b[i] as int * 0x100_0000) as u32,
    }
}

/// Reads the 16-bit value stored at `i` in byte order `en`.
pub fn read_u16_at(b: &Vec<u8>, i: usize, en: Endianness) -> (r: u16)
    requires
        i + 2 <= b.len(),
    ensures
        r == spec_u16_at(b@, i as int, en),
{
    match en {
        Endianness::Little => b[i] as u16 + b[i + 1] as u16 * 0x100,
        Endianness::Big => b[i + 1] as u16 + b[i] as u16 * 0x100,
    }
}

/// Reads the 32-bit value stored at `i` in byte order `en`.
pub fn read_u32_at(b: &Vec<u8>, i: usize, en: Endianness) -> (r: u32)
    requires
        i + 4 <= b.len(),
    ensures
        r == spec_u32_at(b@, i as int, en),
{
    match en {
        Endianness::Little => b[i] as u32 + b[i + 1] as u32 * 0x100 + b[i + 2] as u32 * 0x1_0000
            + b[i + 3] as u32 * 0x100_0000,
        Endianness::Big => b[i + 3] as u32 + b[i + 2] as u32 * 0x100 + b[i + 1] as u32 * 0x1_0000
            + b[i] as u32 * 0x100_0000,
    }
}

/// The byte order and precision that the four leading bytes of a capture
/// select, or `None` when they match no known magic-number variant.
///
/// The canonical magic reads a1 b2 c3 d4 (microseconds) or a1 b2 3c 4d
/// (nanoseconds) when the file's byte order is big-endian, and the same
/// bytes reversed when it is little-endian.
pub open spec fn spec_magic_kind(b0: u8, b1: u8, b2: u8, b3: u8) -> Option<
    (Endianness, Precision),
> {
    if b0 == 0xa1 && b1 == 0xb2 && b2 == 0xc3 && b3 == 0xd4 {
        Some((Endianness::Big, Precision::Microsecond))
    } else if b0 == 0xd4 && b1 == 0xc3 && b2 == 0xb2 && b3 == 0xa1 {
        Some((Endianness::Little, Precision::Microsecond))
    } else if b0 == 0xa1 && b1 == 0xb2 && b2 == 0x3c && b3 == 0x4d {
        Some((Endianness::Big, Precision::Nanosecond))
    } else if b0 == 0x4d && b1 == 0x3c && b2 == 0xb2 && b3 == 0xa1 {
        Some((Endianness::Little, Precision::Nanosecond))
    } else {
        None
    }
}

/// Classifies the four leading bytes of a capture.
pub fn magic_kind(b0: u8, b1: u8, b2: u8, b3: u8) -> (r: Option<(Endianness, Precision)>)
    ensures
        r == spec_magic_kind(b0, b1, b2, b3),
{
    if b0 == 0xa1 && b1 == 0xb2 && b2 == 0xc3 && b3 == 0xd4 {
        Some((Endianness::Big, Precision::Microsecond))
    } else if b0 == 0xd4 && b1 == 0xc3 && b2 == 0xb2 && b3 == 0xa1 {
        Some((Endianness::Little, Precision::Microsecond))
    } else if b0 == 0xa1 && b1 == 0xb2 && b2 == 0x3c && b3 == 0x4d {
        Some((Endianness::Big, Precision::Nanosecond))
    } else if b0 == 0x4d && b1 == 0x3c && b2 == 0xb2 && b3 == 0xa1 {
        Some((Endianness::Little, Precision::Nanosecond))
    } else {
        None
    }
}

} // verus!
