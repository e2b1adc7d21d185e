//! Error taxonomy for a capture session.
//!
//! All three conditions are fatal to the session that meets them; clean
//! end-of-stream is not an error and is signalled separately.

use vstd::prelude::*;

verus! {

/// A fatal condition met while reading a capture.
#[derive(Clone, Copy, Debug, PartialEq, Eq, Structural)]
pub enum CaptureError {
    /// The magic number matches none of the known variants.
    FormatError,
    /// Fewer bytes are available than a required fixed-size structure.
    TruncatedInputError,
    /// A record's declared captured length exceeds the snapshot length,
    /// or its payload is shorter than the declared captured length.
    CorruptRecordError,
}

} // verus!
