//! A streaming reader for classic pcap capture files.
//!
//! The library turns the bytes of a packet-capture file into columnar
//! batches of records, pulled on demand.  It parses the fixed-size global
//! header once, then reads one packet record at a time, accumulating up to
//! a requested number of records into column buffers that are finalized
//! into an immutable batch.  A session tracks the cursor, a global packet
//! counter and an optional cap on the total number of rows emitted.

pub mod errors;
pub mod format;
pub mod header;
pub mod frame;
pub mod batch;
pub mod parser;
pub mod source;
