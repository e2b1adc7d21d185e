//! The streaming session: a pull-based source of columnar batches with
//! a configurable batch-size hint, an optional cap on the total number
//! of rows ever emitted, and a no-op predicate-pushdown hook.
//!
//! The session has two live states — producing, and exhausted once the
//! cap or clean end of stream is reached — plus a terminal failed
//! state: after a fatal error every further pull reports that same
//! error, and nothing is ever re-read or resynchronized.

use vstd::prelude::*;
use crate::errors::CaptureError;
use crate::format::{Precision, GLOBAL_HEADER_LEN};
use crate::header::spec_parse_header;
use crate::frame::spec_take;
use crate::batch::{ColumnType, PacketBatch, Schema, spec_schema, batch_matches};
use crate::parser::PCapParser;

verus! {

/// Number of rows one pull accumulates when no hint is given.
pub const DEFAULT_SIZE_HINT: usize = 10_000;

/// A filter expression a consumer may register with the source.
///
/// The source accepts it and ignores it: rows are never skipped or
/// pruned on its account, so it carries no structure of its own.
#[derive(Clone, Copy, Debug, PartialEq, Eq, Structural)]
pub struct Predicate;

/// A pull-based streaming source of packet batches.
#[derive(Debug)]
pub struct PCapSource {
    /// The underlying streaming parser.
    pub parser: PCapParser,
    /// Rows accumulated per pull.
    pub size_hint: usize,
    /// Total rows the session will ever emit, over all pulls combined.
    pub n_rows: usize,
    /// Rows emitted so far; never exceeds `n_rows`.
    pub total_read: usize,
    /// The fatal error met, if any: once set, every pull returns it.
    pub failed: Option<CaptureError>,
}

impl PCapSource {
    /// The session's invariant: a well-formed parser, and an emitted
    /// count within the cap.
    pub open spec fn wf(self) -> bool {
        &&& self.parser.wf()
        &&& self.total_read <= self.n_rows
    }

    /// The schema every pull of this session honours.
    pub open spec fn spec_schema(self) -> Schema {
        spec_schema(self.parser.header.precision)
    }

    /// The schema of packet batches with timestamp unit `p`: timestamp,
    /// packet number, captured length, original length, payload bytes.
    pub fn pcap_schema(p: Precision) -> (r: Schema)
        ensures
            r == spec_schema(p),
    {
        Schema {
            timestamp: ColumnType::Datetime(p),
            packet_number: ColumnType::UInt64,
            captured_length: ColumnType::UInt32,
            original_length: ColumnType::UInt32,
            data: ColumnType::Binary,
        }
    }

    /// Opens a session over the bytes of a capture.
    ///
    /// Parses and validates the global header at once, so that the
    /// schema is known before the first pull; succeeds exactly when
    /// the header parses.  A missing `size_hint` defaults to 10,000
    /// rows per pull; a missing `n_rows` leaves the session uncapped.
    pub fn new_source(data: Vec<u8>, size_hint: Option<usize>, n_rows: Option<usize>) -> (r:
        Result<PCapSource, CaptureError>)
        ensures
            match spec_parse_header(data@) {
                Ok(h) => r matches Ok(s) && s.wf() && s.parser.header == h && s.parser.data
                    == data && s.parser.pos == GLOBAL_HEADER_LEN && s.parser.packet_counter == 0
                    && s.total_read == 0 && s.failed is None && s.size_hint as int == (
                match size_hint {
                    Some(v) => v as int,
                    None => DEFAULT_SIZE_HINT as int,
                }) && s.n_rows as int == (match n_rows {
                    Some(v) => v as int,
                    None => usize::MAX as int,
                }),
                Err(e) => r matches Err(e2) && e2 == e,
            },
    {
        let n_rows: usize = match n_rows {
            Some(v) => v,
            None => usize::MAX,
        };
        let size_hint: usize = match size_hint {
            Some(v) => v,
            None => DEFAULT_SIZE_HINT,
        };
        match PCapParser::open(data) {
            Ok(parser) => Ok(
                PCapSource { parser, size_hint, n_rows, total_read: 0, failed: None },
            ),
            Err(e) => Err(e),
        }
    }

    /// Pulls the next batch.
    ///
    /// Reads up to `size_hint` records, and never more than remain
    /// under the `n_rows` cap — the last batch before the cap is
    /// truncated to exactly the rows still owed, and every later pull
    /// returns end of data even if unread bytes remain.  Yields
    /// `Ok(Some(batch))` when at least one record was taken, with
    /// packet numbers continuing the session's counter; `Ok(None)` —
    /// never an empty batch — when the cap was already reached or no
    /// record preceded clean end of stream; and `Err(e)` exactly when
    /// the session already failed with `e`, or its cursor now met a
    /// corrupt record.  A failed session never recovers: the error is
    /// recorded and returned by every further pull, unchanged.
    pub fn next(&mut self) -> (r: Result<Option<PacketBatch>, CaptureError>)
        requires
            old(self).wf(),
        ensures
            final(self).wf(),
            final(self).parser.data == old(self).parser.data,
            final(self).parser.header == old(self).parser.header,
            final(self).size_hint == old(self).size_hint,
            final(self).n_rows == old(self).n_rows,
            final(self).spec_schema() == old(self).spec_schema(),
            ({
                let remaining = old(self).n_rows - old(self).total_read;
                let req = if old(self).size_hint < remaining {
                    old(self).size_hint as int
                } else {
                    remaining
                };
                let step = spec_take(
                    old(self).parser.data@,
                    old(self).parser.pos as int,
                    old(self).parser.header.endianness,
                    old(self).parser.header.snap_len,
                    req as nat,
                );
                match r {
                    Result::Err(e) => {
                        &&& final(self).failed == Some(e)
                        &&& final(self).total_read == old(self).total_read
                        &&& final(self).parser == old(self).parser
                        &&& match old(self).failed {
                            Some(e0) => e == e0 && *final(self) == *old(self),
                            None => e == CaptureError::CorruptRecordError && old(self).total_read
                                < old(self).n_rows && step is Corrupt,
                        }
                    },
                    Result::Ok(opt) => match opt {
                        Option::None => {
                            &&& old(self).failed is None
                            &&& *final(self) == *old(self)
                            &&& (old(self).total_read >= old(self).n_rows || (step is Done
                                && step->frames.len() == 0))
                        },
                        Option::Some(batch) => {
                            &&& old(self).failed is None
                            &&& old(self).total_read < old(self).n_rows
                            &&& step is Done
                            &&& step->frames.len() > 0
                            &&& batch_matches(
                                batch,
                                step->frames,
                                old(self).parser.packet_counter,
                                old(self).parser.header.precision,
                            )
                            &&& final(self).total_read == old(self).total_read
                                + step->frames.len()
                            &&& final(self).parser.pos == step->end
                            &&& final(self).parser.packet_counter == old(
                                self,
                            ).parser.packet_counter + step->frames.len()
                            &&& final(self).failed is None
                        },
                    },
                }
            }),
    {
        match self.failed {
            Some(e) => {
                return Err(e);
            },
            None => {},
        }
        if self.total_read >= self.n_rows {
            return Ok(None);
        }
        let remaining: usize = self.n_rows - self.total_read;
        let req: usize = if self.size_hint < remaining {
            self.size_hint
        } else {
            remaining
        };
        match self.parser.read_batch(req) {
            Ok(Some(batch)) => {
                let rows_read: usize = batch.len();
                self.total_read = self.total_read + rows_read;
                Ok(Some(batch))
            },
            Ok(None) => Ok(None),
            Err(e) => {
                self.failed = Some(e);
                Err(e)
            },
        }
    }

    /// Returns the session's schema, without reading any data.
    ///
    /// The result depends on the capture's declared precision alone,
    /// so any number of pulls leaves it identical.
    pub fn schema(&self) -> (r: Schema)
        ensures
            r == self.spec_schema(),
    {
        Self::pcap_schema(self.parser.header.precision)
    }

    /// Registers a pushdown predicate — and deliberately ignores it.
    ///
    /// The source acknowledges the filter without applying it: the
    /// session is left exactly as it was, all rows are still
    /// materialized, and the call always succeeds.
    pub fn try_set_predicate(&mut self, _predicate: Predicate) -> (r: Result<(), CaptureError>)
        ensures
            *final(self) == *old(self),
            r is Ok,
    {
        Ok(())
    }
}

} // verus!
