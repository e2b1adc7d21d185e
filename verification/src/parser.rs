//! The streaming parser: a capture held as bytes, a cursor past the
//! parsed global header, and a global packet counter.  Each call of
//! `read_batch` accumulates up to a requested number of records into
//! column buffers and finalizes them into one immutable batch.

use vstd::prelude::*;
use crate::errors::CaptureError;
use crate::format::GLOBAL_HEADER_LEN;
use crate::header::{CaptureHeader, spec_parse_header, parse_header};
use crate::frame::{
    SpecFrame, TakeStep, ReadFrame, spec_frame_at, spec_take, read_frame, timestamp_value,
    lemma_take_snoc, lemma_take_stable, lemma_take_corrupt_stable,
};
use crate::batch::{PacketBatch, batch_matches};

verus! {

/// A streaming pcap parser that reads packets incrementally.
///
/// Owns the capture's bytes, the cursor, the per-file constants parsed
/// from the global header, and the zero-based global packet counter
/// that numbers every record exactly once across all batches.
#[derive(Debug)]
pub struct PCapParser {
    /// The capture's bytes, header included.
    pub data: Vec<u8>,
    /// Cursor: position of the next unread byte.
    pub pos: usize,
    /// The per-file constants, parsed once at `open`.
    pub header: CaptureHeader,
    /// Number of records emitted so far; the next record's number.
    pub packet_counter: u64,
}

impl PCapParser {
    /// The parser's invariant: the cursor stays inside the capture and
    /// past the global header, the stored header is what the bytes
    /// parse to, and every counted packet consumed at least its 16
    /// header bytes (which bounds the counter away from overflow).
    pub open spec fn wf(self) -> bool {
        &&& self.pos <= self.data@.len()
        &&& GLOBAL_HEADER_LEN + 16 * (self.packet_counter as int) <= self.pos as int
        &&& spec_parse_header(self.data@) == Ok::<CaptureHeader, CaptureError>(self.header)
    }

    /// Opens a capture for streaming: parses and validates the global
    /// header, and places the cursor on the first record.
    ///
    /// Succeeds exactly when the header parses: at least 24 bytes, a
    /// recognized magic number.  Fails with the error those bytes
    /// force, and with no other.
    pub fn open(data: Vec<u8>) -> (r: Result<PCapParser, CaptureError>)
        ensures
            match spec_parse_header(data@) {
                Ok(h) => r matches Ok(p) && p.header == h && p.pos == GLOBAL_HEADER_LEN
                    && p.packet_counter == 0 && p.data == data && p.wf(),
                Err(e) => r matches Err(e2) && e2 == e,
            },
    {
        match parse_header(&data) {
            Ok(h) => Ok(
                PCapParser { data, pos: GLOBAL_HEADER_LEN, header: h, packet_counter: 0 },
            ),
            Err(e) => Err(e),
        }
    }

    /// Reads up to `batch_size` records from the cursor into one
    /// columnar batch, exactly as `spec_take` describes the bytes
    /// there.
    ///
    /// Yields `Ok(Some(batch))` with one row per record taken when at
    /// least one was, advancing cursor and counter past them;
    /// `Ok(None)` — with the parser unchanged — when no record was
    /// taken before clean end of stream (or none was requested); and
    /// `Err(CorruptRecordError)` — with the parser unchanged, so that
    /// a repeated call fails the same way — exactly when a corrupt
    /// record stands among the first `batch_size`.
    pub fn read_batch(&mut self, batch_size: usize) -> (r: Result<
        Option<PacketBatch>,
        CaptureError,
    >)
        requires
            old(self).wf(),
        ensures
            final(self).wf(),
            final(self).data == old(self).data,
            final(self).header == old(self).header,
            ({
                let step = spec_take(
                    old(self).data@,
                    old(self).pos as int,
                    old(self).header.endianness,
                    old(self).header.snap_len,
                    batch_size as nat,
                );
                match r {
                    Result::Err(e) => e == CaptureError::CorruptRecordError && step is Corrupt
                        && *final(self) == *old(self),
                    Result::Ok(opt) => match opt {
                        Option::None => step is Done && step->frames.len() == 0 && *final(self)
                            == *old(self),
                        Option::Some(batch) => {
                            &&& step is Done
                            &&& 0 < step->frames.len() <= batch_size
                            &&& batch_matches(
                                batch,
                                step->frames,
                                old(self).packet_counter,
                                old(self).header.precision,
                            )
                            &&& final(self).pos == step->end
                            &&& final(self).packet_counter == old(self).packet_counter
                                + step->frames.len()
                        },
                    },
                }
            }),
    {
        let en = self.header.endianness;
        let snap: u32 = self.header.snap_len;
        let prec = self.header.precision;
        let ghost self0 = *self;
        let ghost b = self.data@;
        let ghost pos0 = self.pos as int;
        let ghost c0 = self.packet_counter;

        let mut timestamp: Vec<i64> = Vec::new();
        let mut packet_number: Vec<u64> = Vec::new();
        let mut captured_length: Vec<u32> = Vec::new();
        let mut original_length: Vec<u32> = Vec::new();
        let mut data_col: Vec<Vec<u8>> = Vec::new();
        let ghost mut gframes: Seq<SpecFrame> = Seq::empty();

        let mut cur: usize = self.pos;
        let mut counter: u64 = self.packet_counter;
        let mut count: usize = 0;
        let mut ended = false;

        while count < batch_size && !ended
            invariant
                *self == self0,
                self0.wf(),
                b == self0.data@,
                en == self0.header.endianness,
                snap == self0.header.snap_len,
                prec == self0.header.precision,
                pos0 == self0.pos as int,
                c0 == self0.packet_counter,
                count <= batch_size,
                cur <= b.len(),
                GLOBAL_HEADER_LEN + 16 * (counter as int) <= cur as int,
                counter == c0 + count,
                gframes.len() == count,
                spec_take(b, pos0, en, snap, count as nat) == (TakeStep::Done {
                    frames: gframes,
                    end: cur as int,
                }),
                batch_matches(
                    (PacketBatch {
                        timestamp: timestamp,
                        packet_number: packet_number,
                        captured_length: captured_length,
                        original_length: original_length,
                        data: data_col,
                        timestamp_unit: prec,
                    }),
                    gframes,
                    c0,
                    prec,
                ),
                ended ==> spec_frame_at(b, cur as int, en, snap) is EndOfStream,
                ended ==> count < batch_size,
            decreases batch_size - count, (if ended { 0int } else { 1int }),
        {
            match read_frame(&self.data, cur, en, snap) {
                ReadFrame::EndOfStream => {
                    ended = true;
                },
                ReadFrame::Corrupt => {
                    proof {
                        lemma_take_snoc(b, pos0, en, snap, count as nat);
                        lemma_take_corrupt_stable(
                            b,
                            pos0,
                            en,
                            snap,
                            (count + 1) as nat,
                            batch_size as nat,
                        );
                    }
                    return Err(CaptureError::CorruptRecordError);
                },
                ReadFrame::Frame(f, next) => {
                    let ghost gf = f@;
                    proof {
                        lemma_take_snoc(b, pos0, en, snap, count as nat);
                    }
                    timestamp.push(timestamp_value(f.ts_seconds, f.ts_fraction, prec));
                    packet_number.push(counter);
                    captured_length.push(f.captured_length);
                    original_length.push(f.original_length);
                    data_col.push(f.payload);
                    proof {
                        gframes = gframes.push(gf);
                    }
                    counter = counter + 1;
                    cur = next;
                    count = count + 1;
                },
            }
        }
        if count == 0 {
            if batch_size > 0 {
                proof {
                    lemma_take_stable(b, pos0, en, snap, 1, batch_size as nat);
                }
            }
            return Ok(None);
        }
        if ended {
            proof {
                lemma_take_snoc(b, pos0, en, snap, count as nat);
                lemma_take_stable(b, pos0, en, snap, (count + 1) as nat, batch_size as nat);
            }
        }
        self.pos = cur;
        self.packet_counter = counter;
        Ok(
            Some(
                PacketBatch {
                    timestamp,
                    packet_number,
                    captured_length,
                    original_length,
                    data: data_col,
                    timestamp_unit: prec,
                },
            ),
        )
    }
}

} // verus!
