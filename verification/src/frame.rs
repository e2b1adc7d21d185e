//! The frame reader: one packet record at a time from the byte stream.
//!
//! A record is a 16-byte header (timestamp seconds, timestamp fraction,
//! captured length, original length) followed by exactly `captured
//! length` payload bytes.  Fewer than 16 bytes left is clean end of
//! stream, not an error; a captured length over the snapshot length, or
//! a payload cut short, is corruption and fatal.
//!
//! The module also gives the mathematical model of the stream: what one
//! record at a position is, and what taking up to `n` records from a
//! position yields.

use vstd::prelude::*;
use crate::format::{Endianness, Precision, RECORD_HEADER_LEN, spec_u32_at, read_u32_at};

verus! {

/// One packet record, as the mathematical model sees it.
pub struct SpecFrame {
    /// Timestamp seconds.
    pub secs: u32,
    /// Timestamp sub-second fraction, in the file's unit.
    pub frac: u32,
    /// Number of payload bytes stored in the file.
    pub caplen: u32,
    /// Number of bytes of the packet on the wire.
    pub origlen: u32,
    /// The stored payload; its length equals `caplen`.
    pub payload: Seq<u8>,
}

/// What the stream holds at one position: a record and the position
/// after it, clean end of stream, or corruption.
pub enum FrameStep {
    /// Fewer than 16 bytes remain: normal termination.
    EndOfStream,
    /// The declared captured length exceeds the snapshot length, or the
    /// payload is cut short.
    Corrupt,
    /// A whole record, and the position of the byte after it.
    Frame { frame: SpecFrame, next: int },
}

/// The record that `b` holds at `pos`, under byte order `en` and
/// snapshot length `snap`.
pub open spec fn spec_frame_at(b: Seq<u8>, pos: int, en: Endianness, snap: u32) -> FrameStep {
    if pos + RECORD_HEADER_LEN > b.len() {
        FrameStep::EndOfStream
    } else {
        let caplen = spec_u32_at(b, pos + 8, en);
        if caplen > snap || pos + RECORD_HEADER_LEN + caplen > b.len() {
            FrameStep::Corrupt
        } else {
            FrameStep::Frame {
                frame: SpecFrame {
                    secs: spec_u32_at(b, pos, en),
                    frac: spec_u32_at(b, pos + 4, en),
                    caplen: caplen,
                    origlen: spec_u32_at(b, pos + 12, en),
                    payload: b.subrange(pos + RECORD_HEADER_LEN, pos + RECORD_HEADER_LEN + caplen),
                },
                next: pos + RECORD_HEADER_LEN + caplen,
            }
        }
    }
}

/// The timestamp value of a record: seconds scaled into the file's
/// unit, plus the fraction.  Microsecond files count microseconds,
/// nanosecond files count nanoseconds.
pub open spec fn spec_timestamp(secs: u32, frac: u32, p: Precision) -> i64 {
    match p {
        Precision::Microsecond => (secs as int * 1_000_000 + frac as int) as i64,
        Precision::Nanosecond => (secs as int * 1_000_000_000 + frac as int) as i64,
    }
}

/// Combines a record's timestamp fields into one value in the file's
/// unit.  The largest possible value, for seconds and fraction both at
/// their 32-bit maximum under nanosecond precision, still fits.
pub fn timestamp_value(secs: u32, frac: u32, p: Precision) -> (r: i64)
    ensures
        r == spec_timestamp(secs, frac, p),
{
    match p {
        Precision::Microsecond => secs as i64 * 1_000_000 + frac as i64,
        Precision::Nanosecond => secs as i64 * 1_000_000_000 + frac as i64,
    }
}

/// One packet record as read from the stream.  Transient: its fields
/// are appended to column buffers and the record is then discarded.
pub struct FrameRecord {
    /// Timestamp seconds.
    pub ts_seconds: u32,
    /// Timestamp sub-second fraction, in the file's unit.
    pub ts_fraction: u32,
    /// Number of payload bytes stored; equals `payload.len()`.
    pub captured_length: u32,
    /// Number of bytes of the packet on the wire.
    pub original_length: u32,
    /// The stored payload.
    pub payload: Vec<u8>,
}

impl View for FrameRecord {
    type V = SpecFrame;

    open spec fn view(&self) -> SpecFrame {
        SpecFrame {
            secs: self.ts_seconds,
            frac: self.ts_fraction,
            caplen: self.captured_length,
            origlen: self.original_length,
            payload: self.payload@,
        }
    }
}

/// What one attempt to read a record returned.
pub enum ReadFrame {
    /// Fewer than 16 bytes remain: normal termination.
    EndOfStream,
    /// The record at the cursor is corrupt.
    Corrupt,
    /// A whole record, and the cursor position after it.
    Frame(FrameRecord, usize),
}

/// Reads the record at `pos`, exactly as the model `spec_frame_at`
/// describes the bytes there.
pub fn read_frame(b: &Vec<u8>, pos: usize, en: Endianness, snap: u32) -> (r: ReadFrame)
    requires
        pos <= b.len(),
    ensures
        match r {
            ReadFrame::EndOfStream => spec_frame_at(b@, pos as int, en, snap)
                is EndOfStream,
            ReadFrame::Corrupt => spec_frame_at(b@, pos as int, en, snap) is Corrupt,
            ReadFrame::Frame(f, next) => spec_frame_at(b@, pos as int, en, snap) == (
            FrameStep::Frame { frame: f@, next: next as int }),
        },
{
    if b.len() - pos < RECORD_HEADER_LEN {
        return ReadFrame::EndOfStream;
    }
    let caplen: u32 = read_u32_at(b, pos + 8, en);
    if caplen > snap {
        return ReadFrame::Corrupt;
    }
    let cap: usize = caplen as usize;
    let start: usize = pos + RECORD_HEADER_LEN;
    if cap > b.len() - start {
        return ReadFrame::Corrupt;
    }
    let mut payload: Vec<u8> = Vec::new();
    let mut i: usize = 0;
    while i < cap
        invariant
            i <= cap,
            start + cap <= b.len(),
            payload@ == b@.subrange(start as int, start + i as int),
        decreases cap - i,
    {
        payload.push(b[start + i]);
        i = i + 1;
        proof {
            assert(b@.subrange(start as int, start + i as int) =~= b@.subrange(
                start as int,
                start + i - 1,
            ).push(b@[start + i - 1]));
        }
    }
    let record = FrameRecord {
        ts_seconds: read_u32_at(b, pos, en),
        ts_fraction: read_u32_at(b, pos + 4, en),
        captured_length: caplen,
        original_length: read_u32_at(b, pos + 12, en),
        payload,
    };
    ReadFrame::Frame(record, start + cap)
}

/// What taking up to `n` records from `pos` yields: the records in
/// stream order and the position after them (fewer than `n` only when
/// clean end of stream came first), or corruption anywhere among them.
pub enum TakeStep {
    /// A corrupt record stands among the first `n`.
    Corrupt,
    /// The records taken, and the position of the byte after them.
    Done { frames: Seq<SpecFrame>, end: int },
}

/// Takes up to `n` records from `pos`, stopping early only at clean end
/// of stream, and failing as a whole on the first corrupt record.
pub open spec fn spec_take(b: Seq<u8>, pos: int, en: Endianness, snap: u32, n: nat) -> TakeStep
    decreases n,
{
    if n == 0 {
        TakeStep::Done { frames: Seq::empty(), end: pos }
    } else {
        match spec_frame_at(b, pos, en, snap) {
            FrameStep::EndOfStream => TakeStep::Done { frames: Seq::empty(), end: pos },
            FrameStep::Corrupt => TakeStep::Corrupt,
            FrameStep::Frame { frame, next } => match spec_take(b, next, en, snap, (n - 1) as nat) {
                TakeStep::Corrupt => TakeStep::Corrupt,
                TakeStep::Done { frames, end } => TakeStep::Done {
                    frames: seq![frame] + frames,
                    end: end,
                },
            },
        }
    }
}

/// Consecutive reads cover the stream with no gap and no repeat: a full
/// take of `n` records followed by a take of `m` records from where it
/// ended yields, concatenated, exactly the take of `n + m` records from
/// the original position — and corruption within reach of the second
/// take is corruption within reach of the combined one.
pub proof fn lemma_take_concat(b: Seq<u8>, pos: int, en: Endianness, snap: u32, n: nat, m: nat)
    requires
        spec_take(b, pos, en, snap, n) is Done,
        spec_take(b, pos, en, snap, n)->frames.len() == n,
    ensures
        ({
            let first = spec_take(b, pos, en, snap, n);
            match spec_take(b, first->end, en, snap, m) {
                TakeStep::Corrupt => spec_take(b, pos, en, snap, (n + m) as nat) is Corrupt,
                TakeStep::Done { frames, end } => spec_take(b, pos, en, snap, (n + m) as nat) == (
                TakeStep::Done { frames: first->frames + frames, end: end }),
            }
        }),
    decreases n,
{
    let first = spec_take(b, pos, en, snap, n);
    if n == 0 {
        assert(first->end == pos);
        match spec_take(b, pos, en, snap, m) {
            TakeStep::Corrupt => {},
            TakeStep::Done { frames, end } => {
                assert(first->frames + frames =~= frames);
            },
        }
    } else {
        match spec_frame_at(b, pos, en, snap) {
            FrameStep::EndOfStream => {
                assert(first->frames.len() == 0);
            },
            FrameStep::Corrupt => {},
            FrameStep::Frame { frame, next } => {
                let rest = spec_take(b, next, en, snap, (n - 1) as nat);
                assert(rest is Done && rest->frames.len() == n - 1);
                lemma_take_concat(b, next, en, snap, (n - 1) as nat, m);
                match spec_take(b, first->end, en, snap, m) {
                    TakeStep::Corrupt => {},
                    TakeStep::Done { frames, end } => {
                        assert(seq![frame] + (rest->frames + frames) =~= (seq![frame]
                            + rest->frames) + frames);
                    },
                }
            },
        }
    }
}

/// Extending a full take by one record reads exactly the record at its
/// end position: the loop that fills a batch grows its model this way.
pub proof fn lemma_take_snoc(b: Seq<u8>, pos: int, en: Endianness, snap: u32, n: nat)
    requires
        spec_take(b, pos, en, snap, n) is Done,
        spec_take(b, pos, en, snap, n)->frames.len() == n,
    ensures
        ({
            let first = spec_take(b, pos, en, snap, n);
            match spec_frame_at(b, first->end, en, snap) {
                FrameStep::EndOfStream => spec_take(b, pos, en, snap, (n + 1) as nat) == first,
                FrameStep::Corrupt => spec_take(b, pos, en, snap, (n + 1) as nat) is Corrupt,
                FrameStep::Frame { frame, next } => spec_take(b, pos, en, snap, (n + 1) as nat)
                    == (TakeStep::Done { frames: first->frames.push(frame), end: next }),
            }
        }),
{
    let first = spec_take(b, pos, en, snap, n);
    lemma_take_concat(b, pos, en, snap, n, 1);
    match spec_frame_at(b, first->end, en, snap) {
        FrameStep::EndOfStream => {
            assert(spec_take(b, first->end, en, snap, 1) == (TakeStep::Done {
                frames: Seq::<SpecFrame>::empty(),
                end: first->end,
            }));
            assert(first->frames + Seq::<SpecFrame>::empty() =~= first->frames);
        },
        FrameStep::Corrupt => {},
        FrameStep::Frame { frame, next } => {
            assert(spec_take(b, next, en, snap, 0) == (TakeStep::Done {
                frames: Seq::<SpecFrame>::empty(),
                end: next,
            }));
            assert(seq![frame] + Seq::<SpecFrame>::empty() =~= seq![frame]);
            assert(first->frames + seq![frame] =~= first->frames.push(frame));
        },
    }
}

/// A take that stopped early — at clean end of stream, before its count
/// was reached — is what every larger take yields as well.
pub proof fn lemma_take_stable(b: Seq<u8>, pos: int, en: Endianness, snap: u32, n: nat, m: nat)
    requires
        spec_take(b, pos, en, snap, n) is Done,
        spec_take(b, pos, en, snap, n)->frames.len() < n,
        n <= m,
    ensures
        spec_take(b, pos, en, snap, m) == spec_take(b, pos, en, snap, n),
    decreases n,
{
    match spec_frame_at(b, pos, en, snap) {
        FrameStep::EndOfStream => {},
        FrameStep::Corrupt => {},
        FrameStep::Frame { frame, next } => {
            let rest = spec_take(b, next, en, snap, (n - 1) as nat);
            assert(rest is Done && rest->frames.len() < n - 1);
            lemma_take_stable(b, next, en, snap, (n - 1) as nat, (m - 1) as nat);
        },
    }
}

/// Corruption within reach of a take stays within reach of every larger
/// take.
pub proof fn lemma_take_corrupt_stable(
    b: Seq<u8>,
    pos: int,
    en: Endianness,
    snap: u32,
    n: nat,
    m: nat,
)
    requires
        spec_take(b, pos, en, snap, n) is Corrupt,
        n <= m,
    ensures
        spec_take(b, pos, en, snap, m) is Corrupt,
    decreases n,
{
    match spec_frame_at(b, pos, en, snap) {
        FrameStep::EndOfStream => {},
        FrameStep::Corrupt => {},
        FrameStep::Frame { frame, next } => {
            lemma_take_corrupt_stable(b, next, en, snap, (n - 1) as nat, (m - 1) as nat);
        },
    }
}

} // verus!
