//! The columnar output: an immutable batch of packet records, one
//! column per field, and the fixed schema that describes it.

use vstd::prelude::*;
use crate::format::Precision;
use crate::frame::{SpecFrame, spec_timestamp};

verus! {

/// Type of one output column.
#[derive(Clone, Copy, Debug, PartialEq, Eq, Structural)]
pub enum ColumnType {
    /// A timestamp column, tagged with its unit.
    Datetime(Precision),
    /// An unsigned 64-bit integer column.
    UInt64,
    /// An unsigned 32-bit integer column.
    UInt32,
    /// A variable-length byte-blob column.
    Binary,
}

/// The fixed output schema: one typed entry per column, in column
/// order.  Only the timestamp unit varies, and only with the capture's
/// declared precision.
#[derive(Clone, Copy, Debug, PartialEq, Eq, Structural)]
pub struct Schema {
    /// Type of the `timestamp` column.
    pub timestamp: ColumnType,
    /// Type of the `packet_number` column.
    pub packet_number: ColumnType,
    /// Type of the `captured_length` column.
    pub captured_length: ColumnType,
    /// Type of the `original_length` column.
    pub original_length: ColumnType,
    /// Type of the `data` column.
    pub data: ColumnType,
}

/// The schema of every batch of a capture with timestamp unit `p`.
pub open spec fn spec_schema(p: Precision) -> Schema {
    Schema {
        timestamp: ColumnType::Datetime(p),
        packet_number: ColumnType::UInt64,
        captured_length: ColumnType::UInt32,
        original_length: ColumnType::UInt32,
        data: ColumnType::Binary,
    }
}

/// One immutable columnar batch of packet records.
///
/// The five columns always hold the same number of entries; row `i` of
/// every column belongs to the same packet.  `packet_number` values are
/// consecutive: they continue the session's global counter and never
/// reset across batches.
#[derive(Debug)]
pub struct PacketBatch {
    /// Packet timestamps, in the unit `timestamp_unit` names.
    pub timestamp: Vec<i64>,
    /// Zero-based global packet numbers, strictly increasing by one.
    pub packet_number: Vec<u64>,
    /// Bytes stored per packet.
    pub captured_length: Vec<u32>,
    /// Bytes on the wire per packet.
    pub original_length: Vec<u32>,
    /// Raw payload per packet; entry `i` holds `captured_length[i]` bytes.
    pub data: Vec<Vec<u8>>,
    /// Unit of the `timestamp` column: the capture's declared precision.
    pub timestamp_unit: Precision,
}

impl PacketBatch {
    /// All five columns hold the same number of rows.
    pub open spec fn wf(self) -> bool {
        &&& self.packet_number@.len() == self.timestamp@.len()
        &&& self.captured_length@.len() == self.timestamp@.len()
        &&& self.original_length@.len() == self.timestamp@.len()
        &&& self.data@.len() == self.timestamp@.len()
    }

    /// Number of rows of the batch.
    pub open spec fn spec_len(self) -> nat {
        self.timestamp@.len()
    }

    /// Number of rows of the batch.
    pub fn len(&self) -> (r: usize)
        ensures
            r == self.spec_len(),
    {
        self.timestamp.len()
    }
}

/// The batch holds exactly the records `frames`, row for row and field
/// for field: timestamps combined in unit `p`, packet numbers counting
/// on from `first`, lengths and payload bytes taken verbatim.
pub open spec fn batch_matches(
    batch: PacketBatch,
    frames: Seq<SpecFrame>,
    first: u64,
    p: Precision,
) -> bool {
    &&& batch.wf()
    &&& batch.spec_len() == frames.len()
    &&& batch.timestamp_unit == p
    &&& forall|i: int|
        0 <= i < frames.len() ==> {
            &&& #[trigger] batch.timestamp@[i] == spec_timestamp(
                frames[i].secs,
                frames[i].frac,
                p,
            )
            &&& batch.packet_number@[i] == first + i
            &&& batch.captured_length@[i] == frames[i].caplen
            &&& batch.original_length@[i] == frames[i].origlen
            &&& batch.data@[i]@ == frames[i].payload
        }
}

/// Batches from consecutive pulls chain seamlessly.  When one batch
/// stands for the records `f1` numbered from `first`, and the next
/// batch stands for the records `f2` that follow them — numbered from
/// `first + f1.len()`, as a session's counter hands numbers out — then
/// concatenating their `data` columns reproduces, row for row and byte
/// for byte, the payloads of the concatenated records, and the
/// concatenated packet numbers form the gapless, repeat-free sequence
/// `first, first + 1, ...` across the batch boundary.
pub proof fn lemma_batches_chain(
    b1: PacketBatch,
    b2: PacketBatch,
    f1: Seq<SpecFrame>,
    f2: Seq<SpecFrame>,
    first: u64,
    p: Precision,
)
    requires
        batch_matches(b1, f1, first, p),
        first + f1.len() + f2.len() <= u64::MAX,
        batch_matches(b2, f2, (first + f1.len()) as u64, p),
    ensures
        forall|i: int|
            0 <= i < f1.len() + f2.len() ==> (b1.data@ + b2.data@)[i]@ == #[trigger] (f1
                + f2)[i].payload,
        forall|i: int|
            0 <= i < f1.len() + f2.len() ==> #[trigger] (b1.packet_number@
                + b2.packet_number@)[i] == first + i,
{
    assert forall|i: int| 0 <= i < f1.len() + f2.len() implies (b1.data@ + b2.data@)[i]@
        == #[trigger] (f1 + f2)[i].payload by {
        if i < f1.len() {
            assert(b1.timestamp@[i] == spec_timestamp(f1[i].secs, f1[i].frac, p));
            assert((f1 + f2)[i] == f1[i]);
            assert((b1.data@ + b2.data@)[i] == b1.data@[i]);
        } else {
            assert(b2.timestamp@[i - f1.len()] == spec_timestamp(
                f2[i - f1.len()].secs,
                f2[i - f1.len()].frac,
                p,
            ));
            assert((f1 + f2)[i] == f2[i - f1.len()]);
            assert((b1.data@ + b2.data@)[i] == b2.data@[i - f1.len()]);
        }
    }
    assert forall|i: int| 0 <= i < f1.len() + f2.len() implies #[trigger] (b1.packet_number@
        + b2.packet_number@)[i] == first + i by {
        if i < f1.len() {
            assert(b1.timestamp@[i] == spec_timestamp(f1[i].secs, f1[i].frac, p));
            assert((b1.packet_number@ + b2.packet_number@)[i] == b1.packet_number@[i]);
        } else {
            assert(b2.timestamp@[i - f1.len()] == spec_timestamp(
                f2[i - f1.len()].secs,
                f2[i - f1.len()].frac,
                p,
            ));
            assert((b1.packet_number@ + b2.packet_number@)[i] == b2.packet_number@[i
                - f1.len()]);
        }
    }
}

} // verus!
