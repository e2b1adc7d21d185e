use polarcap::batch::{ColumnType, PacketBatch};
use polarcap::errors::CaptureError;
use polarcap::format::{Endianness, Precision};
use polarcap::format::{read_u32_at, read_u16_at};
use polarcap::frame::timestamp_value;
use polarcap::header::parse_header;
use polarcap::parser::PCapParser;
use polarcap::source::{PCapSource, Predicate};

const MAGIC_MICRO_LE: [u8; 4] = [0xd4, 0xc3, 0xb2, 0xa1];
const MAGIC_MICRO_BE: [u8; 4] = [0xa1, 0xb2, 0xc3, 0xd4];
const MAGIC_NANO_LE: [u8; 4] = [0x4d, 0x3c, 0xb2, 0xa1];
const MAGIC_NANO_BE: [u8; 4] = [0xa1, 0xb2, 0x3c, 0x4d];

fn put32(out: &mut Vec<u8>, v: u32, en: Endianness) {
    match en {
        Endianness::Little => out.extend_from_slice(&v.to_le_bytes()),
        Endianness::Big => out.extend_from_slice(&v.to_be_bytes()),
    }
}

fn put16(out: &mut Vec<u8>, v: u16, en: Endianness) {
    match en {
        Endianness::Little => out.extend_from_slice(&v.to_le_bytes()),
        Endianness::Big => out.extend_from_slice(&v.to_be_bytes()),
    }
}

fn global_header(magic: [u8; 4], en: Endianness, snap_len: u32) -> Vec<u8> {
    let mut out = Vec::new();
    out.extend_from_slice(&magic);
    put16(&mut out, 2, en); // version major
    put16(&mut out, 4, en); // version minor
    put32(&mut out, 0, en); // timezone offset, ignored
    put32(&mut out, 0, en); // timestamp accuracy, ignored
    put32(&mut out, snap_len, en);
    put32(&mut out, 1, en); // link-layer type
    out
}

fn push_record(out: &mut Vec<u8>, en: Endianness, secs: u32, frac: u32, origlen: u32, payload: &[u8]) {
    put32(out, secs, en);
    put32(out, frac, en);
    put32(out, payload.len() as u32, en);
    put32(out, origlen, en);
    out.extend_from_slice(payload);
}

/// A little-endian microsecond capture with `n` packets of one byte each.
fn micro_capture(n: u32) -> Vec<u8> {
    let mut out = global_header(MAGIC_MICRO_LE, Endianness::Little, 65535);
    for i in 0..n {
        push_record(&mut out, Endianness::Little, i, 0, 1, &[i as u8]);
    }
    out
}

fn collect_all(source: &mut PCapSource) -> Vec<PacketBatch> {
    let mut batches = Vec::new();
    while let Some(batch) = source.next().unwrap() {
        batches.push(batch);
    }
    batches
}

#[test]
fn test_parse_pcap_module() {
    // Basic test to ensure module compiles
}

#[test]
fn test_open_microsecond_little_endian_header() {
    let bytes = global_header(MAGIC_MICRO_LE, Endianness::Little, 262144);
    let parser = PCapParser::open(bytes).unwrap();
    assert_eq!(parser.header.magic, 0xa1b2c3d4);
    assert_eq!(parser.header.version_major, 2);
    assert_eq!(parser.header.version_minor, 4);
    assert_eq!(parser.header.endianness, Endianness::Little);
    assert_eq!(parser.header.precision, Precision::Microsecond);
    assert_eq!(parser.header.snap_len, 262144);
    assert_eq!(parser.header.link_type, 1);
}

#[test]
fn test_open_nanosecond_big_endian_header() {
    let bytes = global_header(MAGIC_NANO_BE, Endianness::Big, 1000);
    let parser = PCapParser::open(bytes).unwrap();
    assert_eq!(parser.header.magic, 0xa1b23c4d);
    assert_eq!(parser.header.endianness, Endianness::Big);
    assert_eq!(parser.header.precision, Precision::Nanosecond);
    assert_eq!(parser.header.snap_len, 1000);
}

#[test]
fn test_unknown_magic_is_format_error() {
    let bytes = global_header([0xde, 0xad, 0xbe, 0xef], Endianness::Little, 100);
    assert_eq!(PCapParser::open(bytes).unwrap_err(), CaptureError::FormatError);
}

#[test]
fn test_short_input_is_truncated_error() {
    let mut bytes = global_header(MAGIC_MICRO_LE, Endianness::Little, 100);
    bytes.truncate(23);
    assert_eq!(PCapParser::open(bytes).unwrap_err(), CaptureError::TruncatedInputError);
}

#[test]
fn test_empty_input_is_truncated_error() {
    assert_eq!(
        PCapSource::new_source(Vec::new(), None, None).unwrap_err(),
        CaptureError::TruncatedInputError
    );
}

#[test]
fn test_header_parse_matches_open() {
    let bytes = global_header(MAGIC_NANO_LE, Endianness::Little, 42);
    let header = parse_header(&bytes).unwrap();
    assert_eq!(header.precision, Precision::Nanosecond);
    assert_eq!(header.endianness, Endianness::Little);
    assert_eq!(header.snap_len, 42);
}

#[test]
fn test_read_u32_both_byte_orders() {
    let bytes = vec![0x01, 0x02, 0x03, 0x04];
    assert_eq!(read_u32_at(&bytes, 0, Endianness::Little), 0x04030201);
    assert_eq!(read_u32_at(&bytes, 0, Endianness::Big), 0x01020304);
    assert_eq!(read_u16_at(&bytes, 1, Endianness::Little), 0x0302);
    assert_eq!(read_u16_at(&bytes, 1, Endianness::Big), 0x0203);
}

#[test]
fn test_timestamp_value_exact() {
    assert_eq!(timestamp_value(3, 7, Precision::Microsecond), 3_000_007);
    assert_eq!(timestamp_value(3, 7, Precision::Nanosecond), 3_000_000_007);
    assert_eq!(
        timestamp_value(u32::MAX, u32::MAX, Precision::Nanosecond),
        4_294_967_295_000_000_000 + 4_294_967_295
    );
}

// A capture with zero packets after a valid header yields an immediate
// end-of-data signal on the first pull, never an empty batch.
#[test]
fn test_zero_packets_yield_end_of_data() {
    let bytes = global_header(MAGIC_MICRO_LE, Endianness::Little, 65535);
    let mut source = PCapSource::new_source(bytes, None, None).unwrap();
    assert!(source.next().unwrap().is_none());
    assert!(source.next().unwrap().is_none());
}

// Concatenating every batch's data column in order reproduces the
// payloads byte for byte, and packet_number forms 0,1,2,... with no
// gaps or repeats across batch boundaries.
#[test]
fn test_batches_concatenate_without_gap_or_repeat() {
    let mut bytes = global_header(MAGIC_MICRO_LE, Endianness::Little, 65535);
    let payloads: Vec<Vec<u8>> = vec![
        vec![1, 2, 3],
        vec![],
        vec![9, 8, 7, 6, 5],
        vec![0xff],
        vec![10, 20],
    ];
    for (i, p) in payloads.iter().enumerate() {
        push_record(&mut bytes, Endianness::Little, i as u32, 0, p.len() as u32, p);
    }
    let mut source = PCapSource::new_source(bytes, Some(2), None).unwrap();
    let batches = collect_all(&mut source);
    assert_eq!(batches.len(), 3);
    let mut all_data: Vec<Vec<u8>> = Vec::new();
    let mut all_numbers: Vec<u64> = Vec::new();
    for batch in &batches {
        all_data.extend(batch.data.iter().cloned());
        all_numbers.extend(batch.packet_number.iter().cloned());
    }
    assert_eq!(all_data, payloads);
    assert_eq!(all_numbers, vec![0, 1, 2, 3, 4]);
}

// Schema introspection before and after any number of pulls returns
// the identical schema.
#[test]
fn test_schema_idempotent_across_pulls() {
    let bytes = micro_capture(5);
    let mut source = PCapSource::new_source(bytes, Some(2), None).unwrap();
    let before = source.schema();
    assert_eq!(before.timestamp, ColumnType::Datetime(Precision::Microsecond));
    assert_eq!(before.packet_number, ColumnType::UInt64);
    assert_eq!(before.captured_length, ColumnType::UInt32);
    assert_eq!(before.original_length, ColumnType::UInt32);
    assert_eq!(before.data, ColumnType::Binary);
    source.next().unwrap();
    let mid = source.schema();
    collect_all(&mut source);
    let after = source.schema();
    assert_eq!(before, mid);
    assert_eq!(before, after);
}

// max_rows smaller than the packet count yields exactly max_rows rows
// over all pulls combined, the last pull truncated and the next one
// reporting end-of-data though unread bytes remain.
#[test]
fn test_max_rows_truncates_and_exhausts() {
    let bytes = micro_capture(5);
    let mut source = PCapSource::new_source(bytes, Some(2), Some(3)).unwrap();
    let first = source.next().unwrap().unwrap();
    assert_eq!(first.len(), 2);
    let second = source.next().unwrap().unwrap();
    assert_eq!(second.len(), 1);
    assert_eq!(second.packet_number, vec![2]);
    assert!(source.next().unwrap().is_none());
    assert!(source.next().unwrap().is_none());
}

#[test]
fn test_max_rows_zero_is_immediate_end() {
    let bytes = micro_capture(4);
    let mut source = PCapSource::new_source(bytes, None, Some(0)).unwrap();
    assert!(source.next().unwrap().is_none());
}

// A record whose declared captured length exceeds the snapshot length
// fails the pull with CorruptRecordError, and the session reports the
// same failure on any further pull.
#[test]
fn test_over_snaplen_record_latches_corruption() {
    let mut bytes = global_header(MAGIC_MICRO_LE, Endianness::Little, 4);
    push_record(&mut bytes, Endianness::Little, 0, 0, 2, &[1, 2]);
    push_record(&mut bytes, Endianness::Little, 1, 0, 8, &[1, 2, 3, 4, 5, 6, 7, 8]);
    let mut source = PCapSource::new_source(bytes, Some(1), None).unwrap();
    let good = source.next().unwrap().unwrap();
    assert_eq!(good.data, vec![vec![1, 2]]);
    assert_eq!(source.next().unwrap_err(), CaptureError::CorruptRecordError);
    assert_eq!(source.next().unwrap_err(), CaptureError::CorruptRecordError);
    assert_eq!(source.next().unwrap_err(), CaptureError::CorruptRecordError);
}

#[test]
fn test_payload_cut_short_is_corrupt() {
    let mut bytes = global_header(MAGIC_MICRO_LE, Endianness::Little, 65535);
    put32(&mut bytes, 0, Endianness::Little);
    put32(&mut bytes, 0, Endianness::Little);
    put32(&mut bytes, 10, Endianness::Little); // captured length: 10
    put32(&mut bytes, 10, Endianness::Little);
    bytes.extend_from_slice(&[1, 2, 3, 4]); // only 4 payload bytes present
    let mut source = PCapSource::new_source(bytes, None, None).unwrap();
    assert_eq!(source.next().unwrap_err(), CaptureError::CorruptRecordError);
}

#[test]
fn test_partial_trailing_header_is_clean_end() {
    let mut bytes = micro_capture(3);
    bytes.extend_from_slice(&[0, 1, 2, 3, 4, 5, 6]); // 7 stray bytes: under a record header
    let mut source = PCapSource::new_source(bytes, None, None).unwrap();
    let batch = source.next().unwrap().unwrap();
    assert_eq!(batch.len(), 3);
    assert!(source.next().unwrap().is_none());
}

// A capture with microsecond precision and 3 packets of captured
// lengths {10, 20, 0}; batch size 2 yields 2 rows, then 1 row, then
// end-of-data.
#[test]
fn test_three_packets_batch_of_two() {
    let mut bytes = global_header(MAGIC_MICRO_LE, Endianness::Little, 65535);
    push_record(&mut bytes, Endianness::Little, 10, 1, 10, &[7; 10]);
    push_record(&mut bytes, Endianness::Little, 20, 2, 20, &[8; 20]);
    push_record(&mut bytes, Endianness::Little, 30, 3, 0, &[]);
    let mut source = PCapSource::new_source(bytes, Some(2), None).unwrap();
    let first = source.next().unwrap().unwrap();
    assert_eq!(first.len(), 2);
    assert_eq!(first.packet_number, vec![0, 1]);
    assert_eq!(first.captured_length, vec![10, 20]);
    assert_eq!(first.original_length, vec![10, 20]);
    let second = source.next().unwrap().unwrap();
    assert_eq!(second.len(), 1);
    assert_eq!(second.packet_number, vec![2]);
    assert_eq!(second.captured_length, vec![0]);
    assert!(source.next().unwrap().is_none());
}

// A nanosecond-magic file and a microsecond-magic file with the same
// seconds=1, fraction=500 produce numerically different timestamps,
// each tagged with its own unit.
#[test]
fn test_precision_units_differ() {
    let mut nano = global_header(MAGIC_NANO_LE, Endianness::Little, 100);
    push_record(&mut nano, Endianness::Little, 1, 500, 0, &[]);
    let mut micro = global_header(MAGIC_MICRO_LE, Endianness::Little, 100);
    push_record(&mut micro, Endianness::Little, 1, 500, 0, &[]);

    let mut nano_source = PCapSource::new_source(nano, None, None).unwrap();
    assert_eq!(nano_source.schema().timestamp, ColumnType::Datetime(Precision::Nanosecond));
    let nano_batch = nano_source.next().unwrap().unwrap();
    assert_eq!(nano_batch.timestamp, vec![1_000_000_500]);
    assert_eq!(nano_batch.timestamp_unit, Precision::Nanosecond);

    let mut micro_source = PCapSource::new_source(micro, None, None).unwrap();
    assert_eq!(micro_source.schema().timestamp, ColumnType::Datetime(Precision::Microsecond));
    let micro_batch = micro_source.next().unwrap().unwrap();
    assert_eq!(micro_batch.timestamp, vec![1_000_500]);
    assert_eq!(micro_batch.timestamp_unit, Precision::Microsecond);

    assert_ne!(nano_batch.timestamp, micro_batch.timestamp);
}

#[test]
fn test_big_endian_record_fields() {
    let mut bytes = global_header(MAGIC_MICRO_BE, Endianness::Big, 65535);
    push_record(&mut bytes, Endianness::Big, 5, 6, 300, &[0xaa, 0xbb]);
    let mut source = PCapSource::new_source(bytes, None, None).unwrap();
    let batch = source.next().unwrap().unwrap();
    assert_eq!(batch.timestamp, vec![5_000_006]);
    assert_eq!(batch.captured_length, vec![2]);
    assert_eq!(batch.original_length, vec![300]);
    assert_eq!(batch.data, vec![vec![0xaa, 0xbb]]);
}

#[test]
fn test_default_hint_reads_all_in_one_pull() {
    let bytes = micro_capture(37);
    let mut source = PCapSource::new_source(bytes, None, None).unwrap();
    let batch = source.next().unwrap().unwrap();
    assert_eq!(batch.len(), 37);
    assert!(source.next().unwrap().is_none());
}

#[test]
fn test_try_set_predicate_is_accepted_and_ignored() {
    let bytes = micro_capture(4);
    let mut source = PCapSource::new_source(bytes, None, None).unwrap();
    source.try_set_predicate(Predicate).unwrap();
    let batch = source.next().unwrap().unwrap();
    assert_eq!(batch.len(), 4); // no row was skipped or pruned
}

#[test]
fn test_captured_length_may_equal_snaplen() {
    let mut bytes = global_header(MAGIC_MICRO_LE, Endianness::Little, 4);
    push_record(&mut bytes, Endianness::Little, 0, 0, 4, &[1, 2, 3, 4]);
    let mut source = PCapSource::new_source(bytes, None, None).unwrap();
    let batch = source.next().unwrap().unwrap();
    assert_eq!(batch.captured_length, vec![4]);
    assert_eq!(batch.data, vec![vec![1, 2, 3, 4]]);
}

#[test]
fn test_zero_batch_size_reads_nothing() {
    let bytes = micro_capture(2);
    let mut parser = PCapParser::open(bytes).unwrap();
    assert!(parser.read_batch(0).unwrap().is_none());
    let batch = parser.read_batch(5).unwrap().unwrap();
    assert_eq!(batch.len(), 2); // nothing was consumed by the empty request
}

#[test]
fn test_read_batch_directly() {
    let bytes = micro_capture(3);
    let mut parser = PCapParser::open(bytes).unwrap();
    let first = parser.read_batch(2).unwrap().unwrap();
    assert_eq!(first.packet_number, vec![0, 1]);
    let second = parser.read_batch(2).unwrap().unwrap();
    assert_eq!(second.packet_number, vec![2]);
    assert!(parser.read_batch(2).unwrap().is_none());
}
