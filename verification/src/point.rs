//! Point records and the decoding of a point-cloud payload.
//!
//! The point-cloud filter hands out its result as one contiguous payload of
//! interleaved position and color samples. Each sample is six 32-bit words in
//! little-endian byte order: the position `x`, `y`, `z` followed by the color
//! `r`, `g`, `b`. Every word is the IEEE-754 bit pattern of a single-precision
//! number; the library never interprets the pattern, it only carries it.

use vstd::prelude::*;

verus! {

/// Size in bytes of one encoded point record.
pub const POINT_RECORD_BYTES: usize = 24;

/// One sample of a point cloud: a position and a color, each component held
/// as the bit pattern of a single-precision number.
#[derive(Clone, Copy, Debug, PartialEq, Eq, Structural)]
pub struct PointRecord {
    pub x: u32,
    pub y: u32,
    pub z: u32,
    pub r: u32,
    pub g: u32,
    pub b: u32,
}

/// The 32-bit word stored in little-endian order at byte offset `at`.
pub open spec fn word_at(bytes: Seq<u8>, at: int) -> u32 {
    (bytes[at] as int + bytes[at + 1] as int * 0x100 + bytes[at + 2] as int * 0x1_0000 + bytes[at
        + 3] as int * 0x100_0000) as u32
}

/// The record that occupies bytes `24 * index .. 24 * index + 24`.
pub open spec fn record_at(bytes: Seq<u8>, index: int) -> PointRecord {
    let at = index * 24;
    PointRecord {
        x: word_at(bytes, at),
        y: word_at(bytes, at + 4),
        z: word_at(bytes, at + 8),
        r: word_at(bytes, at + 12),
        g: word_at(bytes, at + 16),
        b: word_at(bytes, at + 20),
    }
}

/// Number of whole records in a payload; trailing bytes that do not fill a
/// record are not part of any sample.
pub open spec fn point_count(bytes: Seq<u8>) -> nat {
    bytes.len() / 24
}

/// The batch a payload decodes to: its whole records, in payload order.
pub open spec fn decoded(bytes: Seq<u8>) -> Seq<PointRecord> {
    Seq::new(point_count(bytes), |i: int| record_at(bytes, i))
}

/// Reads the little-endian word at byte offset `at`.
fn read_word(payload: &[u8], at: usize) -> (word: u32)
    requires
        at + 4 <= payload@.len(),
    ensures
        word == word_at(payload@, at as int),
{
    let b0: u32 = payload[at] as u32;
    let b1: u32 = payload[at + 1] as u32;
    let b2: u32 = payload[at + 2] as u32;
    let b3: u32 = payload[at + 3] as u32;
    b0 + b1 * 0x100 + b2 * 0x1_0000 + b3 * 0x100_0000
}

/// Reads the record with the given index.
fn read_record(payload: &[u8], index: usize) -> (record: PointRecord)
    requires
        index < point_count(payload@),
    ensures
        record == record_at(payload@, index as int),
{
    let len: usize = payload.len();
    assert(index * 24 + 24 <= len) by {
        assert(index + 1 <= len / 24);
    }
    let at: usize = index * POINT_RECORD_BYTES;
    PointRecord {
        x: read_word(payload, at),
        y: read_word(payload, at + 4),
        z: read_word(payload, at + 8),
        r: read_word(payload, at + 12),
        g: read_word(payload, at + 16),
        b: read_word(payload, at + 20),
    }
}

/// Decodes a point-cloud payload into a batch of point records.
///
/// The batch holds `payload.len() / 24` records in payload order; a payload
/// shorter than one record decodes to the empty batch.
pub fn decode_points(payload: &[u8]) -> (batch: Vec<PointRecord>)
    ensures
        batch@ == decoded(payload@),
{
    let count: usize = payload.len() / POINT_RECORD_BYTES;
    let mut batch: Vec<PointRecord> = Vec::new();
    let mut index: usize = 0;
    while index < count
        invariant
            count == point_count(payload@),
            index <= count,
            batch@.len() == index,
            forall|i: int| 0 <= i < index ==> batch@[i] == record_at(payload@, i),
        decreases count - index,
    {
        batch.push(read_record(payload, index));
        index += 1;
    }
    assert(batch@ =~= decoded(payload@));
    batch
}

} // verus!
