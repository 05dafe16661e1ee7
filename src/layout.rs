//! The bit layout of an identifier: packing and unpacking its three fields.
use vstd::prelude::*;

verus! {

/// Width of the sequence field, the lowest bits of an identifier.
pub const SEQUENCE_BITS: u64 = 12;

/// Width of the worker id field, just above the sequence field.
pub const WORKER_ID_BITS: u64 = 10;

/// Position of the lowest bit of the worker id field.
pub const WORKER_ID_SHIFT: u64 = SEQUENCE_BITS;

/// Position of the lowest bit of the timestamp field.
pub const TIMESTAMP_SHIFT: u64 = SEQUENCE_BITS + WORKER_ID_BITS;

/// Largest sequence number within one millisecond.
pub const MAX_SEQUENCE: u16 = 4095;

/// Largest worker id.
pub const MAX_WORKER_ID: u16 = 1023;

/// Largest timestamp that the 42 bits above the worker id can hold.
pub const MAX_TIMESTAMP: u64 = 4398046511103;

/// The identifier made of a timestamp, a worker id and a sequence number.
pub open spec fn id_value(timestamp: int, worker_id: int, sequence: int) -> int {
    timestamp * 4194304 + worker_id * 4096 + sequence
}

/// The timestamp field of an identifier.
pub open spec fn timestamp_field(id: int) -> int {
    id / 4194304
}

/// The worker id field of an identifier.
pub open spec fn worker_id_field(id: int) -> int {
    (id / 4096) % 1024
}

/// The sequence field of an identifier.
pub open spec fn sequence_field(id: int) -> int {
    id % 4096
}

/// Packs the three fields into one identifier.
pub fn pack_id(timestamp: u64, worker_id: u16, sequence: u16) -> (id: u64)
    requires
        timestamp <= MAX_TIMESTAMP,
        worker_id <= MAX_WORKER_ID,
        sequence <= MAX_SEQUENCE,
    ensures
        id == id_value(timestamp as int, worker_id as int, sequence as int),
{
    let w = worker_id as u64;
    let s = sequence as u64;
    assert((timestamp << 22u64) | (w << 12u64) | s == timestamp * 4194304 + w * 4096 + s)
        by (bit_vector)
        requires
            timestamp <= 4398046511103u64,
            w <= 1023u64,
            s <= 4095u64,
    ;
    (timestamp << TIMESTAMP_SHIFT) | (w << WORKER_ID_SHIFT) | s
}

/// The timestamp an identifier was minted at.
pub fn timestamp_of(id: u64) -> (t: u64)
    ensures
        t == timestamp_field(id as int),
        t <= MAX_TIMESTAMP,
{
    assert(id >> 22u64 == id / 4194304 && id >> 22u64 <= 4398046511103u64) by (bit_vector);
    id >> TIMESTAMP_SHIFT
}

/// The worker id that minted an identifier.
pub fn worker_id_of(id: u64) -> (w: u16)
    ensures
        w == worker_id_field(id as int),
        w <= MAX_WORKER_ID,
{
    assert((id >> 12u64) & 1023u64 == (id / 4096) % 1024) by (bit_vector);
    ((id >> WORKER_ID_SHIFT) & (MAX_WORKER_ID as u64)) as u16
}

/// The sequence number of an identifier within its millisecond.
pub fn sequence_of(id: u64) -> (s: u16)
    ensures
        s == sequence_field(id as int),
        s <= MAX_SEQUENCE,
{
    assert(id & 4095u64 == id % 4096) by (bit_vector);
    (id & (MAX_SEQUENCE as u64)) as u16
}

/// Unpacking an identifier recovers exactly the timestamp, worker id and
/// sequence number it was packed from.
pub proof fn lemma_decode_round_trip(timestamp: int, worker_id: int, sequence: int)
    requires
        0 <= timestamp <= MAX_TIMESTAMP,
        0 <= worker_id <= MAX_WORKER_ID,
        0 <= sequence <= MAX_SEQUENCE,
    ensures
        0 <= id_value(timestamp, worker_id, sequence) <= u64::MAX,
        timestamp_field(id_value(timestamp, worker_id, sequence)) == timestamp,
        worker_id_field(id_value(timestamp, worker_id, sequence)) == worker_id,
        sequence_field(id_value(timestamp, worker_id, sequence)) == sequence,
{
    let low = worker_id * 4096 + sequence;
    let id = id_value(timestamp, worker_id, sequence);
    assert(id == timestamp * 4194304 + low);
    vstd::arithmetic::div_mod::lemma_fundamental_div_mod_converse(id, 4194304, timestamp, low);
    vstd::arithmetic::div_mod::lemma_fundamental_div_mod_converse(
        id,
        4096,
        timestamp * 1024 + worker_id,
        sequence,
    );
    vstd::arithmetic::div_mod::lemma_fundamental_div_mod_converse(
        timestamp * 1024 + worker_id,
        1024,
        timestamp,
        worker_id,
    );
}

} // verus!
