//! The mapped segment: trusted view of the memory mapping, header
//! validation, and the ring addressing scheme.
//!
//! The segment is written by an external producer with no lock or
//! fence visible to this reader, so two reads of the same range may
//! legitimately disagree. The trusted read primitive therefore
//! promises only the length of what it returns, never the content;
//! every consumer of segment bytes is verified for arbitrary byte
//! values. Only the mapping's length is treated as fixed, since it is
//! recorded when the mapping is created.

use vstd::prelude::*;
use crate::codec::le_u32_at;
use crate::errors::SegmentError;

verus! {

/// Byte length of the segment header.
pub const HEADER_SIZE: usize = 64;

/// Byte length of one ring slot.
pub const TICK_STATE_SIZE: usize = 8192;

/// Number of slots in the ring.
pub const MAX_TICKS: usize = 1000;

#[verifier::external_type_specification]
#[verifier::external_body]
pub struct ExMmap(memmap2::Mmap);

/// Byte length of a memory mapping, fixed when the mapping is made.
pub uninterp spec fn mmap_len_of(m: memmap2::Mmap) -> nat;

/// Relies on `memmap2::Mmap::len`: returns the length recorded when
/// the mapping was created.
#[verifier::external_body]
pub(crate) fn segment_len(m: &memmap2::Mmap) -> (r: usize)
    ensures
        r == mmap_len_of(*m),
{
    m.len()
}

/// Relies on `memmap2::Mmap`'s deref to a byte slice: copies `len`
/// bytes starting at `off` out of the mapping. A concurrent producer
/// may rewrite the mapped bytes at any moment, so nothing is stated
/// about the content, only about the length of the copy.
#[verifier::external_body]
pub(crate) fn segment_read(m: &memmap2::Mmap, off: usize, len: usize) -> (r: Vec<u8>)
    requires
        off + len <= mmap_len_of(*m),
    ensures
        r@.len() == len,
{
    m[off..off + len].to_vec()
}

/// Magic signature expected in the first four header bytes: the
/// ASCII bytes of "DAWN".
pub open spec fn magic_ok(s: Seq<u8>) -> bool {
    &&& s.len() >= 4
    &&& s[0] == 0x44u8
    &&& s[1] == 0x41u8
    &&& s[2] == 0x57u8
    &&& s[3] == 0x4eu8
}

/// Validates a segment header: the segment must hold the whole
/// 64-byte header and open with the magic signature. Returns the
/// format version, which is reported to the caller but not enforced.
pub fn validate_consciousness_memory(data: &[u8]) -> (r: Result<u32, SegmentError>)
    ensures
        r is Ok <==> (data@.len() >= 64 && magic_ok(data@)),
        r matches Ok(v) ==> v == le_u32_at(data@, 4),
        data@.len() < 64 ==> (r matches Err(e) && e is SegmentTooSmall),
        data@.len() >= 64 && !magic_ok(data@) ==> (r matches Err(e) && e matches
            SegmentError::BadMagic(obs) && obs@ == data@.subrange(0, 4)),
{
    if data.len() < 64 {
        return Err(SegmentError::SegmentTooSmall);
    }
    if data[0] != 0x44 || data[1] != 0x41 || data[2] != 0x57 || data[3] != 0x4e {
        let mut observed: Vec<u8> = Vec::new();
        observed.push(data[0]);
        observed.push(data[1]);
        observed.push(data[2]);
        observed.push(data[3]);
        assert(observed@ =~= data@.subrange(0, 4));
        return Err(SegmentError::BadMagic(observed));
    }
    Ok(crate::codec::read_le_u32(data, 4))
}

/// Ring slot index of a tick number: the tick modulo the ring
/// capacity, so tick 1000 reuses the slot of tick 0.
pub open spec fn slot_index_of(tick: u32) -> int {
    tick as int % 1000
}

/// Byte offset of a tick's slot: the header plus whole slots up to
/// the ring index.
pub open spec fn slot_offset_of(tick: u32) -> int {
    64 + (tick as int % 1000) * 8192
}

/// Computes the ring slot index of a tick number.
pub fn slot_index(tick: u32) -> (r: usize)
    ensures
        r == slot_index_of(tick),
        r < 1000,
{
    (tick as usize) % MAX_TICKS
}

/// Computes the byte offset of a tick's ring slot.
pub fn slot_offset(tick: u32) -> (r: usize)
    ensures
        r == slot_offset_of(tick),
        64 <= r <= 64 + 999 * 8192,
{
    HEADER_SIZE + slot_index(tick) * TICK_STATE_SIZE
}

} // verus!
