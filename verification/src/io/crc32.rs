//! IEEE CRC-32, the check value that a completed file may carry.

use vstd::prelude::*;

use crate::io::crc_table::append;
use crate::io::crc_table::check_value;
use crate::io::crc_table::lemma_check_value_concat;

verus! {

/// Reflected polynomial (normal form `0x04C11DB7`).
pub const POLY: u32 = 0xedb8_8320;

/// The IEEE CRC-32 of `data`.
pub open spec fn crc32_of(data: Seq<u8>) -> u32 {
    check_value(POLY, 0, data)
}

/// The IEEE CRC-32 of `data`; that of no data is 0.
pub fn crc32(data: &[u8]) -> (r: u32)
    ensures
        r == crc32_of(data@),
{
    crc32_append(0, data)
}

/// Continues a check over more data, from the check value so far.
pub fn crc32_append(crc: u32, data: &[u8]) -> (r: u32)
    ensures
        r == check_value(POLY, crc, data@),
{
    append(POLY, crc, data)
}

/// A check that is continued over a second piece is the check of both pieces
/// in one.
pub proof fn law_crc32_append(a: Seq<u8>, b: Seq<u8>)
    ensures
        check_value(POLY, crc32_of(a), b) == crc32_of(a + b),
{
    lemma_check_value_concat(POLY, 0, a, b);
}

/// The check value of no data is 0, and appending nothing changes nothing.
pub proof fn law_crc32_of_nothing(crc: u32)
    ensures
        crc32_of(Seq::empty()) == 0,
        check_value(POLY, crc, Seq::empty()) == crc,
{
    assert(!(!crc) == crc) by (bit_vector);
    assert(!(!0u32) == 0) by (bit_vector);
}

} // verus!
