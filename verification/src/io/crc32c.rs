//! Castagnoli CRC-32C, the check value that a completed file may carry.

use vstd::prelude::*;

use crate::io::crc_table::append;
use crate::io::crc_table::check_value;
use crate::io::crc_table::lemma_check_value_concat;

verus! {

/// Reflected polynomial (normal form `0x1EDC6F41`).
pub const POLY: u32 = 0x82f6_3b78;

/// The Castagnoli CRC-32C of `data`.
pub open spec fn crc32c_of(data: Seq<u8>) -> u32 {
    check_value(POLY, 0, data)
}

/// The Castagnoli CRC-32C of `data`; that of no data is 0.
pub fn crc32c(data: &[u8]) -> (r: u32)
    ensures
        r == crc32c_of(data@),
{
    crc32c_append(0, data)
}

/// Continues a check over more data, from the check value so far.
pub fn crc32c_append(crc: u32, data: &[u8]) -> (r: u32)
    ensures
        r == check_value(POLY, crc, data@),
{
    append(POLY, crc, data)
}

/// A check that is continued over a second piece is the check of both pieces
/// in one.
pub proof fn law_crc32c_append(a: Seq<u8>, b: Seq<u8>)
    ensures
        check_value(POLY, crc32c_of(a), b) == crc32c_of(a + b),
{
    lemma_check_value_concat(POLY, 0, a, b);
}

/// The check value of no data is 0, and appending nothing changes nothing.
pub proof fn law_crc32c_of_nothing(crc: u32)
    ensures
        crc32c_of(Seq::empty()) == 0,
        check_value(POLY, crc, Seq::empty()) == crc,
{
    assert(!(!crc) == crc) by (bit_vector);
    assert(!(!0u32) == 0) by (bit_vector);
}

} // verus!
