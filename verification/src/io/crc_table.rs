//! Reflected 32-bit cyclic redundancy checks, one table lookup for each byte.

use vstd::prelude::*;

verus! {

/// Divides the lowest bit out of the register.
pub open spec fn shift_bit(poly: u32, crc: u32) -> u32 {
    if crc & 1 != 0 {
        (crc >> 1) ^ poly
    } else {
        crc >> 1
    }
}

/// Divides the lowest byte out of the register.
pub open spec fn shift_byte(poly: u32, crc: u32) -> u32 {
    shift_bit(
        poly,
        shift_bit(
            poly,
            shift_bit(
                poly,
                shift_bit(
                    poly,
                    shift_bit(poly, shift_bit(poly, shift_bit(poly, shift_bit(poly, crc)))),
                ),
            ),
        ),
    )
}

/// The register after `data` went through it.
pub open spec fn register(poly: u32, crc: u32, data: Seq<u8>) -> u32
    decreases data.len(),
{
    if data.len() == 0 {
        crc
    } else {
        shift_byte(poly, register(poly, crc, data.drop_last()) ^ (data.last() as u32))
    }
}

/// The check value of `data` behind data whose check value is `crc`: the
/// register starts from, and is given out as, its complement.
pub open spec fn check_value(poly: u32, crc: u32, data: Seq<u8>) -> u32 {
    !register(poly, !crc, data)
}

/// Feeding two pieces one after the other is feeding them as one.
proof fn lemma_register_concat(poly: u32, crc: u32, a: Seq<u8>, b: Seq<u8>)
    ensures
        register(poly, crc, a + b) == register(poly, register(poly, crc, a), b),
    decreases b.len(),
{
    if b.len() == 0 {
        assert(a + b =~= a);
    } else {
        assert((a + b).drop_last() =~= a + b.drop_last());
        lemma_register_concat(poly, crc, a, b.drop_last());
    }
}

/// A check continued over a second piece is the check of both pieces.
pub proof fn lemma_check_value_concat(poly: u32, crc: u32, a: Seq<u8>, b: Seq<u8>)
    ensures
        check_value(poly, check_value(poly, crc, a), b) == check_value(poly, crc, a + b),
{
    lemma_register_concat(poly, !crc, a, b);
    let r = register(poly, !crc, a);
    assert(!(!r) == r) by (bit_vector);
}

/// The table of `shift_byte` on single bytes.
fn make_table(poly: u32) -> (table: [u32; 256])
    ensures
        forall|i: int| 0 <= i < 256 ==> #[trigger] table@[i] == shift_byte(poly, i as u32),
{
    let mut table: [u32; 256] = [0u32; 256];
    let mut i: usize = 0;
    while i < 256
        invariant
            i <= 256,
            forall|k: int| 0 <= k < i ==> #[trigger] table@[k] == shift_byte(poly, k as u32),
        decreases 256 - i,
    {
        let mut crc: u32 = i as u32;
        let mut bit: u32 = 0;
        let ghost goal = shift_byte(poly, i as u32);
        proof {
            reveal_with_fuel(remaining_bits, 9);
        }
        while bit < 8
            invariant
                bit <= 8,
                goal == remaining_bits(poly, crc, (8 - bit) as nat),
            decreases 8 - bit,
        {
            if crc & 1 != 0 {
                crc = (crc >> 1) ^ poly;
            } else {
                crc = crc >> 1;
            }
            bit = bit + 1;
        }
        table[i] = crc;
        i = i + 1;
    }
    table
}

/// `shift_bit` applied `n` times.
spec fn remaining_bits(poly: u32, crc: u32, n: nat) -> u32
    decreases n,
{
    if n == 0 {
        crc
    } else {
        remaining_bits(poly, shift_bit(poly, crc), (n - 1) as nat)
    }
}

/// A register whose part `y` has a clear lowest bit moves that part unchanged.
proof fn lemma_shift_bit(poly: u32, x: u32, y: u32)
    requires
        y & 1 == 0,
    ensures
        shift_bit(poly, x ^ y) == shift_bit(poly, x) ^ (y >> 1),
{
    assert(shift_bit(poly, x ^ y) == shift_bit(poly, x) ^ (y >> 1)) by (bit_vector)
        requires
            y & 1 == 0,
    ;
}

/// Dividing a byte out depends on the lowest byte alone; the rest moves down.
proof fn lemma_shift_byte(poly: u32, reg: u32, b: u8)
    ensures
        shift_byte(poly, reg ^ (b as u32)) == shift_byte(poly, (reg ^ (b as u32)) & 0xff) ^ (reg
            >> 8),
{
    let x = reg ^ (b as u32);
    let l0 = x & 0xff;
    let h0 = x & 0xffff_ff00;
    let h1 = h0 >> 1;
    let h2 = h1 >> 1;
    let h3 = h2 >> 1;
    let h4 = h3 >> 1;
    let h5 = h4 >> 1;
    let h6 = h5 >> 1;
    let h7 = h6 >> 1;
    let h8 = h7 >> 1;
    assert(x == l0 ^ h0 && h0 & 1 == 0 && h1 & 1 == 0 && h2 & 1 == 0 && h3 & 1 == 0 && h4 & 1 == 0
        && h5 & 1 == 0 && h6 & 1 == 0 && h7 & 1 == 0 && h8 == reg >> 8) by (bit_vector)
        requires
            x == reg ^ (b as u32),
            l0 == x & 0xff,
            h0 == x & 0xffff_ff00,
            h1 == h0 >> 1,
            h2 == h1 >> 1,
            h3 == h2 >> 1,
            h4 == h3 >> 1,
            h5 == h4 >> 1,
            h6 == h5 >> 1,
            h7 == h6 >> 1,
            h8 == h7 >> 1,
    ;
    let l1 = shift_bit(poly, l0);
    let l2 = shift_bit(poly, l1);
    let l3 = shift_bit(poly, l2);
    let l4 = shift_bit(poly, l3);
    let l5 = shift_bit(poly, l4);
    let l6 = shift_bit(poly, l5);
    let l7 = shift_bit(poly, l6);
    lemma_shift_bit(poly, l0, h0);
    lemma_shift_bit(poly, l1, h1);
    lemma_shift_bit(poly, l2, h2);
    lemma_shift_bit(poly, l3, h3);
    lemma_shift_bit(poly, l4, h4);
    lemma_shift_bit(poly, l5, h5);
    lemma_shift_bit(poly, l6, h6);
    lemma_shift_bit(poly, l7, h7);
}

/// The check value of `data` behind data whose check value is `crc`.
pub fn append(poly: u32, crc: u32, data: &[u8]) -> (r: u32)
    ensures
        r == check_value(poly, crc, data@),
{
    let table = make_table(poly);
    let mut reg: u32 = !crc;
    let mut i: usize = 0;
    while i < data.len()
        invariant
            i <= data@.len(),
            forall|k: int| 0 <= k < 256 ==> #[trigger] table@[k] == shift_byte(poly, k as u32),
            reg == register(poly, !crc, data@.take(i as int)),
        decreases data@.len() - i,
    {
        let b: u8 = data[i];
        let idx: u32 = (reg ^ (b as u32)) & 0xff;
        proof {
            assert(idx < 256) by (bit_vector)
                requires
                    idx == (reg ^ (b as u32)) & 0xff,
            ;
            assert(data@.take(i + 1).drop_last() =~= data@.take(i as int));
            lemma_shift_byte(poly, reg, b);
        }
        reg = table[idx as usize] ^ (reg >> 8);
        i = i + 1;
    }
    proof {
        assert(data@.take(data@.len() as int) =~= data@);
    }
    !reg
}

} // verus!
