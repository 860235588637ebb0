//! Bit packing and checksum bytes.

use vstd::prelude::*;
use crate::bytes::le_bytes;
use crate::crc::{crc16, generate_modbus16};

verus! {

/// The bit at position `i`, or `false` past the end.
pub open spec fn bit_at(bits: Seq<bool>, i: int) -> bool {
    0 <= i < bits.len() && bits[i]
}

/// Bit `j` (0 is the least significant) of a byte.
pub open spec fn get_bit(b: u8, j: u8) -> bool {
    (b >> j) & 1 == 1
}

/// A byte whose low `n` bits are `bits[start..start + n]`, least significant
/// first; missing bits are zero.
pub open spec fn pack_low_bits(bits: Seq<bool>, start: int, n: nat) -> u8
    decreases n,
{
    if n == 0 {
        0
    } else {
        let rest = pack_low_bits(bits, start, (n - 1) as nat);
        if bit_at(bits, start + n - 1) {
            rest | (1u8 << ((n - 1) as u8))
        } else {
            rest
        }
    }
}

/// Number of bytes needed for `n` bits.
pub open spec fn packed_len(n: nat) -> nat {
    (n + 7) / 8
}

/// Bits packed eight to a byte, least significant bit first, the last byte
/// padded with zeros.
pub open spec fn pack_bits(bits: Seq<bool>) -> Seq<u8> {
    Seq::new(packed_len(bits.len()), |k: int| pack_low_bits(bits, 8 * k, 8))
}

/// Bits unpacked from bytes, least significant first, `n` of them.
pub open spec fn unpack_bits(bytes: Seq<u8>, n: nat) -> Seq<bool> {
    Seq::new(n, |i: int| get_bit(bytes[i / 8], (i % 8) as u8))
}

proof fn lemma_get_bit_or(x: u8, m: u8, j: u8)
    requires
        m < 8,
        j < 8,
    ensures
        get_bit(x | (1u8 << m), j) == (j == m || get_bit(x, j)),
{
    assert(((x | (1u8 << m)) >> j) & 1 == 1 <==> (j == m || (x >> j) & 1 == 1)) by (bit_vector)
        requires
            m < 8,
            j < 8,
    ;
}

proof fn lemma_get_bit_zero(j: u8)
    ensures
        !get_bit(0, j),
{
    assert((0u8 >> j) & 1 != 1) by (bit_vector);
}

/// Bit `j` of a packed byte is the `j`-th bit of its group.
pub proof fn lemma_pack_low_bits(bits: Seq<bool>, start: int, n: nat, j: u8)
    requires
        n <= 8,
        j < 8,
    ensures
        get_bit(pack_low_bits(bits, start, n), j) == ((j as int) < n && bit_at(bits, start + j)),
    decreases n,
{
    if n == 0 {
        lemma_get_bit_zero(j);
    } else {
        lemma_pack_low_bits(bits, start, (n - 1) as nat, j);
        let rest = pack_low_bits(bits, start, (n - 1) as nat);
        if bit_at(bits, start + n - 1) {
            lemma_get_bit_or(rest, (n - 1) as u8, j);
        }
    }
}

/// Unpacking packed bits gives the bits back.
pub proof fn lemma_unpack_pack(bits: Seq<bool>)
    ensures
        unpack_bits(pack_bits(bits), bits.len()) =~= bits,
{
    assert forall|i: int| 0 <= i < bits.len() implies #[trigger] unpack_bits(
        pack_bits(bits),
        bits.len(),
    )[i] == bits[i] by {
        let k = i / 8;
        let j = (i % 8) as u8;
        assert(k < packed_len(bits.len()));
        lemma_pack_low_bits(bits, 8 * k, 8, j);
        assert(8 * k + j == i);
    }
}

/// Generates the CRC-16/MODBUS of `data` as two bytes, low byte first.
pub fn crc16_modbus(data: &[u8]) -> (r: [u8; 2])
    ensures
        r@ == le_bytes(crc16(data@)),
{
    let crc = generate_modbus16(data);
    let r = [(crc % 256) as u8, (crc / 256) as u8];
    proof {
        assert(r@ =~= le_bytes(crc16(data@)));
    }
    r
}

/// Groups booleans eight to a byte, least significant bit first; the last
/// byte is padded with zeros.
pub fn vec_bool_to_vec_u8(vec: &Vec<bool>) -> (r: Vec<u8>)
    ensures
        r@ == pack_bits(vec@),
{
    let n = vec.len();
    let nbytes: usize = if n % 8 == 0 { n / 8 } else { n / 8 + 1 };
    let mut result: Vec<u8> = Vec::new();
    let mut k: usize = 0;
    while k < nbytes
        invariant
            nbytes == packed_len(n as nat),
            n == vec@.len(),
            k <= nbytes,
            result@.len() == k,
            forall|m: int| 0 <= m < k ==> result@[m] == pack_low_bits(vec@, 8 * m, 8),
        decreases nbytes - k,
    {
        let start: usize = k * 8;
        let mut byte: u8 = 0;
        let mut i: u8 = 0;
        while i < 8
            invariant
                k < nbytes,
                start == 8 * k,
                start < n,
                n == vec@.len(),
                i <= 8,
                byte == pack_low_bits(vec@, start as int, i as nat),
            decreases 8 - i,
        {
            if (i as usize) < n - start && vec[start + i as usize] {
                byte = byte | (1u8 << i);
            }
            i = i + 1;
        }
        result.push(byte);
        k = k + 1;
    }
    proof {
        assert(result@ =~= pack_bits(vec@));
    }
    result
}

} // verus!
