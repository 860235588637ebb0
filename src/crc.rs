//! The CRC-16/MODBUS checksum carried by every frame.

use vstd::prelude::*;
use crate::bytes::{le_bytes, lemma_bytes_word, lemma_word_bytes, word};
use crate::error::ResponsePacketError;

verus! {

/// One shift round: shift right, folding in the reflected polynomial when the
/// low bit was set.
pub open spec fn crc_round(c: u16) -> u16 {
    if c & 1 == 1 {
        (c >> 1) ^ 0xA001
    } else {
        c >> 1
    }
}

/// `n` shift rounds applied to `c`.
pub open spec fn crc_rounds(c: u16, n: nat) -> u16
    decreases n,
{
    if n == 0 {
        c
    } else {
        crc_rounds(crc_round(c), (n - 1) as nat)
    }
}

/// The accumulator after absorbing one byte.
pub open spec fn crc_absorb(c: u16, b: u8) -> u16 {
    crc_rounds(c ^ (b as u16), 8)
}

/// CRC-16/MODBUS of a byte sequence: start at `0xFFFF`, absorb each byte.
pub open spec fn crc16(s: Seq<u8>) -> u16
    decreases s.len(),
{
    if s.len() == 0 {
        0xFFFF
    } else {
        crc_absorb(crc16(s.drop_last()), s.last())
    }
}

/// A body followed by its CRC, low byte first.
pub open spec fn with_crc(body: Seq<u8>) -> Seq<u8> {
    body + le_bytes(crc16(body))
}

/// The part of a frame that the CRC covers.
pub open spec fn frame_body(f: Seq<u8>) -> Seq<u8> {
    f.subrange(0, f.len() - 2)
}

/// The CRC that a frame carries in its last two bytes (little-endian).
pub open spec fn carried_crc(f: Seq<u8>) -> u16 {
    word(f[f.len() - 1], f[f.len() - 2])
}

/// A frame of at least two bytes whose trailing bytes hold the CRC of the rest.
pub open spec fn crc_ok(f: Seq<u8>) -> bool {
    f.len() >= 2 && crc16(frame_body(f)) == carried_crc(f)
}

/// A body followed by its CRC passes the check, and the check sees the body.
pub proof fn lemma_with_crc_ok(body: Seq<u8>)
    ensures
        with_crc(body).len() == body.len() + 2,
        frame_body(with_crc(body)) =~= body,
        crc_ok(with_crc(body)),
{
    let f = with_crc(body);
    assert(frame_body(f) =~= body);
    lemma_word_bytes(crc16(body));
}

/// A frame whose trailing two bytes hold the CRC of the rest passes the
/// check; flipping any single bit of either trailing byte makes it fail.
pub proof fn lemma_crc_detects_trailing_bit_flip(f: Seq<u8>, i: int, bit: u8)
    requires
        crc_ok(f),
        i == f.len() - 1 || i == f.len() - 2,
        bit < 8,
    ensures
        !crc_ok(f.update(i, f[i] ^ (1u8 << bit))),
        frame_body(f.update(i, f[i] ^ (1u8 << bit))) == frame_body(f),
        carried_crc(f.update(i, f[i] ^ (1u8 << bit))) != carried_crc(f),
{
    let x = f[i];
    let g = f.update(i, x ^ (1u8 << bit));
    assert(x ^ (1u8 << bit) != x) by (bit_vector)
        requires
            bit < 8,
    ;
    assert(frame_body(g) =~= frame_body(f));
    let n = f.len();
    lemma_bytes_word(f[n - 1], f[n - 2]);
    lemma_bytes_word(g[n - 1], g[n - 2]);
}

/// Computes the CRC-16/MODBUS of `data`.
pub fn generate_modbus16(data: &[u8]) -> (r: u16)
    ensures
        r == crc16(data@),
{
    let mut crc: u16 = 0xFFFF;
    let mut i: usize = 0;
    while i < data.len()
        invariant
            i <= data.len(),
            crc == crc16(data@.subrange(0, i as int)),
        decreases data.len() - i,
    {
        let ghost before = crc;
        crc = crc ^ (data[i] as u16);
        let mut j: usize = 0;
        while j < 8
            invariant
                j <= 8,
                crc_rounds(crc, (8 - j) as nat) == crc_absorb(before, data@[i as int]),
            decreases 8 - j,
        {
            if crc & 1 == 1 {
                crc = (crc >> 1) ^ 0xA001;
            } else {
                crc = crc >> 1;
            }
            j = j + 1;
        }
        proof {
            let s = data@.subrange(0, i + 1);
            assert(s.drop_last() =~= data@.subrange(0, i as int));
        }
        i = i + 1;
    }
    proof {
        assert(data@.subrange(0, data.len() as int) =~= data@);
    }
    crc
}

/// Checks the trailing CRC of a frame.
///
/// Fails with `TooShort` when the frame cannot hold a CRC, and with
/// `CRCMismatch` (computed and carried values) when the CRC is wrong.
pub fn validate(frame: &[u8]) -> (r: Result<(), ResponsePacketError>)
    ensures
        frame@.len() < 2 ==> r == Err::<(), _>(ResponsePacketError::TooShort(frame@.len() as usize)),
        frame@.len() >= 2 ==> r == (if crc_ok(frame@) {
            Ok(())
        } else {
            Err(
                ResponsePacketError::CRCMismatch {
                    expected: crc16(frame_body(frame@)),
                    received: carried_crc(frame@),
                },
            )
        }),
{
    let len = frame.len();
    if len < 2 {
        return Err(ResponsePacketError::TooShort(len));
    }
    let body = slice_prefix(frame, len - 2);
    let expected = generate_modbus16(body);
    let received = (frame[len - 1] as u16) * 256 + (frame[len - 2] as u16);
    if expected != received {
        return Err(ResponsePacketError::CRCMismatch { expected, received });
    }
    Ok(())
}

/// The first `n` bytes of `s`.
fn slice_prefix(s: &[u8], n: usize) -> (r: &[u8])
    requires
        n <= s@.len(),
    ensures
        r@ == s@.subrange(0, n as int),
{
    vstd::slice::slice_subrange(s, 0, n)
}

} // verus!
