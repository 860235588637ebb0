//! Byte-level helpers shared by the encoder and the decoders.

use vstd::prelude::*;

verus! {

/// High byte of a 16-bit value (big-endian first byte).
pub open spec fn hi_byte(v: u16) -> u8 {
    (v / 256) as u8
}

/// Low byte of a 16-bit value.
pub open spec fn lo_byte(v: u16) -> u8 {
    (v % 256) as u8
}

/// The 16-bit value whose high byte is `hi` and low byte is `lo`.
pub open spec fn word(hi: u8, lo: u8) -> u16 {
    (hi as int * 256 + lo as int) as u16
}

/// Big-endian encoding of a 16-bit value.
pub open spec fn be_bytes(v: u16) -> Seq<u8> {
    seq![hi_byte(v), lo_byte(v)]
}

/// Little-endian encoding of a 16-bit value.
pub open spec fn le_bytes(v: u16) -> Seq<u8> {
    seq![lo_byte(v), hi_byte(v)]
}

/// Splitting a word into bytes and joining them back gives the word.
pub proof fn lemma_word_bytes(v: u16)
    ensures
        word(hi_byte(v), lo_byte(v)) == v,
{
}

/// Joining two bytes into a word and splitting it gives the bytes back.
pub proof fn lemma_bytes_word(hi: u8, lo: u8)
    ensures
        hi_byte(word(hi, lo)) == hi,
        lo_byte(word(hi, lo)) == lo,
{
}

/// Returns the two big-endian bytes of `v`.
pub fn split_word(v: u16) -> (r: (u8, u8))
    ensures
        r.0 == hi_byte(v),
        r.1 == lo_byte(v),
{
    ((v / 256) as u8, (v % 256) as u8)
}

/// Joins a big-endian byte pair into a 16-bit value.
pub fn join_word(hi: u8, lo: u8) -> (r: u16)
    ensures
        r == word(hi, lo),
{
    (hi as u16) * 256 + (lo as u16)
}

} // verus!
