//! Bit-level facts about byte and word arithmetic used throughout the core.
use vstd::prelude::*;

verus! {

/// Joining a high and a low byte is `hi * 256 + lo`; splitting a word gives
/// back its quotient and remainder by 256.
pub proof fn lemma_word_bytes()
    by (bit_vector)
    ensures
        forall|hi: u8, lo: u8|
            #![trigger ((hi as u16) << 8u16) | (lo as u16)]
            ((hi as u16) << 8u16) | (lo as u16) == (hi as u16) * 256 + (lo as u16),
        forall|v: u16| #![trigger (v >> 8u16)] (v >> 8u16) == v / 256,
        forall|v: u16| #![trigger (v & 0xFFu16)] (v & 0xFFu16) == v % 256,
{
}

/// Small masks and shifts of a byte stay within their field width.
pub proof fn lemma_byte_fields()
    by (bit_vector)
    ensures
        forall|x: u8| #![trigger (x & 0x07u8)] (x & 0x07u8) <= 7,
        forall|x: u8| #![trigger (x & 0x03u8)] (x & 0x03u8) <= 3,
        forall|x: u8| #![trigger (x >> 6u8)] (x >> 6u8) <= 3,
        forall|x: u8| #![trigger (x >> 7u8)] (x >> 7u8) <= 1,
        forall|x: u8| x < 4 ==> #[trigger] (x & 0x03u8) == x,
        forall|x: u8| x < 8 ==> #[trigger] (x & 0x07u8) == x,
{
}

} // verus!
