//! Channel extraction from packed hex color words.
//!
//! The color type is constructed from a `u32` holding one byte per channel,
//! in one of four byte orders (`0xRRGGBB`, `0xBBGGRR`, `0xRRGGBBAA`,
//! `0xAARRGGBB`). The functions here unpack such a word into its channel
//! bytes, always returned in (red, green, blue, alpha) order; the caller
//! maps each byte into the unit interval by dividing by 255. Where a format
//! carries no alpha byte, the alpha channel is 255, so it maps to exactly 1.

use vstd::prelude::*;

verus! {

/// Byte `k` of a packed word, counting from the least significant byte.
pub open spec fn hex_byte(hex: u32, k: u32) -> u32
    recommends
        k < 4,
{
    (hex >> ((8 * k) as u32)) & 0xFF
}

/// Unpacks `0xRRGGBB`; the most significant byte is ignored and the alpha
/// channel is 255.
pub fn unpack_rgb(hex: u32) -> (c: [u8; 4])
    ensures
        c@[0] == hex_byte(hex, 2),
        c@[1] == hex_byte(hex, 1),
        c@[2] == hex_byte(hex, 0),
        c@[3] == 255,
{
    proof {
        lemma_hex_byte_fits(hex);
    }
    [((hex >> 16u32) & 0xFF) as u8, ((hex >> 8u32) & 0xFF) as u8, (hex & 0xFF) as u8, 255]
}

/// Unpacks `0xBBGGRR`; the most significant byte is ignored and the alpha
/// channel is 255.
pub fn unpack_bgr(hex: u32) -> (c: [u8; 4])
    ensures
        c@[0] == hex_byte(hex, 0),
        c@[1] == hex_byte(hex, 1),
        c@[2] == hex_byte(hex, 2),
        c@[3] == 255,
{
    proof {
        lemma_hex_byte_fits(hex);
    }
    [(hex & 0xFF) as u8, ((hex >> 8u32) & 0xFF) as u8, ((hex >> 16u32) & 0xFF) as u8, 255]
}

/// Unpacks `0xRRGGBBAA`: all four bytes are used, red first.
pub fn unpack_rgba(hex: u32) -> (c: [u8; 4])
    ensures
        c@[0] == hex_byte(hex, 3),
        c@[1] == hex_byte(hex, 2),
        c@[2] == hex_byte(hex, 1),
        c@[3] == hex_byte(hex, 0),
{
    proof {
        lemma_hex_byte_fits(hex);
    }
    [
        ((hex >> 24u32) & 0xFF) as u8,
        ((hex >> 16u32) & 0xFF) as u8,
        ((hex >> 8u32) & 0xFF) as u8,
        (hex & 0xFF) as u8,
    ]
}

/// Unpacks `0xAARRGGBB`: all four bytes are used, alpha first.
pub fn unpack_argb(hex: u32) -> (c: [u8; 4])
    ensures
        c@[0] == hex_byte(hex, 2),
        c@[1] == hex_byte(hex, 1),
        c@[2] == hex_byte(hex, 0),
        c@[3] == hex_byte(hex, 3),
{
    proof {
        lemma_hex_byte_fits(hex);
    }
    [
        ((hex >> 16u32) & 0xFF) as u8,
        ((hex >> 8u32) & 0xFF) as u8,
        (hex & 0xFF) as u8,
        ((hex >> 24u32) & 0xFF) as u8,
    ]
}

/// Spells out the four bytes of a packed word and that each fits in a `u8`.
proof fn lemma_hex_byte_fits(hex: u32)
    by (bit_vector)
    ensures
        hex_byte(hex, 0) == hex & 0xFF,
        hex_byte(hex, 1) == (hex >> 8u32) & 0xFF,
        hex_byte(hex, 2) == (hex >> 16u32) & 0xFF,
        hex_byte(hex, 3) == (hex >> 24u32) & 0xFF,
        hex & 0xFF < 256,
        (hex >> 8u32) & 0xFF < 256,
        (hex >> 16u32) & 0xFF < 256,
        (hex >> 24u32) & 0xFF < 256,
{
}

/// The 24-bit formats read only the low three bytes: two words that agree
/// on those bytes unpack to the same channels.
pub proof fn lemma_low_bytes_ignore_msb(h1: u32, h2: u32)
    requires
        h1 & 0xFFFFFF == h2 & 0xFFFFFF,
    ensures
        forall|k: u32| k < 3 ==> #[trigger] hex_byte(h1, k) == hex_byte(h2, k),
{
    assert forall|k: u32| k < 3 implies #[trigger] hex_byte(h1, k) == hex_byte(h2, k) by {
        assert((hex_byte(h1, k) == hex_byte(h2, k))) by (bit_vector)
            requires
                h1 & 0xFFFFFF == h2 & 0xFFFFFF,
                k < 3,
        ;
    }
}

} // verus!
