//! Conversion of a single YUV sample triple to a blue/green/red triple.
//!
//! The conversion applies the BT.601-style matrix with the coefficients
//! 1.772, 0.34414, 0.71414 and 1.402, carried as exact rationals over the
//! denominators 250 and 50000 so every channel is computed in integer
//! arithmetic. The combined value is floored and saturated to a byte:
//! out-of-range intermediates clip to 0 or 255 rather than wrap.

use vstd::prelude::*;
use vstd::arithmetic::div_mod::lemma_div_multiples_vanish;

verus! {

/// The exact rational `num / den`, floored and saturated to the byte range.
pub open spec fn channel_byte(num: int, den: int) -> u8
    recommends
        den > 0,
{
    let q = num / den;
    if q < 0 {
        0u8
    } else if q > 255 {
        255u8
    } else {
        q as u8
    }
}

/// Blue channel: `y + 1.772 * (u - 128)`, with `1.772 == 443 / 250`.
pub open spec fn blue_spec(y: u8, u: u8) -> u8 {
    channel_byte(250 * y + 443 * (u - 128), 250)
}

/// Green channel: `y - 0.34414 * (u - 128) - 0.71414 * (v - 128)`, with
/// `0.34414 == 17207 / 50000` and `0.71414 == 35707 / 50000`.
pub open spec fn green_spec(y: u8, u: u8, v: u8) -> u8 {
    channel_byte(50000 * y - 17207 * (u - 128) - 35707 * (v - 128), 50000)
}

/// Red channel: `y + 1.402 * (v - 128)`, with `1.402 == 701 / 500`.
pub open spec fn red_spec(y: u8, v: u8) -> u8 {
    channel_byte(500 * y + 701 * (v - 128), 500)
}

/// Convert one luma sample and one pair of chroma samples to a packed
/// (blue, green, red) triple.
pub fn yuv_to_bgr(y: u8, u: u8, v: u8) -> (bgr: (u8, u8, u8))
    ensures
        bgr.0 == blue_spec(y, u),
        bgr.1 == green_spec(y, u, v),
        bgr.2 == red_spec(y, v),
{
    let luma: i32 = y as i32;
    let cb: i32 = (u as i32) - 128;
    let cr: i32 = (v as i32) - 128;

    let b_num: i32 = 250 * luma + 443 * cb;
    let b: u8 = if b_num < 0 {
        0
    } else {
        let q: u32 = (b_num as u32) / 250;
        if q > 255 {
            255
        } else {
            q as u8
        }
    };

    let g_num: i32 = 50000 * luma - 17207 * cb - 35707 * cr;
    let g: u8 = if g_num < 0 {
        0
    } else {
        let q: u32 = (g_num as u32) / 50000;
        if q > 255 {
            255
        } else {
            q as u8
        }
    };

    let r_num: i32 = 500 * luma + 701 * cr;
    let r: u8 = if r_num < 0 {
        0
    } else {
        let q: u32 = (r_num as u32) / 500;
        if q > 255 {
            255
        } else {
            q as u8
        }
    };

    (b, g, r)
}

/// Neutral chroma yields grayscale: when both chroma samples sit at the
/// midpoint 128, every channel reproduces the luma sample exactly.
pub proof fn lemma_neutral_chroma_grayscale(y: u8)
    ensures
        blue_spec(y, 128) == y,
        green_spec(y, 128, 128) == y,
        red_spec(y, 128) == y,
{
    lemma_div_multiples_vanish(y as int, 250);
    lemma_div_multiples_vanish(y as int, 50000);
    lemma_div_multiples_vanish(y as int, 500);
}

} // verus!
