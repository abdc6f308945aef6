//! RGB565 pixel codec.

use vstd::prelude::*;
use crate::frame::RgbaFrame;

verus! {

/// The two wire bytes of one pixel: red in the top five bits of the first
/// byte, the six kept bits of green split across both, blue in the low five
/// bits of the second.
pub open spec fn rgb565(r: u8, g: u8, b: u8) -> (u8, u8) {
    ((r & 0xF8) | (g >> 5), ((g & 0x1C) << 3) | (b >> 3))
}

/// A packed pixel widened back to eight bits per channel, the missing low
/// bits filled by repeating the top bits of the channel.
pub open spec fn expand_rgb565(b0: u8, b1: u8) -> (u8, u8, u8) {
    let r5 = b0 >> 3;
    let g6 = ((b0 & 0x07) << 3) | (b1 >> 5);
    let b5 = b1 & 0x1F;
    ((r5 << 3) | (r5 >> 2), (g6 << 2) | (g6 >> 4), (b5 << 3) | (b5 >> 2))
}

/// The packed form of a whole RGBA buffer: two bytes per pixel, pixels in the
/// order of the input, alpha dropped.
pub open spec fn packed(rgba: Seq<u8>) -> Seq<u8> {
    Seq::new(
        ((rgba.len() / 4) * 2) as nat,
        |i: int|
            {
                let p = 4 * (i / 2);
                let px = rgb565(rgba[p], rgba[p + 1], rgba[p + 2]);
                if i % 2 == 0 {
                    px.0
                } else {
                    px.1
                }
            },
    )
}

/// Packs one 8-bit RGB triple into its two RGB565 wire bytes.
pub fn encode_rgb565(r: u8, g: u8, b: u8) -> (out: (u8, u8))
    ensures
        out == rgb565(r, g, b),
{
    ((r & 0xF8) | (g >> 5), ((g & 0x1C) << 3) | (b >> 3))
}

/// Widens a packed pixel back to 8-bit RGB by bit replication.
pub fn decode_rgb565(b0: u8, b1: u8) -> (out: (u8, u8, u8))
    ensures
        out == expand_rgb565(b0, b1),
{
    let r5 = b0 >> 3;
    let g6 = ((b0 & 0x07) << 3) | (b1 >> 5);
    let b5 = b1 & 0x1F;
    ((r5 << 3) | (r5 >> 2), (g6 << 2) | (g6 >> 4), (b5 << 3) | (b5 >> 2))
}

/// Packing loses at most the low bits of each channel: a pixel packed and
/// widened again differs from what it was by at most 7 in red and blue and
/// at most 3 in green, in either direction, and keeps every bit that was
/// packed. Nothing wraps.
pub proof fn lemma_rgb565_round_trip(r: u8, g: u8, b: u8)
    ensures
        ({
            let px = rgb565(r, g, b);
            let back = expand_rgb565(px.0, px.1);
            &&& -7 <= r - back.0 <= 7
            &&& -3 <= g - back.1 <= 3
            &&& -7 <= b - back.2 <= 7
            &&& back.0 & 0xF8 == r & 0xF8
            &&& back.1 & 0xFC == g & 0xFC
            &&& back.2 & 0xF8 == b & 0xF8
        }),
{
    let b0 = rgb565(r, g, b).0;
    let b1 = rgb565(r, g, b).1;
    let r5 = b0 >> 3;
    let g6 = ((b0 & 0x07) << 3) | (b1 >> 5);
    let b5 = b1 & 0x1F;
    let r2 = (r5 << 3) | (r5 >> 2);
    let g2 = (g6 << 2) | (g6 >> 4);
    let b2 = (b5 << 3) | (b5 >> 2);
    assert(-7 <= r - r2 <= 7 && r2 & 0xF8 == r & 0xF8) by (bit_vector)
        requires
            b0 == (r & 0xF8) | (g >> 5),
            r5 == b0 >> 3,
            r2 == (r5 << 3) | (r5 >> 2),
    ;
    assert(-3 <= g - g2 <= 3 && g2 & 0xFC == g & 0xFC) by (bit_vector)
        requires
            b0 == (r & 0xF8) | (g >> 5),
            b1 == ((g & 0x1C) << 3) | (b >> 3),
            g6 == ((b0 & 0x07) << 3) | (b1 >> 5),
            g2 == (g6 << 2) | (g6 >> 4),
    ;
    assert(-7 <= b - b2 <= 7 && b2 & 0xF8 == b & 0xF8) by (bit_vector)
        requires
            b1 == ((g & 0x1C) << 3) | (b >> 3),
            b5 == b1 & 0x1F,
            b2 == (b5 << 3) | (b5 >> 2),
    ;
}

/// Converts a frame to the display's wire format: for every pixel, in order,
/// the two bytes of `rgb565`. No flip, no dithering.
pub fn rgba_to_rgb565(frame: &RgbaFrame) -> (out: Vec<u8>)
    ensures
        out@ == packed(frame@.pixels),
        out@.len() == 2 * (frame@.width * frame@.height),
{
    let pixels = frame.pixels();
    let count = pixels.len() / 4;
    let mut out: Vec<u8> = Vec::with_capacity(count * 2);
    let mut i: usize = 0;
    while i < count
        invariant
            i <= count,
            count == pixels@.len() / 4,
            4 * count <= pixels@.len() <= usize::MAX,
            out@.len() == 2 * i,
            forall|k: int| 0 <= k < 2 * i ==> out@[k] == packed(pixels@)[k],
        decreases count - i,
    {
        let px = encode_rgb565(pixels[4 * i], pixels[4 * i + 1], pixels[4 * i + 2]);
        out.push(px.0);
        out.push(px.1);
        i += 1;
    }
    assert(out@ =~= packed(pixels@));
    out
}

/// `count` packed pixels of one colour.
pub open spec fn solid(count: nat, r: u8, g: u8, b: u8) -> Seq<u8> {
    Seq::new(
        2 * count,
        |i: int|
            if i % 2 == 0 {
                rgb565(r, g, b).0
            } else {
                rgb565(r, g, b).1
            },
    )
}

/// A wire buffer of `count` pixels, all of the colour `(r, g, b)`.
pub fn solid_rgb565(count: usize, r: u8, g: u8, b: u8) -> (out: Vec<u8>)
    requires
        2 * count <= isize::MAX,
    ensures
        out@ == solid(count as nat, r, g, b),
{
    let px = encode_rgb565(r, g, b);
    let mut out: Vec<u8> = Vec::with_capacity(2 * count);
    let mut i: usize = 0;
    while i < count
        invariant
            i <= count,
            2 * count <= isize::MAX,
            px == rgb565(r, g, b),
            out@.len() == 2 * i,
            forall|k: int| 0 <= k < 2 * i ==> out@[k] == solid(count as nat, r, g, b)[k],
        decreases count - i,
    {
        out.push(px.0);
        out.push(px.1);
        i += 1;
    }
    assert(out@ =~= solid(count as nat, r, g, b));
    out
}

} // verus!
