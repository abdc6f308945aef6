//! Row-major RGBA pixel buffers.

use vstd::prelude::*;

verus! {

/// What a frame is, mathematically: its dimensions and its bytes, four per
/// pixel (red, green, blue, alpha), rows from top to bottom.
pub ghost struct FrameView {
    pub width: nat,
    pub height: nat,
    pub pixels: Seq<u8>,
}

/// Bytes in an RGBA buffer of `width` by `height` pixels.
pub open spec fn rgba_len(width: nat, height: nat) -> nat {
    4 * (width * height)
}

/// Offset of the first byte of the pixel at column `x`, row `y`, in a
/// row-major RGBA buffer `width` pixels wide.
pub open spec fn pixel_offset(width: nat, x: int, y: int) -> int {
    4 * (y * width + x)
}

/// Byte `c` of the pixel at column `x`, row `y`, in a row-major RGBA buffer
/// `width` pixels wide.
pub open spec fn channel(pixels: Seq<u8>, width: nat, x: int, y: int, c: int) -> u8 {
    pixels[pixel_offset(width, x, y) + c]
}

/// Whether every pixel of an RGBA buffer is fully opaque.
pub open spec fn opaque(pixels: Seq<u8>) -> bool {
    forall|i: int| 0 <= i && 4 * i + 3 < pixels.len() ==> #[trigger] pixels[4 * i + 3] == 255
}

/// `count` pixels of opaque black.
pub open spec fn opaque_black(count: nat) -> Seq<u8> {
    Seq::new(
        4 * count,
        |i: int|
            if i % 4 == 3 {
                255u8
            } else {
                0u8
            },
    )
}

/// An 8-bit RGBA image whose buffer always holds exactly four bytes for
/// each of its `width * height` pixels.
pub struct RgbaFrame {
    width: u32,
    height: u32,
    pixels: Vec<u8>,
}

impl View for RgbaFrame {
    type V = FrameView;

    closed spec fn view(&self) -> FrameView {
        FrameView {
            width: self.width as nat,
            height: self.height as nat,
            pixels: self.pixels@,
        }
    }
}

impl RgbaFrame {
    #[verifier::type_invariant]
    spec fn well_formed(self) -> bool {
        self.pixels@.len() == rgba_len(self.width as nat, self.height as nat)
    }

    /// Wraps a pixel buffer; `None` when it does not hold exactly four bytes
    /// for each pixel.
    pub fn new(width: u32, height: u32, pixels: Vec<u8>) -> (frame: Option<RgbaFrame>)
        ensures
            frame is Some <==> pixels@.len() == rgba_len(width as nat, height as nat),
            frame matches Some(f) ==> f@ == (FrameView {
                width: width as nat,
                height: height as nat,
                pixels: pixels@,
            }),
    {
        assert(width * height <= 0xFFFF_FFFF * 0xFFFF_FFFF) by (nonlinear_arith)
            requires
                width <= 0xFFFF_FFFF,
                height <= 0xFFFF_FFFF,
        ;
        let expected: u128 = 4 * ((width as u128) * (height as u128));
        if pixels.len() as u128 == expected {
            Some(RgbaFrame { width, height, pixels })
        } else {
            None
        }
    }

    /// A frame of opaque black.
    pub fn black(width: u32, height: u32) -> (frame: RgbaFrame)
        requires
            rgba_len(width as nat, height as nat) <= isize::MAX,
        ensures
            frame@ == (FrameView {
                width: width as nat,
                height: height as nat,
                pixels: opaque_black(width as nat * height as nat),
            }),
    {
        let count: usize = (width as usize) * (height as usize);
        let mut pixels: Vec<u8> = Vec::with_capacity(4 * count);
        let mut i: usize = 0;
        while i < count
            invariant
                i <= count,
                4 * count <= isize::MAX,
                pixels@.len() == 4 * i,
                forall|k: int| 0 <= k < 4 * i ==> pixels@[k] == opaque_black(count as nat)[k],
            decreases count - i,
        {
            pixels.push(0);
            pixels.push(0);
            pixels.push(0);
            pixels.push(255);
            i += 1;
        }
        assert(pixels@ =~= opaque_black(width as nat * height as nat));
        RgbaFrame { width, height, pixels }
    }

    /// Width in pixels.
    pub fn width(&self) -> (w: u32)
        ensures
            w == self@.width,
    {
        self.width
    }

    /// Height in pixels.
    pub fn height(&self) -> (h: u32)
        ensures
            h == self@.height,
    {
        self.height
    }

    /// The bytes of the frame, and the guarantee that there are exactly four
    /// for each pixel.
    pub fn pixels(&self) -> (p: &Vec<u8>)
        ensures
            p@ == self@.pixels,
            p@.len() == rgba_len(self@.width, self@.height),
    {
        proof {
            use_type_invariant(self);
        }
        &self.pixels
    }

    /// Gives the buffer back.
    pub fn into_pixels(self) -> (p: Vec<u8>)
        ensures
            p@ == self@.pixels,
            p@.len() == rgba_len(self@.width, self@.height),
    {
        proof {
            use_type_invariant(&self);
        }
        self.pixels
    }
}

} // verus!
