//! The frame compositor: fits a picture of any size onto the display,
//! keeping its aspect ratio, centred on opaque black.
//!
//! The geometry is decided here. Resampling and pasting are done by the
//! `image` crate, behind [`resize_nearest`] and [`overlay`].

use vstd::prelude::*;
use crate::frame::{channel, opaque, opaque_black, rgba_len, FrameView, RgbaFrame};

verus! {

/// Where the scaled picture goes on the display: its size, and the column
/// and row of its top-left corner.
#[derive(Clone, Copy, Debug, PartialEq, Eq, Structural)]
pub struct Placement {
    pub width: u32,
    pub height: u32,
    pub x: u32,
    pub y: u32,
}

/// The largest size with the aspect ratio of `source_width` by
/// `source_height` that fits into `target_width` by `target_height`: the
/// source scaled by the smaller of the two ratios target/source, rounded
/// down. A source without pixels scales to nothing.
pub open spec fn scaled_size(
    source_width: nat,
    source_height: nat,
    target_width: nat,
    target_height: nat,
) -> (nat, nat) {
    if source_width == 0 || source_height == 0 {
        (0, 0)
    } else if target_width * source_height < target_height * source_width {
        (target_width, source_height * target_width / source_width)
    } else {
        (source_width * target_height / source_height, target_height)
    }
}

/// Half of what is left over, rounded down: the margin in front of a span
/// of `inner` centred in `outer`. Nothing is left over when the span does
/// not fit.
pub open spec fn centred(outer: nat, inner: nat) -> nat {
    if inner <= outer {
        ((outer - inner) / 2) as nat
    } else {
        0
    }
}

/// Whether column `x`, row `y` lies in the rectangle that `p` covers.
pub open spec fn covers(p: Placement, x: int, y: int) -> bool {
    p.x <= x < p.x + p.width && p.y <= y < p.y + p.height
}

/// What `image` makes of an RGBA buffer of `width` by `height` pixels when
/// it resamples it to `new_width` by `new_height` with its nearest-neighbour
/// filter.
pub uninterp spec fn nearest_resized(
    pixels: Seq<u8>,
    width: u32,
    height: u32,
    new_width: u32,
    new_height: u32,
) -> Seq<u8>;

/// What `image` makes of the RGBA buffer `bottom` when it overlays `top` on
/// it with the top-left corner of `top` at column `x`, row `y`.
pub uninterp spec fn overlaid(
    bottom: Seq<u8>,
    bottom_width: u32,
    bottom_height: u32,
    top: Seq<u8>,
    top_width: u32,
    top_height: u32,
    x: u32,
    y: u32,
) -> Seq<u8>;

/// The scaled picture lies within the display and, unless the source has no
/// pixels, spans its whole width or its whole height: nothing is cropped
/// and no room is given away. A source with pixels that has the size of
/// the display keeps it.
pub proof fn lemma_scaled_size_fits(
    source_width: nat,
    source_height: nat,
    target_width: nat,
    target_height: nat,
)
    ensures
        ({
            let size = scaled_size(source_width, source_height, target_width, target_height);
            &&& size.0 <= target_width
            &&& size.1 <= target_height
            &&& source_width > 0 && source_height > 0 ==> size.0 == target_width || size.1
                == target_height
            &&& source_width > 0 && source_height > 0 && source_width == target_width
                && source_height == target_height ==> size == (target_width, target_height)
        }),
{
    let sw = source_width as int;
    let sh = source_height as int;
    let tw = target_width as int;
    let th = target_height as int;
    if sw > 0 && sh > 0 {
        if tw * sh < th * sw {
            assert((sh * tw) / sw <= th) by (nonlinear_arith)
                requires
                    sw > 0,
                    sh >= 0,
                    tw >= 0,
                    tw * sh < th * sw,
            ;
            assert(!(sw == tw && sh == th)) by (nonlinear_arith)
                requires
                    tw * sh < th * sw,
            ;
        } else {
            assert((sw * th) / sh <= tw) by (nonlinear_arith)
                requires
                    sh > 0,
                    sw >= 0,
                    th >= 0,
                    !(tw * sh < th * sw),
            ;
            if sw == tw && sh == th {
                assert((sw * th) / sh == sw) by (nonlinear_arith)
                    requires
                        sh > 0,
                        th == sh,
                ;
            }
        }
    }
}

/// Two RGBA buffers of the same dimensions that agree in every channel of
/// every pixel are the same buffer.
proof fn lemma_same_channels(a: Seq<u8>, b: Seq<u8>, width: nat, height: nat)
    requires
        a.len() == rgba_len(width, height),
        b.len() == rgba_len(width, height),
        forall|x: int, y: int, c: int|
            0 <= x < width && 0 <= y < height && 0 <= c < 4 ==> #[trigger] channel(
                a,
                width,
                x,
                y,
                c,
            ) == channel(b, width, x, y, c),
    ensures
        a == b,
{
    assert forall|k: int| 0 <= k < a.len() implies a[k] == b[k] by {
        let pixel = k / 4;
        let c = k % 4;
        let y = pixel / (width as int);
        let x = pixel % (width as int);
        assert(width > 0 && 0 <= y < height && 0 <= x < width && pixel == y * width + x)
            by (nonlinear_arith)
            requires
                0 <= pixel < width * height,
                y == pixel / (width as int),
                x == pixel % (width as int),
        ;
        assert(channel(a, width, x, y, c) == channel(b, width, x, y, c));
    }
    assert(a =~= b);
}

/// Every pixel of an opaque buffer has an alpha of 255.
proof fn lemma_opaque_channels(pixels: Seq<u8>, width: nat, height: nat, x: int, y: int)
    requires
        pixels.len() == rgba_len(width, height),
        opaque(pixels),
        0 <= x < width,
        0 <= y < height,
    ensures
        channel(pixels, width, x, y, 3) == 255,
{
    assert(0 <= y * width + x < width * height) by (nonlinear_arith)
        requires
            0 <= x < width,
            0 <= y < height,
    ;
    assert(pixels[4 * (y * width + x) + 3] == 255);
}

/// Decides the size and place of the picture on the display.
pub fn plan_fit(source_width: u32, source_height: u32, target_width: u16, target_height: u16) -> (p:
    Placement)
    ensures
        (p.width as nat, p.height as nat) == scaled_size(
            source_width as nat,
            source_height as nat,
            target_width as nat,
            target_height as nat,
        ),
        p.x == centred(target_width as nat, p.width as nat),
        p.y == centred(target_height as nat, p.height as nat),
        p.width <= target_width,
        p.height <= target_height,
        p.x + p.width <= target_width,
        p.y + p.height <= target_height,
{
    let iw = source_width as u64;
    let ih = source_height as u64;
    let tw = target_width as u64;
    let th = target_height as u64;
    if iw == 0 || ih == 0 {
        return Placement { width: 0, height: 0, x: target_width as u32 / 2, y: target_height as u32 / 2 };
    }
    assert(tw * ih <= 0xFFFF * 0xFFFF_FFFF && th * iw <= 0xFFFF * 0xFFFF_FFFF) by (nonlinear_arith)
        requires
            tw <= 0xFFFF,
            th <= 0xFFFF,
            iw <= 0xFFFF_FFFF,
            ih <= 0xFFFF_FFFF,
    ;
    let (width, height): (u64, u64) = if tw * ih < th * iw {
        let h = ih * tw / iw;
        assert(h <= th) by (nonlinear_arith)
            requires
                iw > 0,
                tw * ih < th * iw,
                h == (ih * tw) / (iw as int),
        ;
        (tw, h)
    } else {
        assert(th * iw == iw * th) by (nonlinear_arith);
        let w = iw * th / ih;
        assert(w <= tw) by (nonlinear_arith)
            requires
                ih > 0,
                iw * th <= tw * ih,
                w == (iw * th) / (ih as int),
        ;
        (w, th)
    };
    Placement {
        width: width as u32,
        height: height as u32,
        x: ((tw - width) / 2) as u32,
        y: ((th - height) / 2) as u32,
    }
}

/// The placement of a picture of `width` by `height` pixels, unscaled,
/// in the middle of a display.
pub open spec fn centred_placement(
    width: nat,
    height: nat,
    target_width: nat,
    target_height: nat,
) -> Placement {
    Placement {
        width: width as u32,
        height: height as u32,
        x: centred(target_width, width) as u32,
        y: centred(target_height, height) as u32,
    }
}

/// What is known of `out`, a canvas `width` by `height` on which `top` was
/// overlaid at `p`: it is as long as `bottom`; outside the rectangle of
/// `top` it is `bottom`; and where a pixel of `top` is fully opaque, that
/// pixel replaces what was below. Of pixels under a translucent pixel of
/// `top` this says nothing.
pub open spec fn pasted(
    out: Seq<u8>,
    bottom: Seq<u8>,
    width: nat,
    height: nat,
    top: Seq<u8>,
    p: Placement,
) -> bool {
    &&& out.len() == bottom.len()
    &&& forall|x: int, y: int, c: int|
        #![trigger channel(out, width, x, y, c)]
        0 <= x < width && 0 <= y < height && 0 <= c < 4 ==> if covers(p, x, y) {
            channel(top, p.width as nat, x - p.x, y - p.y, 3) == 255 ==> channel(
                out,
                width,
                x,
                y,
                c,
            ) == channel(top, p.width as nat, x - p.x, y - p.y, c)
        } else {
            channel(out, width, x, y, c) == channel(bottom, width, x, y, c)
        }
}

/// Whether `out`, a display buffer `width` by `height`, shows `picture` at
/// `p` on opaque black: every pixel outside the rectangle of `p` is opaque
/// black, and every pixel inside it equals the pixel of `picture` that lies
/// there, wherever that pixel is fully opaque.
pub open spec fn shows(out: Seq<u8>, width: nat, height: nat, picture: Seq<u8>, p: Placement) -> bool {
    &&& out.len() == rgba_len(width, height)
    &&& forall|x: int, y: int, c: int|
        #![trigger channel(out, width, x, y, c)]
        0 <= x < width && 0 <= y < height && 0 <= c < 4 ==> if covers(p, x, y) {
            channel(picture, p.width as nat, x - p.x, y - p.y, 3) == 255 ==> channel(
                out,
                width,
                x,
                y,
                c,
            ) == channel(picture, p.width as nat, x - p.x, y - p.y, c)
        } else {
            channel(out, width, x, y, c) == (if c == 3 {
                255u8
            } else {
                0u8
            })
        }
}

/// A picture, unscaled, in the middle of an opaque black display.
pub open spec fn letterboxed(picture: FrameView, target_width: u16, target_height: u16) -> Seq<u8> {
    overlaid(
        opaque_black(target_width as nat * target_height as nat),
        target_width as u32,
        target_height as u32,
        picture.pixels,
        picture.width as u32,
        picture.height as u32,
        centred(target_width as nat, picture.width) as u32,
        centred(target_height as nat, picture.height) as u32,
    )
}

/// The source resampled to the size it has on the display; empty when it
/// scales to nothing.
pub open spec fn resampled(source: FrameView, target_width: u16, target_height: u16) -> FrameView {
    let size = scaled_size(
        source.width,
        source.height,
        target_width as nat,
        target_height as nat,
    );
    if size.0 == 0 || size.1 == 0 {
        FrameView { width: size.0, height: size.1, pixels: Seq::empty() }
    } else {
        FrameView {
            width: size.0,
            height: size.1,
            pixels: nearest_resized(
                source.pixels,
                source.width as u32,
                source.height as u32,
                size.0 as u32,
                size.1 as u32,
            ),
        }
    }
}

/// The display buffer for a source: the resampled source in the middle of
/// opaque black, or black alone when the source scales to nothing.
pub open spec fn fitted(source: FrameView, target_width: u16, target_height: u16) -> Seq<u8> {
    let picture = resampled(source, target_width, target_height);
    if picture.width == 0 || picture.height == 0 {
        opaque_black(target_width as nat * target_height as nat)
    } else {
        letterboxed(picture, target_width, target_height)
    }
}

/// Resamples an RGBA buffer with `image::DynamicImage::resize_exact` and
/// `FilterType::Nearest`.
///
/// Trusted: the result is the buffer of an image of exactly the new
/// dimensions, it depends on the arguments alone, and it is a copy of the
/// source when the new dimensions are those of the source. The sizes asked for
/// keep the working buffer of the resampler (16 bytes for each pixel of
/// `width` by `new_height`) and its result within what a vector can hold;
/// an empty source is left out because the resampler reads a pixel of it.
#[verifier::external_body]
fn resize_nearest(pixels: &Vec<u8>, width: u32, height: u32, new_width: u32, new_height: u32) -> (out:
    Vec<u8>)
    requires
        width > 0,
        height > 0,
        new_width > 0,
        new_height > 0,
        pixels@.len() == rgba_len(width as nat, height as nat),
        16 * (width * new_height) <= isize::MAX,
        rgba_len(new_width as nat, new_height as nat) <= isize::MAX,
    ensures
        out@ == nearest_resized(pixels@, width, height, new_width, new_height),
        out@.len() == rgba_len(new_width as nat, new_height as nat),
        new_width == width && new_height == height ==> out@ == pixels@,
{
    let source = image::RgbaImage::from_raw(width, height, pixels.clone()).unwrap();
    let resized = image::DynamicImage::ImageRgba8(source).resize_exact(
        new_width,
        new_height,
        image::imageops::FilterType::Nearest,
    );
    resized.into_rgba8().into_raw()
}

/// Pastes `top` onto `bottom` with `image::imageops::overlay`, the top-left
/// corner of `top` at column `x`, row `y`.
///
/// Trusted: the result depends on the arguments alone, has the length of
/// `bottom`, keeps every pixel that `top` does not cover, and holds the
/// pixel of `top` wherever that pixel is fully opaque. What a translucent
/// pixel of `top` blends to is not stated.
#[verifier::external_body]
fn overlay(
    bottom: Vec<u8>,
    bottom_width: u32,
    bottom_height: u32,
    top: &Vec<u8>,
    top_width: u32,
    top_height: u32,
    x: u32,
    y: u32,
) -> (out: Vec<u8>)
    requires
        bottom@.len() == rgba_len(bottom_width as nat, bottom_height as nat),
        top@.len() == rgba_len(top_width as nat, top_height as nat),
    ensures
        out@ == overlaid(bottom@, bottom_width, bottom_height, top@, top_width, top_height, x, y),
        pasted(
            out@,
            bottom@,
            bottom_width as nat,
            bottom_height as nat,
            top@,
            Placement { width: top_width, height: top_height, x, y },
        ),
{
    let mut canvas = image::RgbaImage::from_raw(bottom_width, bottom_height, bottom).unwrap();
    let picture = image::ImageBuffer::<image::Rgba<u8>, &[u8]>::from_raw(
        top_width,
        top_height,
        top.as_slice(),
    ).unwrap();
    image::imageops::overlay(&mut canvas, &picture, x as i64, y as i64);
    canvas.into_raw()
}

/// Every byte of a buffer of opaque black is 255 for alpha and 0 otherwise.
proof fn lemma_black_channels(width: nat, height: nat, x: int, y: int, c: int)
    requires
        0 <= x < width,
        0 <= y < height,
        0 <= c < 4,
    ensures
        channel(opaque_black(width * height), width, x, y, c) == (if c == 3 {
            255u8
        } else {
            0u8
        }),
{
    assert(0 <= y * width + x < width * height) by (nonlinear_arith)
        requires
            0 <= x < width,
            0 <= y < height,
    ;
}

/// Puts a picture, unscaled, in the middle of an opaque black display. A
/// picture larger than the display starts at the left or top edge and is
/// cut off at the other.
pub fn letterbox(picture: &RgbaFrame, target_width: u16, target_height: u16) -> (out: RgbaFrame)
    requires
        rgba_len(target_width as nat, target_height as nat) <= isize::MAX,
    ensures
        out@.width == target_width,
        out@.height == target_height,
        out@.pixels == letterboxed(picture@, target_width, target_height),
        shows(
            out@.pixels,
            target_width as nat,
            target_height as nat,
            picture@.pixels,
            centred_placement(
                picture@.width,
                picture@.height,
                target_width as nat,
                target_height as nat,
            ),
        ),
{
    let width = target_width as u32;
    let height = target_height as u32;
    let x: u32 = if picture.width() <= width {
        (width - picture.width()) / 2
    } else {
        0
    };
    let y: u32 = if picture.height() <= height {
        (height - picture.height()) / 2
    } else {
        0
    };
    let canvas = RgbaFrame::black(width, height).into_pixels();
    let ghost black = canvas@;
    let pixels = overlay(
        canvas,
        width,
        height,
        picture.pixels(),
        picture.width(),
        picture.height(),
        x,
        y,
    );
    proof {
        let p = centred_placement(
            picture@.width,
            picture@.height,
            target_width as nat,
            target_height as nat,
        );
        assert forall|px: int, py: int, c: int|
            0 <= px < width && 0 <= py < height && 0 <= c < 4 && !covers(p, px, py) implies (
        #[trigger] channel(pixels@, width as nat, px, py, c)) == (if c == 3 {
            255u8
        } else {
            0u8
        }) by {
            lemma_black_channels(width as nat, height as nat, px, py, c);
        }
    }
    let frame = RgbaFrame::new(width, height, pixels);
    frame.unwrap()
}

/// Fits a picture to the display: scales it by the smaller of the two
/// ratios display/picture so that all of it shows, resamples it by nearest
/// neighbour, and centres it on opaque black.
///
/// The result always has exactly the size of the display. Outside the
/// rectangle of the scaled picture it is opaque black; inside, it holds the
/// resampled picture wherever that is fully opaque. An opaque picture that
/// has the size of the display comes back as it is, so fitting a second
/// time changes nothing.
pub fn fit_to_display(source: &RgbaFrame, target_width: u16, target_height: u16) -> (out: RgbaFrame)
    requires
        rgba_len(target_width as nat, target_height as nat) <= isize::MAX,
        16 * (source@.width * target_height) <= isize::MAX,
    ensures
        out@.width == target_width,
        out@.height == target_height,
        out@.pixels == fitted(source@, target_width, target_height),
        source@.width == target_width && source@.height == target_height && opaque(
            source@.pixels,
        ) ==> out@.pixels == source@.pixels,
        shows(
            out@.pixels,
            target_width as nat,
            target_height as nat,
            resampled(source@, target_width, target_height).pixels,
            centred_placement(
                resampled(source@, target_width, target_height).width,
                resampled(source@, target_width, target_height).height,
                target_width as nat,
                target_height as nat,
            ),
        ),
{
    let p = plan_fit(source.width(), source.height(), target_width, target_height);
    let source_pixels = source.pixels();
    if p.width == 0 || p.height == 0 {
        let out = RgbaFrame::black(target_width as u32, target_height as u32);
        proof {
            if source@.width == target_width && source@.height == target_height {
                lemma_scaled_size_fits(
                    source@.width,
                    source@.height,
                    target_width as nat,
                    target_height as nat,
                );
                assert(target_width == 0 || target_height == 0);
                assert(target_width as nat * target_height as nat == 0) by (nonlinear_arith)
                    requires
                        target_width == 0 || target_height == 0,
                ;
                assert(out@.pixels =~= source_pixels@);
            }
            assert forall|x: int, y: int, c: int|
                0 <= x < target_width && 0 <= y < target_height && 0 <= c < 4 implies (
            #[trigger] channel(out@.pixels, target_width as nat, x, y, c)) == (if c == 3 {
                255u8
            } else {
                0u8
            }) by {
                lemma_black_channels(target_width as nat, target_height as nat, x, y, c);
            }
        }
        return out;
    }
    assert(source@.width * p.height <= source@.width * target_height) by (nonlinear_arith)
        requires
            p.height <= target_height,
    ;
    assert(p.width * p.height <= target_width * target_height) by (nonlinear_arith)
        requires
            p.width <= target_width,
            p.height <= target_height,
    ;
    let resized = resize_nearest(source_pixels, source.width(), source.height(), p.width, p.height);
    let picture = RgbaFrame::new(p.width, p.height, resized);
    let out = letterbox(&picture.unwrap(), target_width, target_height);
    proof {
        if source@.width == target_width && source@.height == target_height && opaque(
            source@.pixels,
        ) {
            lemma_scaled_size_fits(
                source@.width,
                source@.height,
                target_width as nat,
                target_height as nat,
            );
            assert(p.width == target_width && p.height == target_height && p.x == 0 && p.y == 0);
            assert forall|x: int, y: int, c: int|
                0 <= x < target_width && 0 <= y < target_height && 0 <= c < 4 implies (
            #[trigger] channel(out@.pixels, target_width as nat, x, y, c)) == channel(
                source@.pixels,
                target_width as nat,
                x,
                y,
                c,
            ) by {
                lemma_opaque_channels(
                    source@.pixels,
                    target_width as nat,
                    target_height as nat,
                    x,
                    y,
                );
            }
            lemma_same_channels(
                out@.pixels,
                source@.pixels,
                target_width as nat,
                target_height as nat,
            );
        }
    }
    out
}

} // verus!
