//! Compositing on a `tiny_skia::Pixmap`: a glyph's coverage of a pixel is
//! weighed against what the pixel holds. The pixmap is read and written
//! byte by byte; what makes a pixel is decided here.
//!
//! Coverage arrives as the bits of an IEEE 754 single-precision number, so
//! that the threshold below which a pixel is left alone, and the weight of
//! the glyph's colour, are decided here in whole-number arithmetic, exactly
//! as single-precision arithmetic decides them.

use vstd::prelude::*;
use crate::tui::Rgba;

verus! {

/// `tiny_skia::Pixmap`: a rectangle of premultiplied pixels that owns its
/// memory. The verifier sees nothing inside it; what it holds is told by
/// `pixmap_data`, `pixmap_width` and `pixmap_height`.
#[verifier::external_type_specification]
#[verifier::external_body]
pub struct ExPixmap(tiny_skia::Pixmap);

/// The bytes of a pixmap: four to a pixel, red, green, blue and alpha,
/// pixel after pixel and row after row.
pub uninterp spec fn pixmap_data(pixmap: tiny_skia::Pixmap) -> Seq<u8>;

/// The width of a pixmap in pixels.
pub uninterp spec fn pixmap_width(pixmap: tiny_skia::Pixmap) -> nat;

/// The height of a pixmap in pixels.
pub uninterp spec fn pixmap_height(pixmap: tiny_skia::Pixmap) -> nat;

/// Calls `Pixmap::width`. A pixmap is never empty, and its bytes, a slice
/// of them, are at least four for every position of its width and height.
#[verifier::external_body]
fn width_of(pixmap: &tiny_skia::Pixmap) -> (w: u32)
    ensures
        w == pixmap_width(*pixmap),
        w >= 1,
        4 * w * pixmap_height(*pixmap) <= pixmap_data(*pixmap).len() <= usize::MAX,
{
    pixmap.width()
}

/// Calls `Pixmap::height`.
#[verifier::external_body]
fn height_of(pixmap: &tiny_skia::Pixmap) -> (h: u32)
    ensures
        h == pixmap_height(*pixmap),
        h >= 1,
{
    pixmap.height()
}

/// Reads the byte at `i` of `Pixmap::data`.
#[verifier::external_body]
fn byte_at(pixmap: &tiny_skia::Pixmap, i: usize) -> (byte: u8)
    requires
        i < pixmap_data(*pixmap).len(),
    ensures
        byte == pixmap_data(*pixmap)[i as int],
{
    pixmap.data()[i]
}

/// Writes the byte at `i` of `Pixmap::data_mut`. Nothing else changes.
#[verifier::external_body]
fn set_byte(pixmap: &mut tiny_skia::Pixmap, i: usize, byte: u8)
    requires
        i < pixmap_data(*old(pixmap)).len(),
    ensures
        pixmap_data(*final(pixmap)) == pixmap_data(*old(pixmap)).update(i as int, byte),
        pixmap_width(*final(pixmap)) == pixmap_width(*old(pixmap)),
        pixmap_height(*final(pixmap)) == pixmap_height(*old(pixmap)),
{
    pixmap.data_mut()[i] = byte;
}

/// Calls `PremultipliedColorU8::from_rgba` and takes the pixel apart again
/// with `red`, `green`, `blue` and `alpha`. There is a pixel exactly when
/// no colour channel is greater than alpha, and it has the channels given.
#[verifier::external_body]
fn premultiplied_pixel(r: u8, g: u8, b: u8, a: u8) -> (pixel: Option<Rgba>)
    ensures
        pixel == (if premultiplied((r, g, b, a)) {
            Some(Rgba::new(r, g, b, a))
        } else {
            None
        }),
{
    match tiny_skia::PremultipliedColorU8::from_rgba(r, g, b, a) {
        Some(p) => Some(Rgba { r: p.red(), g: p.green(), b: p.blue(), a: p.alpha() }),
        None => None,
    }
}

/// Pixel `idx` of the bytes of a pixmap.
pub open spec fn pixel_of(data: Seq<u8>, idx: int) -> (u8, u8, u8, u8) {
    (data[4 * idx], data[4 * idx + 1], data[4 * idx + 2], data[4 * idx + 3])
}

/// The bytes of a pixmap with pixel `idx` replaced.
pub open spec fn with_pixel(data: Seq<u8>, idx: int, pixel: (u8, u8, u8, u8)) -> Seq<u8> {
    data.update(4 * idx, pixel.0).update(4 * idx + 1, pixel.1).update(4 * idx + 2, pixel.2).update(
        4 * idx + 3,
        pixel.3,
    )
}

fn read_pixel(pixmap: &tiny_skia::Pixmap, idx: usize) -> (pixel: (u8, u8, u8, u8))
    requires
        4 * idx + 3 < pixmap_data(*pixmap).len() <= usize::MAX,
    ensures
        pixel == pixel_of(pixmap_data(*pixmap), idx as int),
{
    (
        byte_at(pixmap, 4 * idx),
        byte_at(pixmap, 4 * idx + 1),
        byte_at(pixmap, 4 * idx + 2),
        byte_at(pixmap, 4 * idx + 3),
    )
}

/// Writes a pixel if it is a premultiplied one, and says whether it was.
fn store_pixel(pixmap: &mut tiny_skia::Pixmap, idx: usize, r: u8, g: u8, b: u8, a: u8) -> (stored:
    bool)
    requires
        4 * idx + 3 < pixmap_data(*old(pixmap)).len() <= usize::MAX,
    ensures
        stored == premultiplied((r, g, b, a)),
        pixmap_data(*final(pixmap)) == if stored {
            with_pixel(pixmap_data(*old(pixmap)), idx as int, (r, g, b, a))
        } else {
            pixmap_data(*old(pixmap))
        },
        pixmap_width(*final(pixmap)) == pixmap_width(*old(pixmap)),
        pixmap_height(*final(pixmap)) == pixmap_height(*old(pixmap)),
{
    match premultiplied_pixel(r, g, b, a) {
        Some(p) => {
            set_byte(pixmap, 4 * idx, p.r);
            set_byte(pixmap, 4 * idx + 1, p.g);
            set_byte(pixmap, 4 * idx + 2, p.b);
            set_byte(pixmap, 4 * idx + 3, p.a);
            true
        },
        None => false,
    }
}

/// The bits of the coverage 0.2: what covers a pixel no more than this is
/// not drawn.
pub const THRESHOLD_BITS: u32 = 0x3E4C_CCCD;

/// The bits of the coverage 1.0.
pub const FULL_BITS: u32 = 0x3F80_0000;

/// The bits of positive infinity: above it lie the bit patterns that are no
/// numbers, and those of negative numbers.
pub const INFINITY_BITS: u32 = 0x7F80_0000;

/// Whether a coverage is drawn: it is a number, and greater than 0.2.
pub open spec fn is_visible(coverage: u32) -> bool {
    THRESHOLD_BITS < coverage <= INFINITY_BITS
}

/// `p / d` rounded to the nearest whole number, a half to the even one.
pub open spec fn rounded(p: int, d: int) -> int {
    if 2 * (p % d) > d || (2 * (p % d) == d && (p / d) % 2 == 1) {
        p / d + 1
    } else {
        p / d
    }
}

/// The weight of the glyph's colour for a visible coverage: the coverage
/// times 255 as single-precision arithmetic computes it, that is rounded to
/// 24 significant bits, then cut to a whole number and limited to 255.
pub open spec fn alpha_of(coverage: u32) -> int {
    if coverage >= FULL_BITS {
        255
    } else {
        let exponent = coverage / 0x80_0000;
        let product = 255 * (0x80_0000 + coverage % 0x80_0000);
        let drop: int = if product < 0x8000_0000 {
            128
        } else {
            256
        };
        let unit: int = if exponent >= 126 {
            0x100_0000
        } else if exponent == 125 {
            0x200_0000
        } else {
            0x400_0000
        };
        let whole = (rounded(product, drop) * drop) / unit;
        if whole > 255 {
            255
        } else {
            whole
        }
    }
}

/// One channel of source over destination: the colour weighed with
/// `alpha`, what is there with the rest, of 255.
pub open spec fn mix(src: u8, dst: u8, alpha: u8) -> int {
    (src * alpha + dst * (255 - alpha)) / 255
}

/// The glyph's colour over the pixel `dest` with weight `alpha`: at full
/// weight the colour itself, opaque; else source over destination in each
/// of the four channels, the source's alpha being full.
pub open spec fn blended(dest: (u8, u8, u8, u8), color: Rgba, alpha: u8) -> (u8, u8, u8, u8) {
    if alpha == 255 {
        (color.r, color.g, color.b, 255u8)
    } else {
        (
            mix(color.r, dest.0, alpha) as u8,
            mix(color.g, dest.1, alpha) as u8,
            mix(color.b, dest.2, alpha) as u8,
            mix(255, dest.3, alpha) as u8,
        )
    }
}

/// Whether no colour channel of a pixel is greater than its alpha.
pub open spec fn premultiplied(p: (u8, u8, u8, u8)) -> bool {
    p.0 <= p.3 && p.1 <= p.3 && p.2 <= p.3
}

/// What a pixel holds after a glyph was drawn over it: the blend, unless
/// the blend is no premultiplied pixel; then the pixel stays.
pub open spec fn composited(dest: (u8, u8, u8, u8), color: Rgba, alpha: u8) -> (u8, u8, u8, u8) {
    if premultiplied(blended(dest, color, alpha)) {
        blended(dest, color, alpha)
    } else {
        dest
    }
}

/// Where the pixel at column `px`, row `py` lies among the pixels of a
/// pixmap of `w` by `h`; nowhere if it lies outside.
pub open spec fn pixel_index(px: i32, py: i32, w: nat, h: nat) -> Option<int> {
    if 0 <= px < w && 0 <= py < h {
        Some(py * w + px)
    } else {
        None
    }
}

/// The bytes of a pixmap after one sample of a glyph was drawn: a visible
/// coverage inside the pixmap changes its pixel, anything else changes
/// nothing.
pub open spec fn plotted(
    data: Seq<u8>,
    w: nat,
    h: nat,
    px: i32,
    py: i32,
    coverage: u32,
    color: Rgba,
) -> Seq<u8> {
    match pixel_index(px, py, w, h) {
        Some(idx) if is_visible(coverage) && premultiplied(
            blended(pixel_of(data, idx), color, alpha_of(coverage) as u8),
        ) => with_pixel(data, idx, blended(pixel_of(data, idx), color, alpha_of(coverage) as u8)),
        _ => data,
    }
}

/// The weight for a coverage, or nothing for a coverage that is not drawn.
pub fn coverage_alpha(coverage: u32) -> (alpha: Option<u8>)
    ensures
        alpha == if is_visible(coverage) {
            Some(alpha_of(coverage) as u8)
        } else {
            None
        },
        alpha matches Some(a) ==> a >= 51,
{
    if coverage <= THRESHOLD_BITS || coverage > INFINITY_BITS {
        return None;
    }
    if coverage >= FULL_BITS {
        return Some(255);
    }
    let exponent = coverage / 0x80_0000;
    let mantissa: u64 = 0x80_0000 + (coverage % 0x80_0000) as u64;
    let product: u64 = 255 * mantissa;
    let drop: u64 = if product < 0x8000_0000 {
        128
    } else {
        256
    };
    let unit: u64 = if exponent >= 126 {
        0x100_0000
    } else if exponent == 125 {
        0x200_0000
    } else {
        0x400_0000
    };
    let quotient = product / drop;
    let rest = product % drop;
    let kept = if 2 * rest > drop || (2 * rest == drop && quotient % 2 == 1) {
        quotient + 1
    } else {
        quotient
    };
    let whole = (kept * drop) / unit;
    assert(kept * drop >= product - 128);
    assert(whole >= 51);
    if whole > 255 {
        Some(255)
    } else {
        Some(whole as u8)
    }
}

/// Blends one channel.
fn mix_channel(src: u8, dst: u8, alpha: u8) -> (out: u8)
    ensures
        out == mix(src, dst, alpha),
{
    let a = alpha as u32;
    let inv_a = 255 - a;
    assert((src as u32) * a <= 255 * a) by (nonlinear_arith)
        requires
            src <= 255,
            a >= 0,
    ;
    assert((dst as u32) * inv_a <= 255 * inv_a) by (nonlinear_arith)
        requires
            dst <= 255,
            inv_a >= 0,
    ;
    (((src as u32) * a + (dst as u32) * inv_a) / 255) as u8
}

/// Blends the glyph's colour over a pixel.
pub fn blend(dest: (u8, u8, u8, u8), color: Rgba, alpha: u8) -> (out: (u8, u8, u8, u8))
    ensures
        out == blended(dest, color, alpha),
        premultiplied(dest) ==> premultiplied(out),
{
    if alpha == 255 {
        (color.r, color.g, color.b, 255)
    } else {
        proof {
            if premultiplied(dest) {
                lemma_blend_keeps_premultiplied(dest, color, alpha);
            }
        }
        (
            mix_channel(color.r, dest.0, alpha),
            mix_channel(color.g, dest.1, alpha),
            mix_channel(color.b, dest.2, alpha),
            mix_channel(255, dest.3, alpha),
        )
    }
}

/// Draws one sample of a glyph: the pixel at column `px`, row `py`, covered
/// as `coverage` says, in the red, green and blue of `color`.
pub fn plot(pixmap: &mut tiny_skia::Pixmap, px: i32, py: i32, coverage: u32, color: Rgba)
    ensures
        pixmap_data(*final(pixmap)) == plotted(
            pixmap_data(*old(pixmap)),
            pixmap_width(*old(pixmap)),
            pixmap_height(*old(pixmap)),
            px,
            py,
            coverage,
            color,
        ),
        pixmap_width(*final(pixmap)) == pixmap_width(*old(pixmap)),
        pixmap_height(*final(pixmap)) == pixmap_height(*old(pixmap)),
{
    let alpha = match coverage_alpha(coverage) {
        Some(alpha) => alpha,
        None => {
            return ;
        },
    };
    let pix_w = width_of(pixmap);
    let pix_h = height_of(pixmap);
    if px < 0 || py < 0 || px as u32 >= pix_w || py as u32 >= pix_h {
        return ;
    }
    assert(0 <= py * pix_w && 4 * (py * pix_w + px) + 3 < 4 * pix_w * pix_h) by (nonlinear_arith)
        requires
            0 <= px < pix_w,
            0 <= py < pix_h,
    ;
    let idx = (py as usize) * (pix_w as usize) + (px as usize);
    let dest = read_pixel(pixmap, idx);
    let out = blend(dest, color, alpha);
    store_pixel(pixmap, idx, out.0, out.1, out.2, out.3);
}

/// Copies a picture of plain red, green, blue, alpha bytes into a pixmap,
/// pixel by pixel from the first on, as far as both go. A pixel with a
/// colour channel greater than its alpha is no premultiplied pixel: it is
/// not copied.
pub fn load_pixels(pixmap: &mut tiny_skia::Pixmap, rgba: &Vec<u8>)
    ensures
        pixmap_width(*final(pixmap)) == pixmap_width(*old(pixmap)),
        pixmap_height(*final(pixmap)) == pixmap_height(*old(pixmap)),
        pixmap_data(*final(pixmap)).len() == pixmap_data(*old(pixmap)).len(),
        forall|i: int|
            0 <= i < pixmap_width(*old(pixmap)) * pixmap_height(*old(pixmap)) ==> #[trigger] pixel_of(
                pixmap_data(*final(pixmap)),
                i,
            ) == loaded_pixel(pixel_of(pixmap_data(*old(pixmap)), i), rgba@, i),
        forall|k: int|
            4 * pixmap_width(*old(pixmap)) * pixmap_height(*old(pixmap)) <= k < pixmap_data(
                *old(pixmap),
            ).len() ==> #[trigger] pixmap_data(*final(pixmap))[k] == pixmap_data(*old(pixmap))[k],
{
    let pix_w = width_of(pixmap);
    let pix_h = height_of(pixmap);
    let ghost start = pixmap_data(*pixmap);
    assert(pix_w * pix_h <= usize::MAX && 4 * (pix_w * pix_h) == 4 * pix_w * pix_h)
        by (nonlinear_arith)
        requires
            4 * pix_w * pix_h <= usize::MAX,
            pix_w >= 0,
            pix_h >= 0,
    ;
    let count = (pix_w as usize) * (pix_h as usize);
    let given = rgba.len() / 4;
    let mut i: usize = 0;
    while i < count && i < given
        invariant
            i <= count,
            4 * count <= start.len() <= usize::MAX,
            given == rgba@.len() / 4,
            rgba@.len() <= usize::MAX,
            pixmap_width(*pixmap) == pixmap_width(*old(pixmap)),
            pixmap_height(*pixmap) == pixmap_height(*old(pixmap)),
            pixmap_data(*pixmap).len() == start.len(),
            forall|k: int|
                0 <= k < i ==> #[trigger] pixel_of(pixmap_data(*pixmap), k) == loaded_pixel(
                    pixel_of(start, k),
                    rgba@,
                    k,
                ),
            forall|k: int| 4 * i <= k < start.len() ==> #[trigger] pixmap_data(*pixmap)[k] == start[k],
        decreases count - i,
    {
        let ghost before = pixmap_data(*pixmap);
        store_pixel(pixmap, i, rgba[4 * i], rgba[4 * i + 1], rgba[4 * i + 2], rgba[4 * i + 3]);
        proof {
            let after = pixmap_data(*pixmap);
            assert(pixel_of(before, i as int) == pixel_of(start, i as int));
            assert forall|k: int| 0 <= k < i + 1 implies #[trigger] pixel_of(after, k)
                == loaded_pixel(pixel_of(start, k), rgba@, k) by {
                if k < i {
                    assert(pixel_of(after, k) == pixel_of(before, k));
                }
            }
        }
        i = i + 1;
    }
    proof {
        let after = pixmap_data(*pixmap);
        assert forall|k: int| 0 <= k < count implies #[trigger] pixel_of(after, k) == loaded_pixel(
            pixel_of(start, k),
            rgba@,
            k,
        ) by {
            if k >= i {
                assert(pixel_of(after, k) == pixel_of(start, k));
            }
        }
    }
}

/// What pixel `i` holds after a picture was loaded: the picture's pixel if
/// the picture reaches that far and the pixel is premultiplied, else what
/// it held.
pub open spec fn loaded_pixel(held: (u8, u8, u8, u8), rgba: Seq<u8>, i: int) -> (u8, u8, u8, u8) {
    if i < rgba.len() / 4 && premultiplied(
        (rgba[4 * i], rgba[4 * i + 1], rgba[4 * i + 2], rgba[4 * i + 3]),
    ) {
        (rgba[4 * i], rgba[4 * i + 1], rgba[4 * i + 2], rgba[4 * i + 3])
    } else {
        held
    }
}

/// Blending over a premultiplied pixel gives a premultiplied pixel: the
/// blend is always written.
pub proof fn lemma_blend_keeps_premultiplied(dest: (u8, u8, u8, u8), color: Rgba, alpha: u8)
    requires
        premultiplied(dest),
    ensures
        premultiplied(blended(dest, color, alpha)),
        composited(dest, color, alpha) == blended(dest, color, alpha),
{
    if alpha != 255 {
        lemma_mix_ordered(color.r, dest.0, dest.3, alpha);
        lemma_mix_ordered(color.g, dest.1, dest.3, alpha);
        lemma_mix_ordered(color.b, dest.2, dest.3, alpha);
    }
}

/// A channel blends to no more than alpha does, where it held no more than
/// alpha did; and never to more than 255.
pub proof fn lemma_mix_ordered(src: u8, dst: u8, dst_alpha: u8, alpha: u8)
    requires
        dst <= dst_alpha,
    ensures
        0 <= mix(src, dst, alpha) <= mix(255, dst_alpha, alpha) <= 255,
{
    let inv = 255 - alpha;
    assert(src * alpha <= 255 * alpha) by (nonlinear_arith)
        requires
            src <= 255,
            alpha >= 0,
    ;
    assert(dst * inv <= dst_alpha * inv) by (nonlinear_arith)
        requires
            dst <= dst_alpha,
            inv >= 0,
    ;
    assert(dst_alpha * inv <= 255 * inv) by (nonlinear_arith)
        requires
            dst_alpha <= 255,
            inv >= 0,
    ;
    assert(0 <= src * alpha) by (nonlinear_arith)
        requires
            src >= 0,
            alpha >= 0,
    ;
    assert(0 <= dst * inv) by (nonlinear_arith)
        requires
            dst >= 0,
            inv >= 0,
    ;
}

} // verus!
