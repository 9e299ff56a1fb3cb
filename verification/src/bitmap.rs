//! Pixel-buffer normalization.
//!
//! Platform icon sources hand back raw bitmaps: a pixel buffer in
//! blue-first channel order, three or four bytes per pixel, together with the
//! width, height and row stride in bytes. `normalize` turns such a buffer
//! into the canonical form used everywhere else in the library: red-first
//! RGBA, four bytes per pixel, row-major, no padding.

use vstd::prelude::*;

verus! {

/// A pixel buffer as supplied by a platform icon source: `stride` bytes per
/// row, blue-first channel order, three or four bytes per pixel.
pub struct RawBitmap {
    pub width: u32,
    pub height: u32,
    /// Row stride in bytes.
    pub stride: u32,
    pub pixels: Vec<u8>,
}

/// A canonical RGBA image: four bytes per pixel, red first, row-major,
/// no padding. Produced only by `normalize` or by decoding a stored entry.
pub struct CanonicalImage {
    pub width: u32,
    pub height: u32,
    pub pixels: Vec<u8>,
}

/// The bitmap's bytes-per-pixel ratio is not 3 or 4, a dimension is zero, or
/// the buffer length does not match the dimensions.
pub struct UnsupportedFormat;

impl CanonicalImage {
    /// The buffer holds exactly four bytes for each of the image's
    /// `width * height` pixels.
    pub open spec fn buffer_exact(&self) -> bool {
        self.pixels@.len() == 4 * (self.width as int) * (self.height as int)
    }

    /// A canonical image has positive dimensions and an exact buffer.
    pub open spec fn wf(&self) -> bool {
        &&& self.width > 0
        &&& self.height > 0
        &&& self.buffer_exact()
    }

    /// The image as a mathematical value: dimensions and pixel bytes.
    pub open spec fn model(&self) -> (u32, u32, Seq<u8>) {
        (self.width, self.height, self.pixels@)
    }
}

/// Bytes per pixel of a raw bitmap: its stride divided by its width.
pub open spec fn spec_bpp(bm: &RawBitmap) -> int
    recommends
        bm.width > 0,
{
    bm.stride as int / bm.width as int
}

/// A raw bitmap `normalize` accepts: positive dimensions, three or four
/// bytes per pixel, and a buffer holding exactly that many bytes per pixel.
pub open spec fn spec_supported(bm: &RawBitmap) -> bool {
    &&& bm.width > 0
    &&& bm.height > 0
    &&& (spec_bpp(bm) == 3 || spec_bpp(bm) == 4)
    &&& bm.pixels@.len() == spec_bpp(bm) * (bm.width as int) * (bm.height as int)
}

/// Four-byte pixels reordered from blue-green-red-alpha to
/// red-green-blue-alpha: bytes 0 and 2 of each pixel swap, the rest stay.
pub open spec fn bgra_normalized(src: Seq<u8>) -> Seq<u8> {
    Seq::new(
        src.len(),
        |i: int|
            if i % 4 == 0 {
                src[i + 2]
            } else if i % 4 == 2 {
                src[i - 2]
            } else {
                src[i]
            },
    )
}

/// Three-byte blue-green-red pixels expanded to red-green-blue-alpha, with
/// the alpha byte forced to 255 (the source provides no alpha channel).
pub open spec fn bgr_normalized(src: Seq<u8>) -> Seq<u8> {
    Seq::new(
        src.len() / 3 * 4,
        |i: int|
            if i % 4 == 0 {
                src[3 * (i / 4) + 2]
            } else if i % 4 == 1 {
                src[3 * (i / 4) + 1]
            } else if i % 4 == 2 {
                src[3 * (i / 4)]
            } else {
                255u8
            },
    )
}

/// The canonical pixels of a supported raw bitmap.
pub open spec fn spec_normalized_pixels(bm: &RawBitmap) -> Seq<u8>
    recommends
        spec_supported(bm),
{
    if spec_bpp(bm) == 4 {
        bgra_normalized(bm.pixels@)
    } else {
        bgr_normalized(bm.pixels@)
    }
}

/// Swaps bytes 0 and 2 of each four-byte pixel.
fn process_rgba_pixels(src: &Vec<u8>, num_pixels: usize) -> (out: Vec<u8>)
    requires
        src@.len() == 4 * num_pixels,
    ensures
        out@ == bgra_normalized(src@),
{
    let n: usize = src.len();
    let mut out: Vec<u8> = Vec::new();
    for p in 0..num_pixels
        invariant
            n == src@.len(),
            n == 4 * num_pixels,
            out@.len() == 4 * p,
            out@ =~= bgra_normalized(src@).take(4 * p),
    {
        out.push(src[4 * p + 2]);
        out.push(src[4 * p + 1]);
        out.push(src[4 * p]);
        out.push(src[4 * p + 3]);
        proof {
            assert(out@ =~= bgra_normalized(src@).take(4 * (p + 1)));
        }
    }
    proof {
        assert(out@ =~= bgra_normalized(src@));
    }
    out
}

/// Expands each three-byte pixel to four bytes, reordering channels and
/// forcing alpha to 255.
fn process_rgb_pixels(src: &Vec<u8>, num_pixels: usize) -> (out: Vec<u8>)
    requires
        src@.len() == 3 * num_pixels,
    ensures
        out@ == bgr_normalized(src@),
{
    let n: usize = src.len();
    let mut out: Vec<u8> = Vec::new();
    for p in 0..num_pixels
        invariant
            n == src@.len(),
            n == 3 * num_pixels,
            out@.len() == 4 * p,
            out@ =~= bgr_normalized(src@).take(4 * p),
    {
        out.push(src[3 * p + 2]);
        out.push(src[3 * p + 1]);
        out.push(src[3 * p]);
        out.push(255);
        proof {
            assert(out@ =~= bgr_normalized(src@).take(4 * (p + 1)));
        }
    }
    proof {
        assert(out@ =~= bgr_normalized(src@));
    }
    out
}

/// Converts a raw bitmap into a canonical RGBA image, or rejects it as an
/// unsupported format. Pure: no I/O, no shared state.
pub fn normalize(bm: &RawBitmap) -> (r: Result<CanonicalImage, UnsupportedFormat>)
    ensures
        r is Ok <==> spec_supported(bm),
        r matches Ok(img) ==> {
            &&& img.width == bm.width
            &&& img.height == bm.height
            &&& img.pixels@ == spec_normalized_pixels(bm)
            &&& img.wf()
        },
{
    if bm.width == 0 || bm.height == 0 {
        return Err(UnsupportedFormat);
    }
    let bpp: u32 = bm.stride / bm.width;
    if bpp != 3 && bpp != 4 {
        return Err(UnsupportedFormat);
    }
    let w128: u128 = bm.width as u128;
    let h128: u128 = bm.height as u128;
    let b128: u128 = bpp as u128;
    proof {
        assert(b128 * w128 <= 4 * 0xffffffff) by (nonlinear_arith)
            requires
                b128 <= 4,
                w128 <= 0xffffffff,
        ;
        assert(b128 * w128 * h128 <= 4 * 0xffffffff * 0xffffffff) by (nonlinear_arith)
            requires
                b128 * w128 <= 4 * 0xffffffff,
                h128 <= 0xffffffff,
        ;
    }
    let expected: u128 = b128 * w128 * h128;
    if (bm.pixels.len() as u128) != expected {
        return Err(UnsupportedFormat);
    }
    let num_pixels: usize = bm.pixels.len() / (bpp as usize);
    proof {
        assert(bm.pixels@.len() == (bpp as int) * (bm.width as int) * (bm.height as int));
        assert({
            &&& num_pixels == (bm.width as int) * (bm.height as int)
            &&& bm.pixels@.len() == (bpp as int) * (num_pixels as int)
            &&& 4 * (bm.width as int) * (bm.height as int) == 4 * (num_pixels as int)
        }) by (nonlinear_arith)
            requires
                bm.pixels@.len() == (bpp as int) * (bm.width as int) * (bm.height as int),
                num_pixels == bm.pixels@.len() as int / (bpp as int),
                bpp == 3 || bpp == 4,
        ;
    }
    let pixels = if bpp == 4 {
        process_rgba_pixels(&bm.pixels, num_pixels)
    } else {
        process_rgb_pixels(&bm.pixels, num_pixels)
    };
    Ok(CanonicalImage { width: bm.width, height: bm.height, pixels })
}

} // verus!
