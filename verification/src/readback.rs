//! The image readback path: row-pitch alignment, trimming the padded rows
//! that a texture-to-buffer copy produces, and PNG encoding.

use vstd::prelude::*;
use vstd::arithmetic::div_mod::{
    lemma_fundamental_div_mod, lemma_fundamental_div_mod_converse, lemma_mod_multiples_basic,
};
use crate::COPY_ALIGN;
use crate::TraceError;
use image::ImageEncoder;

verus! {

/// The row stride of a texture-to-buffer copy: `4 * width` bytes rounded up
/// to the copy alignment.
pub open spec fn spec_padded_bytes_per_row(width: int) -> int {
    ((4 * width + (COPY_ALIGN as int) - 1) / (COPY_ALIGN as int)) * (COPY_ALIGN as int)
}

/// The padded row stride is aligned, is at least the tight row size, and
/// exceeds it by less than one alignment unit.
pub proof fn lemma_padded_bytes_per_row(width: int)
    requires
        width >= 0,
    ensures
        spec_padded_bytes_per_row(width) % (COPY_ALIGN as int) == 0,
        spec_padded_bytes_per_row(width) >= 4 * width,
        spec_padded_bytes_per_row(width) < 4 * width + (COPY_ALIGN as int),
{
    let a = COPY_ALIGN as int;
    let x = 4 * width + a - 1;
    let q = x / a;
    lemma_fundamental_div_mod(x, a);
    assert(x == a * q + x % a);
    assert(0 <= x % a < a);
    lemma_mod_multiples_basic(q, a);
    assert(a * q == q * a) by (nonlinear_arith);
}

/// Compute the aligned row stride for a copy out of a `width`-pixel-wide
/// RGBA8 texture.
pub fn padded_bytes_per_row(width: u32) -> (r: u32)
    requires
        4 * width + COPY_ALIGN - 1 <= u32::MAX,
    ensures
        r == spec_padded_bytes_per_row(width as int),
        r % COPY_ALIGN == 0,
        r >= 4 * width,
        r < 4 * width + COPY_ALIGN,
{
    proof {
        lemma_padded_bytes_per_row(width as int);
    }
    let tight: u32 = 4 * width;
    ((tight + (COPY_ALIGN - 1)) / COPY_ALIGN) * COPY_ALIGN
}

/// The tightly packed pixel rows extracted from a buffer whose rows are
/// `padded` bytes apart: row `y` of the result is bytes
/// `y * padded .. y * padded + 4 * width` of `data`.
pub open spec fn trimmed_rows(data: Seq<u8>, width: int, height: int, padded: int) -> Seq<u8> {
    Seq::new(
        (4 * width * height) as nat,
        |k: int| data[(k / (4 * width)) * padded + k % (4 * width)],
    )
}

/// Copy the first `4 * width` bytes of each padded row into a tightly
/// packed buffer.
pub fn trim_rows(data: &Vec<u8>, width: u32, height: u32, padded: u32) -> (r: Vec<u8>)
    requires
        width >= 1,
        4 * width <= padded,
        data@.len() == padded * height,
    ensures
        r@ == trimmed_rows(data@, width as int, height as int, padded as int),
{
    let n: usize = data.len();
    let row_bytes: usize = (4 * width) as usize;
    let mut r: Vec<u8> = Vec::new();
    let mut row: usize = 0;
    while row < height as usize
        invariant
            row <= height,
            width >= 1,
            4 * width <= padded,
            n == data@.len(),
            data@.len() == padded * height,
            row_bytes == 4 * (width as int),
            r@ == trimmed_rows(data@, width as int, row as int, padded as int),
        decreases height as int - row as int,
    {
        proof {
            assert((row as int) * (padded as int) + 4 * (width as int)
                <= (padded as int) * (height as int)) by (nonlinear_arith)
                requires
                    0 <= (row as int) < (height as int),
                    1 <= 4 * (width as int) <= (padded as int),
            ;
        }
        let base: usize = row * (padded as usize);
        let mut i: usize = 0;
        while i < row_bytes
            invariant
                i <= row_bytes,
                row < height,
                width >= 1,
                4 * width <= padded,
                n == data@.len(),
                data@.len() == padded * height,
                row_bytes == 4 * (width as int),
                base == (row as int) * (padded as int),
                base + row_bytes <= n,
                r@ == trimmed_rows(data@, width as int, row as int, padded as int)
                    + Seq::new(i as nat, |j: int| data@[(row as int) * (padded as int) + j]),
            decreases row_bytes as int - i as int,
        {
            let b: u8 = data[base + i];
            r.push(b);
            i = i + 1;
            assert(r@ =~= trimmed_rows(data@, width as int, row as int, padded as int)
                + Seq::new(i as nat, |j: int| data@[(row as int) * (padded as int) + j]));
        }
        row = row + 1;
        proof {
            let w = width as int;
            let p = padded as int;
            let prev = row as int - 1;
            assert(4 * w * prev + 4 * w == 4 * w * (row as int)) by (nonlinear_arith)
                requires
                    prev == row as int - 1,
            ;
            assert forall|k: int| 0 <= k < 4 * w * (row as int) implies
                trimmed_rows(data@, w, row as int, p)[k]
                    == (trimmed_rows(data@, w, prev, p)
                        + Seq::new((4 * w) as nat, |j: int| data@[prev * p + j]))[k]
            by {
                if k < 4 * w * prev {
                } else {
                    let j = k - 4 * w * prev;
                    assert(0 <= j < 4 * w);
                    lemma_fundamental_div_mod_converse(k, 4 * w, prev, j);
                    assert(k / (4 * w) == prev && k % (4 * w) == j);
                }
            }
            assert(r@ =~= trimmed_rows(data@, w, row as int, p));
        }
    }
    proof {
        assert(r@ =~= trimmed_rows(data@, width as int, height as int, padded as int));
    }
    r
}

/// The PNG encoding of an RGBA8 image with 8-bit depth, as the `image`
/// crate's encoder produces it from the tightly packed pixel bytes and the
/// dimensions.
pub uninterp spec fn png_encoding(pixels: Seq<u8>, width: int, height: int) -> Seq<u8>;

#[verifier::external_type_specification]
#[verifier::external_body]
pub struct ExImageError(image::ImageError);

/// Relies on `image::codecs::png::PngEncoder::write_image`: the encoder
/// writes the PNG stream into the supplied sink, and its output depends on
/// the pixel bytes and the dimensions alone. It panics unless the buffer
/// holds exactly `4 * width * height` bytes, which the precondition rules
/// out; writing into an in-memory vector, it fails only on a zero width or
/// height.
#[verifier::external_body]
fn encode_png_rgba(data: &Vec<u8>, width: u32, height: u32) -> (r: Result<Vec<u8>, image::ImageError>)
    requires
        data@.len() == 4 * width * height,
    ensures
        r matches Ok(png) ==> png@ == png_encoding(data@, width as int, height as int),
        width >= 1 && height >= 1 ==> r is Ok,
{
    let mut out: Vec<u8> = Vec::new();
    let encoder = image::codecs::png::PngEncoder::new(&mut out);
    match encoder.write_image(data.as_slice(), width, height, image::ExtendedColorType::Rgba8) {
        Ok(()) => Ok(out),
        Err(e) => Err(e),
    }
}

/// Trim the padded rows of a readback buffer and encode the image as a PNG
/// of exactly `width` by `height` pixels.
pub fn encode_frame_png(data: &Vec<u8>, width: u32, height: u32, padded: u32) -> (r: Result<
    Vec<u8>,
    TraceError,
>)
    requires
        width >= 1,
        4 * width <= padded,
        data@.len() == padded * height,
    ensures
        r matches Ok(png) ==> png@ == png_encoding(
            trimmed_rows(data@, width as int, height as int, padded as int),
            width as int,
            height as int,
        ),
        height >= 1 ==> r is Ok,
        r matches Err(e) ==> e == TraceError::PngEncode,
{
    let rows = trim_rows(data, width, height, padded);
    match encode_png_rgba(&rows, width, height) {
        Ok(png) => Ok(png),
        Err(_) => Err(TraceError::PngEncode),
    }
}

} // verus!
