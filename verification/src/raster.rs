//! Whole-frame conversion of planar YUV 4:2:0 data to packed BGR/BGRA rasters.
//!
//! Each converter walks the output pixel grid, looks the chroma pair up
//! according to its layout rule and writes one packed pixel per luma sample.
//! The fast paths (`yuv_to_bgr`, `yuv_to_bgra`, `yuv_to_bgra_separate`)
//! address the subsampled chroma planes by the linear pixel index divided by
//! four; `yuv_to_bgra_strided_separate` is the general form, with proper
//! two-dimensional 4:2:0 row/column arithmetic and an explicit row stride per
//! plane.

use vstd::prelude::*;
use vstd::arithmetic::div_mod::{lemma_fundamental_div_mod_converse, lemma_div_is_ordered};
use vstd::arithmetic::mul::lemma_mul_inequality;
use crate::pixel::{blue_spec, green_spec, red_spec, yuv_to_bgr as pixel_yuv_to_bgr};

verus! {

/// The packed four-byte raster of `pixels` pixels whose samples are given by
/// the three lookup functions: for pixel `i` the bytes are the blue, green
/// and red channels of `(y_of(i), u_of(i), v_of(i))`, then an opaque alpha.
pub open spec fn bgra_raster_spec(
    pixels: int,
    y_of: spec_fn(int) -> u8,
    u_of: spec_fn(int) -> u8,
    v_of: spec_fn(int) -> u8,
) -> Seq<u8> {
    Seq::new((4 * pixels) as nat, |k: int| {
        let i = k / 4;
        if k % 4 == 0 {
            blue_spec(y_of(i), u_of(i))
        } else if k % 4 == 1 {
            green_spec(y_of(i), u_of(i), v_of(i))
        } else if k % 4 == 2 {
            red_spec(y_of(i), v_of(i))
        } else {
            255u8
        }
    })
}

/// The three-byte raster: as `bgra_raster_spec`, without the alpha byte.
pub open spec fn bgr_raster_spec(
    pixels: int,
    y_of: spec_fn(int) -> u8,
    u_of: spec_fn(int) -> u8,
    v_of: spec_fn(int) -> u8,
) -> Seq<u8> {
    Seq::new((3 * pixels) as nat, |k: int| {
        let i = k / 3;
        if k % 3 == 0 {
            blue_spec(y_of(i), u_of(i))
        } else if k % 3 == 1 {
            green_spec(y_of(i), u_of(i), v_of(i))
        } else {
            red_spec(y_of(i), v_of(i))
        }
    })
}

/// Luma lookup of both fast paths: the sample of pixel `i` sits at the
/// linear pixel index itself.
pub open spec fn linear_y_of(ys: Seq<u8>) -> spec_fn(int) -> u8 {
    |i: int| ys[i]
}

/// Chroma lookup of the separate-planes fast path: the linear pixel index
/// divided by four.
pub open spec fn quarter_chroma_of(cs: Seq<u8>) -> spec_fn(int) -> u8 {
    |i: int| cs[i / 4]
}

/// Chroma lookups of the concatenated fast path: one flat buffer holds the
/// luma plane, then the two chroma planes, each addressed by the linear
/// pixel index divided by four.
pub open spec fn packed_u_of(yuv: Seq<u8>, pixels: int) -> spec_fn(int) -> u8 {
    |i: int| yuv[pixels + i / 4]
}

pub open spec fn packed_v_of(yuv: Seq<u8>, pixels: int) -> spec_fn(int) -> u8 {
    |i: int| yuv[pixels + pixels / 4 + i / 4]
}

/// Sample lookup of the general strided layout: pixel `i` sits at row
/// `i / width`, column `i % width`; its luma sample is addressed through the
/// luma row stride and its chroma pair through the 4:2:0 rule
/// `(row / 2, column / 2)` and the chroma row stride.
pub open spec fn strided_y_of(ys: Seq<u8>, width: int, y_stride: int) -> spec_fn(int) -> u8 {
    |i: int| ys[(i / width) * y_stride + i % width]
}

pub open spec fn strided_chroma_of(cs: Seq<u8>, width: int, c_stride: int) -> spec_fn(int) -> u8 {
    |i: int| cs[((i / width) / 2) * c_stride + (i % width) / 2]
}

/// Full output of the separate-planes fast path.
pub open spec fn bgra_separate_spec(ys: Seq<u8>, us: Seq<u8>, vs: Seq<u8>, pixels: int) -> Seq<u8> {
    bgra_raster_spec(pixels, linear_y_of(ys), quarter_chroma_of(us), quarter_chroma_of(vs))
}

/// Full output of the concatenated fast path, four bytes per pixel.
pub open spec fn bgra_packed_spec(yuv: Seq<u8>, pixels: int) -> Seq<u8> {
    bgra_raster_spec(pixels, linear_y_of(yuv), packed_u_of(yuv, pixels), packed_v_of(yuv, pixels))
}

/// Full output of the concatenated fast path, three bytes per pixel.
pub open spec fn bgr_packed_spec(yuv: Seq<u8>, pixels: int) -> Seq<u8> {
    bgr_raster_spec(pixels, linear_y_of(yuv), packed_u_of(yuv, pixels), packed_v_of(yuv, pixels))
}

/// Full output of the general strided converter for a `width` by `height`
/// frame.
pub open spec fn bgra_strided_spec(
    ys: Seq<u8>,
    us: Seq<u8>,
    vs: Seq<u8>,
    width: int,
    height: int,
    y_stride: int,
    u_stride: int,
    v_stride: int,
) -> Seq<u8> {
    bgra_raster_spec(
        width * height,
        strided_y_of(ys, width, y_stride),
        strided_chroma_of(us, width, u_stride),
        strided_chroma_of(vs, width, v_stride),
    )
}

/// Convert a frame held in three separate flat planes into packed BGRA with
/// an opaque alpha channel. The pixel count is taken from the output buffer
/// (four bytes per pixel); chroma is addressed by the linear pixel index
/// divided by four.
pub fn yuv_to_bgra_separate(
    y_pixels: &[u8],
    u_pixels: &[u8],
    v_pixels: &[u8],
    bgra_pixels: &mut Vec<u8>,
)
    requires
        old(bgra_pixels)@.len() / 4 <= y_pixels@.len(),
        old(bgra_pixels)@.len() / 4 > 0 ==> (old(bgra_pixels)@.len() / 4 - 1) / 4 < u_pixels@.len(),
        old(bgra_pixels)@.len() / 4 > 0 ==> (old(bgra_pixels)@.len() / 4 - 1) / 4 < v_pixels@.len(),
    ensures
        final(bgra_pixels)@ == bgra_separate_spec(
            y_pixels@,
            u_pixels@,
            v_pixels@,
            old(bgra_pixels)@.len() as int / 4,
        ) + old(bgra_pixels)@.skip(4 * (old(bgra_pixels)@.len() as int / 4)),
{
    let ghost out0 = bgra_pixels@;
    let ghost target = bgra_separate_spec(y_pixels@, u_pixels@, v_pixels@, out0.len() as int / 4);
    let n: usize = bgra_pixels.len();
    let pixels_count: usize = n / 4;

    let mut i: usize = 0;
    while i < pixels_count
        invariant
            n == out0.len(),
            pixels_count == out0.len() as int / 4,
            bgra_pixels@.len() == out0.len(),
            i <= pixels_count,
            pixels_count <= y_pixels@.len(),
            pixels_count > 0 ==> (pixels_count - 1) / 4 < u_pixels@.len(),
            pixels_count > 0 ==> (pixels_count - 1) / 4 < v_pixels@.len(),
            target == bgra_separate_spec(y_pixels@, u_pixels@, v_pixels@, pixels_count as int),
            forall|k: int| 0 <= k < 4 * i ==> bgra_pixels@[k] == target[k],
            forall|k: int| 4 * i <= k < out0.len() ==> bgra_pixels@[k] == out0[k],
        decreases pixels_count - i,
    {
        proof {
            lemma_div_is_ordered(i as int, pixels_count - 1, 4);
            vstd::arithmetic::div_mod::lemma_fundamental_div_mod(out0.len() as int, 4);
            assert(4 * pixels_count <= out0.len());
        }
        let (y, u, v) = (y_pixels[i], u_pixels[i / 4], v_pixels[i / 4]);

        let (b, g, r) = pixel_yuv_to_bgr(y, u, v);

        bgra_pixels[i * 4] = b;
        bgra_pixels[i * 4 + 1] = g;
        bgra_pixels[i * 4 + 2] = r;
        bgra_pixels[i * 4 + 3] = 255;

        proof {
            assert forall|k: int| 4 * i <= k < 4 * (i + 1) implies bgra_pixels@[k] == target[k] by {
                lemma_fundamental_div_mod_converse(k, 4, i as int, k - 4 * i);
            }
        }

        i = i + 1;
    }

    proof {
        assert(bgra_pixels@ =~= target + out0.skip(4 * (out0.len() as int / 4)));
    }
}

/// Convert a frame held in one flat buffer (luma plane, then the two chroma
/// planes) into packed BGR, three bytes per pixel. The pixel count is taken
/// from the output buffer; chroma is addressed by the linear pixel index
/// divided by four.
pub fn yuv_to_bgr(yuv_pixels: &[u8], bgr_pixels: &mut Vec<u8>)
    requires
        old(bgr_pixels)@.len() / 3 > 0 ==> old(bgr_pixels)@.len() / 3 + (old(bgr_pixels)@.len() / 3)
            / 4 + (old(bgr_pixels)@.len() / 3 - 1) / 4 < yuv_pixels@.len(),
    ensures
        final(bgr_pixels)@ == bgr_packed_spec(yuv_pixels@, old(bgr_pixels)@.len() as int / 3)
            + old(bgr_pixels)@.skip(3 * (old(bgr_pixels)@.len() as int / 3)),
{
    let ghost out0 = bgr_pixels@;
    let ghost target = bgr_packed_spec(yuv_pixels@, out0.len() as int / 3);
    let n: usize = bgr_pixels.len();
    let pixels_count: usize = n / 3;

    let mut i: usize = 0;
    while i < pixels_count
        invariant
            n == out0.len(),
            pixels_count == out0.len() as int / 3,
            bgr_pixels@.len() == out0.len(),
            i <= pixels_count,
            pixels_count > 0 ==> pixels_count + pixels_count / 4 + (pixels_count - 1) / 4
                < yuv_pixels@.len(),
            target == bgr_packed_spec(yuv_pixels@, pixels_count as int),
            forall|k: int| 0 <= k < 3 * i ==> bgr_pixels@[k] == target[k],
            forall|k: int| 3 * i <= k < out0.len() ==> bgr_pixels@[k] == out0[k],
        decreases pixels_count - i,
    {
        proof {
            lemma_div_is_ordered(i as int, pixels_count - 1, 4);
            vstd::arithmetic::div_mod::lemma_fundamental_div_mod(out0.len() as int, 3);
            assert(3 * pixels_count <= out0.len());
        }
        let (y, u, v) = (
            yuv_pixels[i],
            yuv_pixels[pixels_count + i / 4],
            yuv_pixels[pixels_count + pixels_count / 4 + i / 4],
        );

        let (b, g, r) = pixel_yuv_to_bgr(y, u, v);

        bgr_pixels[i * 3] = b;
        bgr_pixels[i * 3 + 1] = g;
        bgr_pixels[i * 3 + 2] = r;

        proof {
            assert forall|k: int| 3 * i <= k < 3 * (i + 1) implies bgr_pixels@[k] == target[k] by {
                lemma_fundamental_div_mod_converse(k, 3, i as int, k - 3 * i);
            }
        }

        i = i + 1;
    }

    proof {
        assert(bgr_pixels@ =~= target + out0.skip(3 * (out0.len() as int / 3)));
    }
}

/// Convert a frame held in one flat buffer (luma plane, then the two chroma
/// planes) into packed BGRA with an opaque alpha channel. The pixel count is
/// taken from the output buffer (four bytes per pixel); chroma is addressed
/// by the linear pixel index divided by four.
pub fn yuv_to_bgra(yuv_pixels: &[u8], bgra_pixels: &mut Vec<u8>)
    requires
        old(bgra_pixels)@.len() / 4 > 0 ==> old(bgra_pixels)@.len() / 4 + (old(
            bgra_pixels,
        )@.len() / 4) / 4 + (old(bgra_pixels)@.len() / 4 - 1) / 4 < yuv_pixels@.len(),
    ensures
        final(bgra_pixels)@ == bgra_packed_spec(yuv_pixels@, old(bgra_pixels)@.len() as int / 4)
            + old(bgra_pixels)@.skip(4 * (old(bgra_pixels)@.len() as int / 4)),
{
    let ghost out0 = bgra_pixels@;
    let ghost target = bgra_packed_spec(yuv_pixels@, out0.len() as int / 4);
    let n: usize = bgra_pixels.len();
    let pixels_count: usize = n / 4;

    let mut i: usize = 0;
    while i < pixels_count
        invariant
            n == out0.len(),
            pixels_count == out0.len() as int / 4,
            bgra_pixels@.len() == out0.len(),
            i <= pixels_count,
            pixels_count > 0 ==> pixels_count + pixels_count / 4 + (pixels_count - 1) / 4
                < yuv_pixels@.len(),
            target == bgra_packed_spec(yuv_pixels@, pixels_count as int),
            forall|k: int| 0 <= k < 4 * i ==> bgra_pixels@[k] == target[k],
            forall|k: int| 4 * i <= k < out0.len() ==> bgra_pixels@[k] == out0[k],
        decreases pixels_count - i,
    {
        proof {
            lemma_div_is_ordered(i as int, pixels_count - 1, 4);
            vstd::arithmetic::div_mod::lemma_fundamental_div_mod(out0.len() as int, 4);
            assert(4 * pixels_count <= out0.len());
        }
        let (y, u, v) = (
            yuv_pixels[i],
            yuv_pixels[pixels_count + i / 4],
            yuv_pixels[pixels_count + pixels_count / 4 + i / 4],
        );

        let (b, g, r) = pixel_yuv_to_bgr(y, u, v);

        bgra_pixels[i * 4] = b;
        bgra_pixels[i * 4 + 1] = g;
        bgra_pixels[i * 4 + 2] = r;
        bgra_pixels[i * 4 + 3] = 255;

        proof {
            assert forall|k: int| 4 * i <= k < 4 * (i + 1) implies bgra_pixels@[k] == target[k] by {
                lemma_fundamental_div_mod_converse(k, 4, i as int, k - 4 * i);
            }
        }

        i = i + 1;
    }

    proof {
        assert(bgra_pixels@ =~= target + out0.skip(4 * (out0.len() as int / 4)));
    }
}

/// Write one packed BGRA pixel, with an opaque alpha byte, at pixel index
/// `pixel_i` of the output raster.
fn write_bgra_pixel(out: &mut Vec<u8>, pixel_i: usize, b: u8, g: u8, r: u8)
    requires
        4 * pixel_i + 3 < old(out)@.len(),
    ensures
        final(out)@.len() == old(out)@.len(),
        final(out)@[4 * pixel_i] == b,
        final(out)@[4 * pixel_i + 1] == g,
        final(out)@[4 * pixel_i + 2] == r,
        final(out)@[4 * pixel_i + 3] == 255u8,
        forall|k: int|
            0 <= k < old(out)@.len() && !(4 * pixel_i <= k < 4 * pixel_i + 4) ==> final(out)@[k]
                == old(out)@[k],
{
    let n: usize = out.len();
    out[pixel_i * 4] = b;
    out[pixel_i * 4 + 1] = g;
    out[pixel_i * 4 + 2] = r;
    out[pixel_i * 4 + 3] = 255;
}

/// The four output bytes that `bgra_strided_spec` assigns to the pixel at
/// `(row, column)`, written over the sample positions of that pixel.
proof fn lemma_strided_target_bytes(
    ys: Seq<u8>,
    us: Seq<u8>,
    vs: Seq<u8>,
    width: int,
    height: int,
    y_stride: int,
    u_stride: int,
    v_stride: int,
    row: int,
    column: int,
)
    requires
        0 <= row < height,
        0 <= column < width,
    ensures
        0 <= row * width + column < width * height,
        ({
            let target = bgra_strided_spec(ys, us, vs, width, height, y_stride, u_stride, v_stride);
            let pi = row * width + column;
            let y = ys[row * y_stride + column];
            let u = us[(row / 2) * u_stride + column / 2];
            let v = vs[(row / 2) * v_stride + column / 2];
            target[4 * pi] == blue_spec(y, u) && target[4 * pi + 1] == green_spec(y, u, v)
                && target[4 * pi + 2] == red_spec(y, v) && target[4 * pi + 3] == 255u8
        }),
{
    let pi = row * width + column;
    lemma_mul_inequality(row, height - 1, width);
    assert((height - 1) * width + width == height * width) by (nonlinear_arith);
    assert(height * width == width * height) by (nonlinear_arith);
    assert(row * width >= 0) by (nonlinear_arith)
        requires
            row >= 0 && width >= 0,
    ;
    lemma_fundamental_div_mod_converse(pi, width, row, column);
    lemma_fundamental_div_mod_converse(4 * pi, 4, pi, 0);
    lemma_fundamental_div_mod_converse(4 * pi + 1, 4, pi, 1);
    lemma_fundamental_div_mod_converse(4 * pi + 2, 4, pi, 2);
    lemma_fundamental_div_mod_converse(4 * pi + 3, 4, pi, 3);
}

/// Convert a `width` by `height` frame held in three separate planes, each
/// with its own row stride, into packed BGRA with an opaque alpha channel.
/// This is the general converter: chroma is looked up by the 4:2:0 rule
/// `(row / 2, column / 2)`, so it is correct for every width and height and
/// for planes with row padding. The output raster itself is unstrided.
#[verifier::rlimit(100)]
pub fn yuv_to_bgra_strided_separate(
    y_pixels: &[u8],
    u_pixels: &[u8],
    v_pixels: &[u8],
    width: usize,
    height: usize,
    y_stride: usize,
    u_stride: usize,
    v_stride: usize,
    bgra_pixels: &mut Vec<u8>,
)
    requires
        4 * (width * height) <= old(bgra_pixels)@.len(),
        width > 0 && height > 0 ==> (height - 1) * y_stride + width <= y_pixels@.len(),
        width > 0 && height > 0 ==> ((height - 1) / 2) * u_stride + (width - 1) / 2
            < u_pixels@.len(),
        width > 0 && height > 0 ==> ((height - 1) / 2) * v_stride + (width - 1) / 2
            < v_pixels@.len(),
    ensures
        final(bgra_pixels)@ == bgra_strided_spec(
            y_pixels@,
            u_pixels@,
            v_pixels@,
            width as int,
            height as int,
            y_stride as int,
            u_stride as int,
            v_stride as int,
        ) + old(bgra_pixels)@.skip(4 * ((width * height) as int)),
{
    let ghost out0 = bgra_pixels@;
    let ghost target = bgra_strided_spec(
        y_pixels@,
        u_pixels@,
        v_pixels@,
        width as int,
        height as int,
        y_stride as int,
        u_stride as int,
        v_stride as int,
    );
    let n: usize = bgra_pixels.len();
    let y_len: usize = y_pixels.len();
    let u_len: usize = u_pixels.len();
    let v_len: usize = v_pixels.len();

    let mut row: usize = 0;
    while row < height
        invariant
            n == out0.len(),
            bgra_pixels@.len() == out0.len(),
            row <= height,
            4 * (width * height) <= n,
            y_len == y_pixels@.len(),
            u_len == u_pixels@.len(),
            v_len == v_pixels@.len(),
            width > 0 && height > 0 ==> (height - 1) * y_stride + width <= y_len,
            width > 0 && height > 0 ==> ((height - 1) / 2) * u_stride + (width - 1) / 2 < u_len,
            width > 0 && height > 0 ==> ((height - 1) / 2) * v_stride + (width - 1) / 2 < v_len,
            target == bgra_strided_spec(
                y_pixels@,
                u_pixels@,
                v_pixels@,
                width as int,
                height as int,
                y_stride as int,
                u_stride as int,
                v_stride as int,
            ),
            forall|k: int| 0 <= k < 4 * (row * width) ==> bgra_pixels@[k] == target[k],
            forall|k: int| 4 * (row * width) <= k < n ==> bgra_pixels@[k] == out0[k],
        decreases height - row,
    {
        let mut column: usize = 0;
        while column < width
            invariant
                n == out0.len(),
                bgra_pixels@.len() == out0.len(),
                row < height,
                column <= width,
                4 * (width * height) <= n,
                y_len == y_pixels@.len(),
                u_len == u_pixels@.len(),
                v_len == v_pixels@.len(),
                width > 0 && height > 0 ==> (height - 1) * y_stride + width <= y_len,
                width > 0 && height > 0 ==> ((height - 1) / 2) * u_stride + (width - 1) / 2
                    < u_len,
                width > 0 && height > 0 ==> ((height - 1) / 2) * v_stride + (width - 1) / 2
                    < v_len,
                target == bgra_strided_spec(
                    y_pixels@,
                    u_pixels@,
                    v_pixels@,
                    width as int,
                    height as int,
                    y_stride as int,
                    u_stride as int,
                    v_stride as int,
                ),
                forall|k: int| 0 <= k < 4 * (row * width + column) ==> bgra_pixels@[k]
                    == target[k],
                forall|k: int| 4 * (row * width + column) <= k < n ==> bgra_pixels@[k] == out0[k],
            decreases width - column,
        {
            proof {
                lemma_strided_target_bytes(
                    y_pixels@,
                    u_pixels@,
                    v_pixels@,
                    width as int,
                    height as int,
                    y_stride as int,
                    u_stride as int,
                    v_stride as int,
                    row as int,
                    column as int,
                );
                lemma_mul_inequality(row as int, height - 1, y_stride as int);
                lemma_div_is_ordered(row as int, height - 1, 2);
                lemma_div_is_ordered(column as int, width - 1, 2);
                lemma_mul_inequality(row as int / 2, (height - 1) as int / 2, u_stride as int);
                lemma_mul_inequality(row as int / 2, (height - 1) as int / 2, v_stride as int);
            }
            let chroma_row: usize = row / 2;
            let chroma_column: usize = column / 2;

            let y_i: usize = row * y_stride + column;
            let u_i: usize = chroma_row * u_stride + chroma_column;
            let v_i: usize = chroma_row * v_stride + chroma_column;
            let pixel_i: usize = row * width + column;

            let (y, u, v) = (y_pixels[y_i], u_pixels[u_i], v_pixels[v_i]);

            let (b, g, r) = pixel_yuv_to_bgr(y, u, v);

            write_bgra_pixel(bgra_pixels, pixel_i, b, g, r);

            proof {
                assert forall|k: int|
                    4 * (pixel_i as int) <= k < 4 * (pixel_i as int) + 4 implies bgra_pixels@[k]
                    == target[k] by {
                    assert(k == 4 * (pixel_i as int) || k == 4 * (pixel_i as int) + 1 || k == 4 * (
                    pixel_i as int) + 2 || k == 4 * (pixel_i as int) + 3);
                }
            }

            column = column + 1;
        }

        proof {
            assert(row * width + width == (row + 1) * width) by (nonlinear_arith);
        }

        row = row + 1;
    }

    proof {
        assert(height * width == width * height) by (nonlinear_arith);
        assert(bgra_pixels@ =~= target + out0.skip(4 * ((width * height) as int)));
    }
}

/// Every sample of the plane holds one and the same value.
pub open spec fn uniform_plane(s: Seq<u8>) -> bool {
    forall|i: int, j: int| 0 <= i < s.len() && 0 <= j < s.len() ==> s[i] == s[j]
}

/// Row and column of the pixel with linear index `i` in a `width` by
/// `height` grid.
proof fn lemma_pixel_coords(i: int, width: int, height: int)
    requires
        width > 0,
        0 <= i < width * height,
    ensures
        0 <= i / width < height,
        0 <= i % width < width,
        i == (i / width) * width + i % width,
{
    assert((width * height - 1) == (height - 1) * width + (width - 1)) by (nonlinear_arith);
    vstd::arithmetic::div_mod::lemma_fundamental_div_mod(i, width);
    vstd::arithmetic::div_mod::lemma_mod_bound(i, width);
    lemma_div_is_ordered(i, width * height - 1, width);
    lemma_fundamental_div_mod_converse(width * height - 1, width, height - 1, width - 1);
    assert(i / width >= 0) by {
        vstd::arithmetic::div_mod::lemma_div_is_ordered(0, i, width);
    }
    assert(i == (i / width) * width + i % width) by {
        assert(width * (i / width) == (i / width) * width) by (nonlinear_arith);
    }
}

/// The sample of a strided plane at row `r`, column `c`.
pub open spec fn plane_sample(s: Seq<u8>, stride: int, r: int, c: int) -> u8 {
    s[r * stride + c]
}

/// Stepping the numerator of a halving by two steps the quotient by one:
/// `(x + 1) / 2 == (x - 1) / 2 + 1`.
proof fn lemma_half_of_next(x: int)
    ensures
        (x + 1) / 2 == (x - 1) / 2 + 1,
{
    vstd::arithmetic::div_mod::lemma_fundamental_div_mod(x - 1, 2);
    vstd::arithmetic::div_mod::lemma_mod_bound(x - 1, 2);
    lemma_fundamental_div_mod_converse(x + 1, 2, (x - 1) / 2 + 1, (x - 1) % 2);
}

/// The alpha byte of every pixel of a four-byte raster is fully opaque,
/// whatever the frame layout and the input samples.
pub proof fn lemma_alpha_opaque(
    pixels: int,
    y_of: spec_fn(int) -> u8,
    u_of: spec_fn(int) -> u8,
    v_of: spec_fn(int) -> u8,
    i: int,
)
    requires
        0 <= i < pixels,
    ensures
        bgra_raster_spec(pixels, y_of, u_of, v_of)[4 * i + 3] == 255u8,
{
    lemma_fundamental_div_mod_converse(4 * i + 3, 4, i, 3);
}

/// On frames whose chroma planes are uniform, the fast path's linear chroma
/// lookup (pixel index divided by four) and the general 4:2:0 row/column
/// lookup read the same chroma value, so the separate-planes converter and
/// the strided converter with the tight strides `width` and
/// `(width + 1) / 2` produce byte-for-byte the same raster. On non-uniform
/// chroma the two lookups genuinely differ.
pub proof fn lemma_uniform_chroma_fast_path_exact(
    ys: Seq<u8>,
    us: Seq<u8>,
    vs: Seq<u8>,
    width: int,
    height: int,
)
    requires
        width > 0,
        height > 0,
        uniform_plane(us),
        uniform_plane(vs),
        (width * height - 1) / 4 < us.len(),
        (width * height - 1) / 4 < vs.len(),
        ((height - 1) / 2) * ((width + 1) / 2) + (width - 1) / 2 < us.len(),
        ((height - 1) / 2) * ((width + 1) / 2) + (width - 1) / 2 < vs.len(),
    ensures
        bgra_separate_spec(ys, us, vs, width * height) == bgra_strided_spec(
            ys,
            us,
            vs,
            width,
            height,
            width,
            (width + 1) / 2,
            (width + 1) / 2,
        ),
{
    let a = bgra_separate_spec(ys, us, vs, width * height);
    let b = bgra_strided_spec(ys, us, vs, width, height, width, (width + 1) / 2, (width + 1) / 2);
    let c_stride = (width + 1) / 2;
    assert forall|k: int| 0 <= k < 4 * (width * height) implies a[k] == b[k] by {
        let i = k / 4;
        vstd::arithmetic::div_mod::lemma_div_is_ordered(0, k, 4);
        lemma_div_is_ordered(k, 4 * (width * height) - 1, 4);
        lemma_fundamental_div_mod_converse(4 * (width * height) - 1, 4, width * height - 1, 3);
        lemma_pixel_coords(i, width, height);
        let r = i / width;
        let c = i % width;
        lemma_div_is_ordered(i, width * height - 1, 4);
        lemma_div_is_ordered(r, height - 1, 2);
        lemma_div_is_ordered(c, width - 1, 2);
        vstd::arithmetic::div_mod::lemma_div_is_ordered(0, r, 2);
        vstd::arithmetic::div_mod::lemma_div_is_ordered(0, c, 2);
        lemma_mul_inequality(r / 2, (height - 1) / 2, c_stride);
        assert((r / 2) * c_stride >= 0) by (nonlinear_arith)
            requires
                r / 2 >= 0 && c_stride >= 0,
        ;
        assert(us[i / 4] == us[(r / 2) * c_stride + c / 2]);
        assert(vs[i / 4] == vs[(r / 2) * c_stride + c / 2]);
    }
    assert(a =~= b);
}

/// Row padding is immaterial: two sets of planes that agree on every logical
/// sample position produce byte-for-byte the same raster, whatever each
/// plane's stride.
pub proof fn lemma_strides_immaterial(
    ys1: Seq<u8>,
    us1: Seq<u8>,
    vs1: Seq<u8>,
    ys2: Seq<u8>,
    us2: Seq<u8>,
    vs2: Seq<u8>,
    width: int,
    height: int,
    y_stride1: int,
    u_stride1: int,
    v_stride1: int,
    y_stride2: int,
    u_stride2: int,
    v_stride2: int,
)
    requires
        width > 0,
        height > 0,
        forall|r: int, c: int|
            0 <= r < height && 0 <= c < width ==> plane_sample(ys1, y_stride1, r, c)
                == plane_sample(ys2, y_stride2, r, c),
        forall|r: int, c: int|
            0 <= r < (height + 1) / 2 && 0 <= c < (width + 1) / 2 ==> plane_sample(
                us1,
                u_stride1,
                r,
                c,
            ) == plane_sample(us2, u_stride2, r, c),
        forall|r: int, c: int|
            0 <= r < (height + 1) / 2 && 0 <= c < (width + 1) / 2 ==> plane_sample(
                vs1,
                v_stride1,
                r,
                c,
            ) == plane_sample(vs2, v_stride2, r, c),
    ensures
        bgra_strided_spec(ys1, us1, vs1, width, height, y_stride1, u_stride1, v_stride1)
            == bgra_strided_spec(ys2, us2, vs2, width, height, y_stride2, u_stride2, v_stride2),
{
    let a = bgra_strided_spec(ys1, us1, vs1, width, height, y_stride1, u_stride1, v_stride1);
    let b = bgra_strided_spec(ys2, us2, vs2, width, height, y_stride2, u_stride2, v_stride2);
    assert forall|k: int| 0 <= k < 4 * (width * height) implies a[k] == b[k] by {
        let i = k / 4;
        lemma_div_is_ordered(k, 4 * (width * height) - 1, 4);
        lemma_fundamental_div_mod_converse(
            4 * (width * height) - 1,
            4,
            width * height - 1,
            3,
        );
        vstd::arithmetic::div_mod::lemma_div_is_ordered(0, k, 4);
        lemma_pixel_coords(i, width, height);
        let r = i / width;
        let c = i % width;
        lemma_div_is_ordered(r, height - 1, 2);
        lemma_div_is_ordered(c, width - 1, 2);
        assert(r / 2 < (height + 1) / 2 && c / 2 < (width + 1) / 2) by {
            lemma_half_of_next(height);
            lemma_half_of_next(width);
        }
        assert(plane_sample(ys1, y_stride1, r, c) == plane_sample(ys2, y_stride2, r, c));
        assert(plane_sample(us1, u_stride1, r / 2, c / 2) == plane_sample(
            us2,
            u_stride2,
            r / 2,
            c / 2,
        ));
        assert(plane_sample(vs1, v_stride1, r / 2, c / 2) == plane_sample(
            vs2,
            v_stride2,
            r / 2,
            c / 2,
        ));
    }
    assert(a =~= b);
}

} // verus!
