use remotia_ffmpeg_codecs::{pixel, raster};

/// Neutral chroma (both samples at 128) reproduces the luma sample exactly
/// on every channel.
#[test]
fn neutral_chroma_is_grayscale() {
    for y in [0u8, 1, 41, 100, 127, 128, 200, 254, 255] {
        assert_eq!(pixel::yuv_to_bgr(y, 128, 128), (y, y, y));
    }
}

/// The reference sample triple pins the truncating, saturating arithmetic.
#[test]
fn pixel_reference_values() {
    assert_eq!(pixel::yuv_to_bgr(100, 15, 10), (0, 223, 0));
    // Saturation above 255 on the blue channel.
    assert_eq!(pixel::yuv_to_bgr(255, 255, 128).0, 255);
    // Truncation towards zero, not rounding.
    assert_eq!(pixel::yuv_to_bgr(41, 96, 116), (0, 60, 24));
}

/// Exact bytes of the three-byte concatenated fast path.
#[test]
fn bgr_packed_exact_bytes() {
    let input: Vec<u8> = vec![41, 0, 191, 79, 96, 116];
    let mut output: Vec<u8> = vec![0; 12];
    raster::yuv_to_bgr(&input, &mut output);
    assert_eq!(output, vec![0, 60, 24, 0, 19, 0, 134, 210, 174, 22, 98, 62]);
}

/// Exact bytes of the four-byte concatenated fast path, and leftover output
/// bytes beyond the last whole pixel stay untouched.
#[test]
fn bgra_packed_exact_bytes_and_tail() {
    let input: Vec<u8> = vec![41, 0, 191, 79, 96, 116];
    let mut output: Vec<u8> = vec![9; 18];
    raster::yuv_to_bgra(&input, &mut output);
    assert_eq!(
        output,
        vec![0, 60, 24, 255, 0, 19, 0, 255, 134, 210, 174, 255, 22, 98, 62, 255, 9, 9]
    );
}

/// A single-pixel frame: width and height of one work, with the chroma
/// sample at row zero, column zero.
#[test]
fn strided_one_by_one() {
    let y = vec![100u8];
    let u = vec![15u8];
    let v = vec![10u8];
    let mut output: Vec<u8> = vec![0; 4];
    raster::yuv_to_bgra_strided_separate(&y, &u, &v, 1, 1, 1, 1, 1, &mut output);
    assert_eq!(output, vec![0, 223, 0, 255]);
}

/// A one-column frame: every pixel's chroma column is zero.
#[test]
fn strided_one_column() {
    let y = vec![10u8, 20, 30];
    let u = vec![128u8, 128];
    let v = vec![128u8, 128];
    let mut output: Vec<u8> = vec![0; 12];
    raster::yuv_to_bgra_strided_separate(&y, &u, &v, 1, 3, 1, 1, 1, &mut output);
    assert_eq!(output, vec![10, 10, 10, 255, 20, 20, 20, 255, 30, 30, 30, 255]);
}

/// A one-row frame: every pixel's chroma row is zero.
#[test]
fn strided_one_row() {
    let y = vec![10u8, 20, 30];
    let u = vec![128u8, 128];
    let v = vec![128u8, 128];
    let mut output: Vec<u8> = vec![0; 12];
    raster::yuv_to_bgra_strided_separate(&y, &u, &v, 3, 1, 3, 2, 2, &mut output);
    assert_eq!(output, vec![10, 10, 10, 255, 20, 20, 20, 255, 30, 30, 30, 255]);
}

fn varied_planes(
    width: usize,
    height: usize,
    y_stride: usize,
    u_stride: usize,
    v_stride: usize,
) -> (Vec<u8>, Vec<u8>, Vec<u8>) {
    let chroma_w = (width + 1) / 2;
    let chroma_h = (height + 1) / 2;
    let mut y_data = vec![0u8; height * y_stride];
    for r in 0..height {
        for c in 0..width {
            y_data[r * y_stride + c] = ((r * 31 + c * 7) % 256) as u8;
        }
    }
    let mut u_data = vec![0u8; chroma_h * u_stride];
    let mut v_data = vec![0u8; chroma_h * v_stride];
    for r in 0..chroma_h {
        for c in 0..chroma_w {
            u_data[r * u_stride + c] = ((r * 13 + c * 5 + 3) % 256) as u8;
            v_data[r * v_stride + c] = ((r * 17 + c * 11 + 90) % 256) as u8;
        }
    }
    (y_data, u_data, v_data)
}

/// Row padding is immaterial: a padded frame and its tightly packed copy
/// convert to the same raster, sample for sample, on non-uniform data.
#[test]
fn strided_padding_is_immaterial() {
    let (width, height) = (6, 4);
    let (y_pad, u_pad, v_pad) = varied_planes(width, height, 9, 5, 7);
    let (y_tight, u_tight, v_tight) = varied_planes(width, height, 6, 3, 3);

    let mut padded: Vec<u8> = vec![0; width * height * 4];
    raster::yuv_to_bgra_strided_separate(&y_pad, &u_pad, &v_pad, width, height, 9, 5, 7, &mut padded);

    let mut tight: Vec<u8> = vec![0; width * height * 4];
    raster::yuv_to_bgra_strided_separate(
        &y_tight, &u_tight, &v_tight, width, height, 6, 3, 3, &mut tight,
    );

    assert_eq!(padded, tight);
}

/// A hardware-decoder sized frame: 1280 by 720 with strides 1344/672/672
/// converts and matches the conversion of the unpadded copy.
#[test]
fn strided_hardware_geometry_matches_unpadded() {
    let (width, height) = (1280, 720);
    let (y_pad, u_pad, v_pad) = varied_planes(width, height, 1344, 672, 672);
    let (y_tight, u_tight, v_tight) = varied_planes(width, height, 1280, 640, 640);

    let mut padded: Vec<u8> = vec![0; width * height * 4];
    raster::yuv_to_bgra_strided_separate(
        &y_pad, &u_pad, &v_pad, width, height, 1344, 672, 672, &mut padded,
    );

    let mut tight: Vec<u8> = vec![0; width * height * 4];
    raster::yuv_to_bgra_strided_separate(
        &y_tight, &u_tight, &v_tight, width, height, 1280, 640, 640, &mut tight,
    );

    assert_eq!(padded, tight);
}

/// On uniform chroma the fast path's linear chroma lookup agrees with the
/// general converter at the tight strides, even for non-uniform luma.
#[test]
fn uniform_chroma_fast_path_matches_strided() {
    let (width, height) = (6, 4);
    let mut y_data = vec![0u8; width * height];
    for (i, y) in y_data.iter_mut().enumerate() {
        *y = ((i * 37 + 11) % 256) as u8;
    }
    let u_data = vec![77u8; width * height];
    let v_data = vec![140u8; width * height];

    let mut fast: Vec<u8> = vec![0; width * height * 4];
    raster::yuv_to_bgra_separate(&y_data, &u_data, &v_data, &mut fast);

    let mut general: Vec<u8> = vec![0; width * height * 4];
    raster::yuv_to_bgra_strided_separate(
        &y_data, &u_data, &v_data, width, height, width, 3, 3, &mut general,
    );

    assert_eq!(fast, general);
}

/// Every fourth output byte of the four-byte converters is fully opaque,
/// whatever the input samples.
#[test]
fn alpha_always_opaque() {
    let (width, height) = (6, 4);
    let (y_data, u_data, v_data) = varied_planes(width, height, 6, 3, 3);
    let mut output: Vec<u8> = vec![0; width * height * 4];
    raster::yuv_to_bgra_strided_separate(
        &y_data, &u_data, &v_data, width, height, 6, 3, 3, &mut output,
    );
    for i in 0..width * height {
        assert_eq!(output[i * 4 + 3], 255);
    }

    let mut separate: Vec<u8> = vec![0; width * height * 4];
    raster::yuv_to_bgra_separate(&y_data, &u_data, &v_data, &mut separate);
    for i in 0..width * height {
        assert_eq!(separate[i * 4 + 3], 255);
    }
}
