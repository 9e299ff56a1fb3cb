use icon_cache::bitmap::{normalize, RawBitmap};

#[test]
fn bgra_pixel_swaps_red_and_blue() {
    let bm = RawBitmap { width: 1, height: 1, stride: 4, pixels: vec![10, 20, 30, 40] };
    let img = normalize(&bm).ok().unwrap();
    assert_eq!(img.width, 1);
    assert_eq!(img.height, 1);
    assert_eq!(img.pixels, vec![30, 20, 10, 40]);
}

#[test]
fn bgr_pixel_gains_opaque_alpha() {
    let bm = RawBitmap { width: 1, height: 1, stride: 3, pixels: vec![10, 20, 30] };
    let img = normalize(&bm).ok().unwrap();
    assert_eq!(img.pixels, vec![30, 20, 10, 255]);
}

#[test]
fn two_bytes_per_pixel_is_unsupported() {
    let bm = RawBitmap { width: 1, height: 1, stride: 2, pixels: vec![1, 2] };
    assert!(normalize(&bm).is_err());
}

#[test]
fn zero_width_is_unsupported() {
    let bm = RawBitmap { width: 0, height: 1, stride: 4, pixels: vec![1, 2, 3, 4] };
    assert!(normalize(&bm).is_err());
}

#[test]
fn zero_height_is_unsupported() {
    let bm = RawBitmap { width: 1, height: 0, stride: 4, pixels: vec![] };
    assert!(normalize(&bm).is_err());
}

#[test]
fn buffer_length_mismatch_is_unsupported() {
    let bm = RawBitmap { width: 1, height: 1, stride: 4, pixels: vec![1, 2, 3] };
    assert!(normalize(&bm).is_err());
}

#[test]
fn padded_rows_are_unsupported() {
    // stride / width rounds to 3 bytes per pixel, but the buffer carries
    // one padding byte per row, so the length check rejects it
    let bm = RawBitmap { width: 4, height: 2, stride: 13, pixels: vec![0; 26] };
    assert!(normalize(&bm).is_err());
}

#[test]
fn multi_pixel_bgra_swaps_every_pixel() {
    let bm = RawBitmap {
        width: 2,
        height: 2,
        stride: 8,
        pixels: vec![1, 2, 3, 4, 5, 6, 7, 8, 9, 10, 11, 12, 13, 14, 15, 16],
    };
    let img = normalize(&bm).ok().unwrap();
    assert_eq!(
        img.pixels,
        vec![3, 2, 1, 4, 7, 6, 5, 8, 11, 10, 9, 12, 15, 14, 13, 16]
    );
}

#[test]
fn multi_pixel_bgr_expands_every_pixel() {
    let bm = RawBitmap { width: 2, height: 1, stride: 6, pixels: vec![1, 2, 3, 4, 5, 6] };
    let img = normalize(&bm).ok().unwrap();
    assert_eq!(img.pixels, vec![3, 2, 1, 255, 6, 5, 4, 255]);
}
