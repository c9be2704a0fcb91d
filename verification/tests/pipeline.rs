use album_wallpaper::fast_resize;
use album_wallpaper::image_background;
use album_wallpaper::paste_images;
use album_wallpaper::ImageError;
use album_wallpaper::Raster;

/// A raster filled with one color.
fn solid(width: u32, height: u32, rgb: [u8; 3]) -> Raster {
    let mut data = Vec::new();
    for _ in 0..width * height {
        data.extend_from_slice(&rgb);
    }
    Raster { width, height, data }
}

/// A checkerboard of 8x8 blocks alternating black and white.
fn checkerboard(width: u32, height: u32) -> Raster {
    let mut data = Vec::new();
    for y in 0..height {
        for x in 0..width {
            let v = if (x / 8 + y / 8) % 2 == 0 { 255u8 } else { 0u8 };
            data.extend_from_slice(&[v, v, v]);
        }
    }
    Raster { width, height, data }
}

fn empty() -> Raster {
    Raster { width: 0, height: 0, data: Vec::new() }
}

fn rgb_at(r: &Raster, x: u32, y: u32) -> [u8; 3] {
    [r.get_byte(x, y, 0), r.get_byte(x, y, 1), r.get_byte(x, y, 2)]
}

#[test]
fn from_parts_accepts_matching_buffer() {
    let r = Raster::from_parts(2, 3, vec![9u8; 18]).unwrap();
    assert_eq!(r.width, 2);
    assert_eq!(r.height, 3);
    assert_eq!(r.data.len(), 18);
}

#[test]
fn from_parts_rejects_bad_buffer() {
    let r = Raster::from_parts(2, 3, vec![9u8; 17]);
    assert_eq!(r.unwrap_err(), ImageError::PreconditionViolation);
}

#[test]
fn resize_output_dimensions() {
    let src = checkerboard(8, 8);
    let out = fast_resize(&src, 5, 7).unwrap();
    assert_eq!(out.width, 5);
    assert_eq!(out.height, 7);
    assert_eq!(out.data.len(), 5 * 7 * 3);
}

#[test]
fn resize_zero_dimension_rejected() {
    let src = solid(4, 4, [1, 2, 3]);
    assert_eq!(fast_resize(&src, 0, 5).unwrap_err(), ImageError::InvalidDimension);
    assert_eq!(fast_resize(&src, 5, 0).unwrap_err(), ImageError::InvalidDimension);
    assert_eq!(
        image_background(&src, [0, 5], None).unwrap_err(),
        ImageError::InvalidDimension
    );
}

#[test]
fn resize_to_own_size_reproduces_input() {
    let src = checkerboard(16, 16);
    let out = fast_resize(&src, 16, 16).unwrap();
    assert_eq!(out.data.len(), src.data.len());
    for i in 0..src.data.len() {
        let a = i64::from(src.data[i]);
        let b = i64::from(out.data[i]);
        assert!((a - b).abs() <= 2, "byte {i}: {a} vs {b}");
    }
}

#[test]
fn crop_keeps_center_of_wide_source() {
    // 9x3 source: the central 3 columns are red, the margins black. A 1:1
    // target crops the margins away symmetrically, so only red survives.
    let mut data = Vec::new();
    for _y in 0..3u32 {
        for x in 0..9u32 {
            if (3..6).contains(&x) {
                data.extend_from_slice(&[255, 0, 0]);
            } else {
                data.extend_from_slice(&[0, 0, 0]);
            }
        }
    }
    let src = Raster { width: 9, height: 3, data };
    let out = fast_resize(&src, 3, 3).unwrap();
    for y in 0..3 {
        for x in 0..3 {
            assert_eq!(rgb_at(&out, x, y), [255, 0, 0]);
        }
    }
}

#[test]
fn blur_dimensions_exact_when_not_divisible() {
    let src = checkerboard(32, 32);
    let out = image_background(&src, [101, 103], Some(32)).unwrap();
    assert_eq!(out.width, 101);
    assert_eq!(out.height, 103);
    assert_eq!(out.data.len(), 101 * 103 * 3);
}

#[test]
fn blur_changes_high_frequency_detail() {
    let src = checkerboard(64, 64);
    let plain = image_background(&src, [64, 64], None).unwrap();
    let soft = image_background(&src, [64, 64], Some(32)).unwrap();
    assert_eq!(plain.data.len(), soft.data.len());
    assert_ne!(plain.data, soft.data);
}

#[test]
fn blur_radius_changes_output() {
    // Radius 0 leaves the downscale-upscale path intact but blurs nothing,
    // so any difference comes from the blur itself.
    let src = checkerboard(64, 64);
    let sharp = image_background(&src, [64, 64], Some(0)).unwrap();
    let soft = image_background(&src, [64, 64], Some(32)).unwrap();
    assert_ne!(sharp.data, soft.data);
}

#[test]
fn blur_narrow_target_succeeds() {
    // A 4-wide target reduces to a 1-pixel-wide raster before blurring;
    // the blur radius is clamped to the small raster instead of panicking.
    let src = checkerboard(32, 32);
    let out = image_background(&src, [4, 400], Some(20)).unwrap();
    assert_eq!(out.width, 4);
    assert_eq!(out.height, 400);
    assert_eq!(out.data.len(), 4 * 400 * 3);

    let out = image_background(&src, [400, 4], Some(20)).unwrap();
    assert_eq!(out.width, 400);
    assert_eq!(out.height, 4);

    // an oversized radius on a small reduced raster is clamped too
    let out = image_background(&src, [8, 404], Some(4_000_000_000)).unwrap();
    assert_eq!(out.width, 8);
    assert_eq!(out.height, 404);
}

#[test]
fn blur_target_smaller_than_downscale_rejected() {
    let src = checkerboard(32, 32);
    assert_eq!(
        image_background(&src, [3, 100], Some(32)).unwrap_err(),
        ImageError::InvalidDimension
    );
    assert_eq!(
        image_background(&src, [100, 3], Some(32)).unwrap_err(),
        ImageError::InvalidDimension
    );
}

#[test]
fn paste_centers_background() {
    let bg = solid(50, 50, [200, 10, 30]);
    let fg = empty();
    let out = paste_images(&bg, &fg, [100, 100], [0, 0, 0, 0]);
    assert_eq!(out.width, 100);
    assert_eq!(out.height, 100);
    for y in 0..100 {
        for x in 0..100 {
            let expected = if (25..75).contains(&x) && (25..75).contains(&y) {
                [200, 10, 30]
            } else {
                [0, 0, 0]
            };
            assert_eq!(rgb_at(&out, x, y), expected, "pixel ({x}, {y})");
        }
    }
}

#[test]
fn paste_clips_oversized_background() {
    let bg = solid(200, 200, [7, 7, 7]);
    let fg = empty();
    let out = paste_images(&bg, &fg, [100, 100], [0, 0, 0, 0]);
    for y in 0..100 {
        for x in 0..100 {
            assert_eq!(rgb_at(&out, x, y), [7, 7, 7], "pixel ({x}, {y})");
        }
    }
}

#[test]
fn paste_offsets_foreground() {
    // Available rectangle 50x50 with its origin moved to (50, 50): a 10x10
    // foreground is centered at (50 - 10) / 2 + 50 = 70 on both axes.
    let bg = empty();
    let fg = solid(10, 10, [1, 2, 3]);
    let out = paste_images(&bg, &fg, [100, 100], [50, 50, 50, 50]);
    for y in 0..100 {
        for x in 0..100 {
            let expected = if (70..80).contains(&x) && (70..80).contains(&y) {
                [1, 2, 3]
            } else {
                [0, 0, 0]
            };
            assert_eq!(rgb_at(&out, x, y), expected, "pixel ({x}, {y})");
        }
    }
}

#[test]
fn paste_zero_display_is_empty() {
    let bg = solid(4, 4, [9, 9, 9]);
    let fg = empty();
    let out = paste_images(&bg, &fg, [0, 0], [0, 0, 0, 0]);
    assert_eq!(out.width, 0);
    assert_eq!(out.height, 0);
    assert_eq!(out.data.len(), 0);
}

#[test]
fn overlay_clips_negative_offset() {
    let base = Raster::blank(4, 4);
    let src = Raster {
        width: 2,
        height: 2,
        data: vec![10, 11, 12, 20, 21, 22, 30, 31, 32, 40, 41, 42],
    };
    let out = album_wallpaper::overlay(base, &src, -1, -1);
    // only the source's bottom-right pixel (1, 1) lands on the canvas, at (0, 0)
    assert_eq!(rgb_at(&out, 0, 0), [40, 41, 42]);
    assert_eq!(rgb_at(&out, 1, 0), [0, 0, 0]);
    assert_eq!(rgb_at(&out, 0, 1), [0, 0, 0]);
    assert_eq!(rgb_at(&out, 1, 1), [0, 0, 0]);
}
