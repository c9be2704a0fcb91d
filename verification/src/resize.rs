use vstd::prelude::*;

use std::num::NonZeroU32;

use fast_image_resize::CropBox;
use fast_image_resize::FilterType;
use fast_image_resize::Image;
use fast_image_resize::PixelType;
use fast_image_resize::ResizeAlg;
use fast_image_resize::Resizer;

use crate::raster::ImageError;
use crate::raster::Raster;

verus! {

/// Largest width or height the resizer accepts. It keeps every pixel
/// count the resize call forms in 32 bits, including its internal
/// buffer of destination width by a band of source rows.
pub const MAX_DIMENSION: u32 = 0xFFFF;

/// Division rounded to the nearest integer, halves rounding up.
pub open spec fn rounded_div(a: int, b: int) -> int {
    (2 * a + b) / (2 * b)
}

pub open spec fn clamp_to(v: int, lo: int, hi: int) -> int {
    if v < lo {
        lo
    } else if v > hi {
        hi
    } else {
        v
    }
}

/// Width of the largest centered crop of an `sw` by `sh` source whose
/// aspect ratio matches `tw : th` to the nearest pixel (kept within
/// `[1, sw]`): full width when the source is the taller shape, otherwise
/// the height times the target ratio.
pub open spec fn crop_width(sw: int, sh: int, tw: int, th: int) -> int {
    if sw * th >= sh * tw {
        clamp_to(rounded_div(sh * tw, th), 1, sw)
    } else {
        sw
    }
}

/// Height of the largest centered crop, the counterpart of `crop_width`.
pub open spec fn crop_height(sw: int, sh: int, tw: int, th: int) -> int {
    if sw * th >= sh * tw {
        sh
    } else {
        clamp_to(rounded_div(sw * th, tw), 1, sh)
    }
}

/// Left edge of the centered crop: half the removed margin, an odd margin
/// leaving the extra pixel on the right.
pub open spec fn crop_left(sw: int, sh: int, tw: int, th: int) -> int {
    (sw - crop_width(sw, sh, tw, th)) / 2
}

/// Top edge of the centered crop, the counterpart of `crop_left`.
pub open spec fn crop_top(sw: int, sh: int, tw: int, th: int) -> int {
    (sh - crop_height(sw, sh, tw, th)) / 2
}

/// Computes the centered crop rectangle `(left, top, width, height)` of an
/// `sw` by `sh` source for a `tw : th` target aspect ratio.
fn crop_box(sw: u32, sh: u32, tw: u32, th: u32) -> (r: (u32, u32, u32, u32))
    requires
        1 <= sw,
        1 <= sh,
        1 <= tw,
        1 <= th,
    ensures
        r.0 == crop_left(sw as int, sh as int, tw as int, th as int),
        r.1 == crop_top(sw as int, sh as int, tw as int, th as int),
        r.2 == crop_width(sw as int, sh as int, tw as int, th as int),
        r.3 == crop_height(sw as int, sh as int, tw as int, th as int),
        1 <= r.2 <= sw,
        1 <= r.3 <= sh,
        r.0 + r.2 <= sw,
        r.1 + r.3 <= sh,
{
    proof {
        assert(2 * ((sw as int) * (th as int)) + tw < u128::MAX && 2 * ((sh as int) * (tw as int))
            + th < u128::MAX && (sw as int) * (th as int) < u64::MAX && (sh as int) * (tw as int)
            < u64::MAX) by (nonlinear_arith)
            requires
                sw <= u32::MAX,
                sh <= u32::MAX,
                tw <= u32::MAX,
                th <= u32::MAX,
        ;
    }
    if (sw as u64) * (th as u64) >= (sh as u64) * (tw as u64) {
        let cw128: u128 = (2 * ((sh as u128) * (tw as u128)) + (th as u128)) / (2 * (th as u128));
        let cw: u32 = if cw128 < 1 {
            1
        } else if cw128 > (sw as u128) {
            sw
        } else {
            cw128 as u32
        };
        let left = (sw - cw) / 2;
        (left, 0, cw, sh)
    } else {
        let ch128: u128 = (2 * ((sw as u128) * (th as u128)) + (tw as u128)) / (2 * (tw as u128));
        let ch: u32 = if ch128 < 1 {
            1
        } else if ch128 > (sh as u128) {
            sh
        } else {
            ch128 as u32
        };
        let top = (sh - ch) / 2;
        (0, top, sw, ch)
    }
}

/// What fast_image_resize's Lanczos3 convolution returns for the crop
/// `(left, top, cw, ch)` of an `sw` by `sh` source resampled to `dw` by
/// `dh`: a fixed function of the pixel data and the geometry alone.
pub uninterp spec fn lanczos3_resampled(
    src: Seq<u8>,
    sw: int,
    sh: int,
    left: int,
    top: int,
    cw: int,
    ch: int,
    dw: int,
    dh: int,
) -> Seq<u8>;

/// The source cropped to the target aspect ratio (centered) and resampled
/// to `dw` by `dh`.
pub open spec fn resized(src: Seq<u8>, sw: int, sh: int, dw: int, dh: int) -> Seq<u8> {
    lanczos3_resampled(
        src,
        sw,
        sh,
        crop_left(sw, sh, dw, dh),
        crop_top(sw, sh, dw, dh),
        crop_width(sw, sh, dw, dh),
        crop_height(sw, sh, dw, dh),
        dw,
        dh,
    )
}

/// Relies on fast_image_resize: `Image::from_vec_u8` wraps the source
/// bytes as U8x3 pixels, `set_crop_box` restricts the view to the given
/// rectangle, and a `Resizer` running
/// `ResizeAlg::Convolution(FilterType::Lanczos3)` fills a `dw` by `dh`
/// destination image, whose `dw * dh * 3`-byte buffer `into_vec` hands
/// back. The crate holds its resampling to the same checksums under every
/// CPU feature set, so the result is taken as a function of the arguments.
#[verifier::external_body]
fn resize_lanczos3(
    src: &Vec<u8>,
    sw: u32,
    sh: u32,
    left: u32,
    top: u32,
    cw: u32,
    ch: u32,
    dw: u32,
    dh: u32,
) -> (r: Vec<u8>)
    requires
        src@.len() == sw * sh * 3,
        1 <= sw,
        1 <= sh,
        1 <= cw,
        1 <= ch,
        1 <= dw,
        1 <= dh,
        left + cw <= sw,
        top + ch <= sh,
        sw <= MAX_DIMENSION,
        sh <= MAX_DIMENSION,
        dw <= MAX_DIMENSION,
        dh <= MAX_DIMENSION,
    ensures
        r@.len() == dw * dh * 3,
        r@ == lanczos3_resampled(
            src@,
            sw as int,
            sh as int,
            left as int,
            top as int,
            cw as int,
            ch as int,
            dw as int,
            dh as int,
        ),
{
    let nz = |v: u32| NonZeroU32::new(v).unwrap();
    let src_image = Image::from_vec_u8(nz(sw), nz(sh), src.clone(), PixelType::U8x3).unwrap();
    let mut src_view = src_image.view();
    src_view.set_crop_box(CropBox { left, top, width: nz(cw), height: nz(ch) }).unwrap();
    let mut dst_image = Image::new(nz(dw), nz(dh), PixelType::U8x3);
    let mut dst_view = dst_image.view_mut();
    let mut resizer = Resizer::new(ResizeAlg::Convolution(FilterType::Lanczos3));
    resizer.resize(&src_view, &mut dst_view).unwrap();
    dst_image.into_vec()
}

/// The centered crop splits the removed margin evenly between the two
/// sides of an axis: the right (or bottom) margin equals the left (or
/// top) margin, or exceeds it by one pixel when the margin is odd, the
/// tie going toward the lower-index edge.
pub proof fn lemma_crop_margins_centered(sw: int, sh: int, tw: int, th: int)
    requires
        1 <= sw,
        1 <= sh,
        1 <= tw,
        1 <= th,
    ensures
        crop_left(sw, sh, tw, th) <= sw - crop_width(sw, sh, tw, th) - crop_left(sw, sh, tw, th)
            <= crop_left(sw, sh, tw, th) + 1,
        crop_top(sw, sh, tw, th) <= sh - crop_height(sw, sh, tw, th) - crop_top(sw, sh, tw, th)
            <= crop_top(sw, sh, tw, th) + 1,
{
    assert(crop_width(sw, sh, tw, th) <= sw);
    assert(crop_height(sw, sh, tw, th) <= sh);
}

/// Crops the source to the target aspect ratio (centered, the largest
/// such rectangle) and scales the crop to exactly `nwidth` by `nheight`
/// with Lanczos3 resampling; rejects a zero target dimension.
pub fn fast_resize(img: &Raster, nwidth: u32, nheight: u32) -> (r: Result<Raster, ImageError>)
    requires
        img.wf(),
        1 <= img.width,
        1 <= img.height,
        img.width <= MAX_DIMENSION,
        img.height <= MAX_DIMENSION,
        nwidth <= MAX_DIMENSION,
        nheight <= MAX_DIMENSION,
    ensures
        r is Ok <==> 1 <= nwidth && 1 <= nheight,
        r matches Ok(out) ==> out.width == nwidth && out.height == nheight && out.wf()
            && out.data@ == resized(
            img.data@,
            img.width as int,
            img.height as int,
            nwidth as int,
            nheight as int,
        ),
        r matches Err(e) ==> e == ImageError::InvalidDimension,
{
    if nwidth == 0 || nheight == 0 {
        return Err(ImageError::InvalidDimension);
    }
    let (left, top, cw, ch) = crop_box(img.width, img.height, nwidth, nheight);
    let data = resize_lanczos3(&img.data, img.width, img.height, left, top, cw, ch, nwidth, nheight);
    Ok(Raster { width: nwidth, height: nheight, data })
}

} // verus!
