use vstd::prelude::*;

use crate::raster::ImageError;
use crate::raster::Raster;
use crate::resize::fast_resize;
use crate::resize::resized;

verus! {

/// Fixed factor by which the background is downscaled before blurring, so
/// the blur runs on far fewer pixels; the upscale restores the target size.
pub const BLUR_DOWNSCALE: u32 = 4;

/// Largest radius the blur stage ever hands to the blur call: far beyond
/// any useful softening, and small enough that the call's f32 box-size
/// computation stays exact to within a pixel.
pub const MAX_BLUR_RADIUS: u32 = 0x0010_0000;

/// What fastblur's gaussian_blur returns for a `width` by `height` raster
/// and the given radius: a fixed function of the pixel data and geometry.
pub uninterp spec fn gauss_blurred(data: Seq<u8>, width: int, height: int, radius: int) -> Seq<u8>;

/// Relies on fastblur::gaussian_blur: a three-pass box-blur approximation
/// of a Gaussian, applied in place; the pixel count is unchanged. The
/// radius is handed over as the sigma of the Gaussian. Its sliding boxes
/// reach a radius of `radius + 1`, and a box that spans past a row makes
/// the call's margin arithmetic underflow, so the bounds below keep every
/// box radius within both dimensions; the `MAX_BLUR_RADIUS` cap keeps the
/// f32 box-size computation from straying past that `radius + 1` bound.
#[verifier::external_body]
fn gaussian_blur_raster(data: &Vec<u8>, width: u32, height: u32, radius: u32) -> (r: Vec<u8>)
    requires
        data@.len() == width * height * 3,
        1 <= width,
        1 <= height,
        radius + 1 <= width,
        radius + 1 <= height,
        radius <= MAX_BLUR_RADIUS,
    ensures
        r@.len() == data@.len(),
        r@ == gauss_blurred(data@, width as int, height as int, radius as int),
{
    let mut pixels: Vec<[u8; 3]> = data.chunks_exact(3).map(|p| p.try_into().unwrap()).collect();
    fastblur::gaussian_blur(&mut pixels, width as usize, height as usize, radius as _);
    pixels.into_iter().flatten().collect()
}

/// The radius applied at reduced resolution: the requested radius scaled
/// down by `BLUR_DOWNSCALE` (truncating), then clamped so the blur's
/// sliding boxes stay within an `rw` by `rh` raster and under the cap.
pub open spec fn effective_blur_radius(rw: int, rh: int, radius: int) -> int {
    vstd::math::min(
        vstd::math::min(radius / (BLUR_DOWNSCALE as int), MAX_BLUR_RADIUS as int),
        vstd::math::min(rw - 1, rh - 1),
    )
}

/// The blurred background: the source scaled down to a
/// `BLUR_DOWNSCALE`th of the target on each axis (truncating), blurred
/// there with the radius reduced by the same factor (and clamped to the
/// small raster), and scaled back up to the exact target size.
pub open spec fn blurred_background(
    src: Seq<u8>,
    sw: int,
    sh: int,
    dw: int,
    dh: int,
    radius: int,
) -> Seq<u8> {
    let rw = dw / (BLUR_DOWNSCALE as int);
    let rh = dh / (BLUR_DOWNSCALE as int);
    resized(
        gauss_blurred(resized(src, sw, sh, rw, rh), rw, rh, effective_blur_radius(rw, rh, radius)),
        rw,
        rh,
        dw,
        dh,
    )
}

/// Scales the source down by `BLUR_DOWNSCALE`, blurs the small raster, and
/// scales it back up to exactly `nwidth` by `nheight`; rejects a target
/// too small for the downscale to leave any pixels.
fn add_blur(image: &Raster, nwidth: u32, nheight: u32, blur_radius: u32) -> (r: Result<
    Raster,
    ImageError,
>)
    requires
        image.wf(),
        1 <= image.width,
        1 <= image.height,
        image.width <= crate::resize::MAX_DIMENSION,
        image.height <= crate::resize::MAX_DIMENSION,
        nwidth <= crate::resize::MAX_DIMENSION,
        nheight <= crate::resize::MAX_DIMENSION,
    ensures
        r is Ok <==> BLUR_DOWNSCALE <= nwidth && BLUR_DOWNSCALE <= nheight,
        r matches Ok(out) ==> out.width == nwidth && out.height == nheight && out.wf()
            && out.data@ == blurred_background(
            image.data@,
            image.width as int,
            image.height as int,
            nwidth as int,
            nheight as int,
            blur_radius as int,
        ),
        r matches Err(e) ==> e == ImageError::InvalidDimension,
{
    let scaled_width = nwidth / BLUR_DOWNSCALE;
    let scaled_height = nheight / BLUR_DOWNSCALE;
    let downscaled = match fast_resize(image, scaled_width, scaled_height) {
        Ok(img) => img,
        Err(e) => {
            return Err(e);
        },
    };
    let mut radius: u32 = blur_radius / BLUR_DOWNSCALE;
    if radius > MAX_BLUR_RADIUS {
        radius = MAX_BLUR_RADIUS;
    }
    if radius > scaled_width - 1 {
        radius = scaled_width - 1;
    }
    if radius > scaled_height - 1 {
        radius = scaled_height - 1;
    }
    let blurred_data = gaussian_blur_raster(&downscaled.data, scaled_width, scaled_height, radius);
    let blurred = Raster { width: scaled_width, height: scaled_height, data: blurred_data };
    fast_resize(&blurred, nwidth, nheight)
}

/// Produces the display-sized background: a plain crop-and-scale of the
/// source when no blur radius is given, the downscale-blur-upscale
/// pipeline when one is.
pub fn image_background(
    background: &Raster,
    display_geometry: [u32; 2],
    blur_radius: Option<u32>,
) -> (r: Result<Raster, ImageError>)
    requires
        background.wf(),
        1 <= background.width,
        1 <= background.height,
        background.width <= crate::resize::MAX_DIMENSION,
        background.height <= crate::resize::MAX_DIMENSION,
        display_geometry@[0] <= crate::resize::MAX_DIMENSION,
        display_geometry@[1] <= crate::resize::MAX_DIMENSION,
    ensures
        r is Ok <==> (match blur_radius {
            None => 1 <= display_geometry@[0] && 1 <= display_geometry@[1],
            Some(_) => BLUR_DOWNSCALE <= display_geometry@[0] && BLUR_DOWNSCALE
                <= display_geometry@[1],
        }),
        r matches Ok(out) ==> out.width == display_geometry@[0] && out.height
            == display_geometry@[1] && out.wf() && out.data@ == (match blur_radius {
            None => resized(
                background.data@,
                background.width as int,
                background.height as int,
                display_geometry@[0] as int,
                display_geometry@[1] as int,
            ),
            Some(radius) => blurred_background(
                background.data@,
                background.width as int,
                background.height as int,
                display_geometry@[0] as int,
                display_geometry@[1] as int,
                radius as int,
            ),
        }),
        r matches Err(e) ==> e == ImageError::InvalidDimension,
{
    match blur_radius {
        Some(blur) => add_blur(background, display_geometry[0], display_geometry[1], blur),
        None => fast_resize(background, display_geometry[0], display_geometry[1]),
    }
}

} // verus!
