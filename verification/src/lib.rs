//! Album-art wallpaper pipeline: crop-and-scale resizing, a
//! downscale-blur-upscale background effect, and integer-centered
//! compositing of a foreground raster onto a display-sized canvas.

mod background;
mod compose;
mod raster;
mod resize;

pub use background::image_background;
pub use compose::overlay;
pub use compose::paste_images;
pub use raster::ImageError;
pub use raster::Raster;
pub use resize::fast_resize;
pub use resize::MAX_DIMENSION;

