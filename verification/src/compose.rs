use vstd::prelude::*;

use crate::raster::byte_index;
use crate::raster::lemma_byte_index_bounds;
use crate::raster::lemma_byte_index_injective;
use crate::raster::Raster;

verus! {

/// Halving that rounds toward zero, as Rust's signed `/ 2` does.
pub open spec fn half_toward_zero(a: int) -> int {
    if a >= 0 {
        a / 2
    } else {
        -((-a) / 2)
    }
}

/// Top-left coordinate that centers a span of `inner` pixels within a span
/// of `outer` pixels; negative when `inner` is the larger.
pub open spec fn center_offset(outer: int, inner: int) -> int {
    half_toward_zero(outer - inner)
}

/// Channel `c` at `(x, y)` of the canvas obtained by laying `src` over
/// `base` with its top-left corner at `(ox, oy)`: a source pixel where one
/// lands there, the base pixel everywhere else.
pub open spec fn overlaid_byte(base: Raster, src: Raster, ox: int, oy: int, x: int, y: int, c: int) -> u8 {
    if ox <= x && x < ox + src.width && oy <= y && y < oy + src.height {
        src.byte_at(x - ox, y - oy, c)
    } else {
        base.byte_at(x, y, c)
    }
}

/// Two distinct in-bounds channel coordinates never share a flat position.
proof fn lemma_byte_index_distinct(width: int, x1: int, y1: int, c1: int, x2: int, y2: int, c2: int)
    requires
        0 <= x1 < width,
        0 <= x2 < width,
        0 <= c1 < 3,
        0 <= c2 < 3,
        0 <= y1,
        0 <= y2,
        x1 != x2 || y1 != y2 || c1 != c2,
    ensures
        byte_index(width, x1, y1, c1) != byte_index(width, x2, y2, c2),
{
    if byte_index(width, x1, y1, c1) == byte_index(width, x2, y2, c2) {
        lemma_byte_index_injective(width, x1, y1, c1, x2, y2, c2);
    }
}

/// Replaces the 3 channels of the canvas pixel at `(x, y)` with the source
/// pixel that lands there, leaving every other pixel unchanged.
fn copy_pixel(data: &mut Vec<u8>, w: u32, h: u32, src: &Raster, ox: i64, oy: i64, x: i64, y: i64)
    requires
        old(data)@.len() == w * h * 3,
        src.wf(),
        0 <= x < w,
        0 <= y < h,
        ox <= x < ox + src.width,
        oy <= y < oy + src.height,
    ensures
        final(data)@.len() == old(data)@.len(),
        forall|x2: int, y2: int, c2: int|
            0 <= x2 < w && 0 <= y2 < h && 0 <= c2 < 3 ==> final(data)@[byte_index(w as int, x2, y2, c2)]
                == (if x2 == x && y2 == y {
                    src.byte_at(x2 - ox, y2 - oy, c2)
                } else {
                    old(data)@[byte_index(w as int, x2, y2, c2)]
                }),
{
    let sx: u32 = (x - ox) as u32;
    let sy: u32 = (y - oy) as u32;
    let v0 = src.get_byte(sx, sy, 0);
    let v1 = src.get_byte(sx, sy, 1);
    let v2 = src.get_byte(sx, sy, 2);
    let n: usize = data.len();
    proof {
        lemma_byte_index_bounds(w as int, h as int, x as int, y as int, 0);
        lemma_byte_index_bounds(w as int, h as int, x as int, y as int, 2);
        assert(w * h * 3 == n);
    }
    let di: usize = ((y as usize) * (w as usize) + (x as usize)) * 3;
    data[di] = v0;
    data[di + 1] = v1;
    data[di + 2] = v2;
    proof {
        assert forall|x2: int, y2: int, c2: int|
            0 <= x2 < w && 0 <= y2 < h && 0 <= c2 < 3 implies data@[byte_index(w as int, x2, y2, c2)]
            == (if x2 == x && y2 == y {
                src.byte_at(x2 - ox, y2 - oy, c2)
            } else {
                old(data)@[byte_index(w as int, x2, y2, c2)]
            }) by {
            lemma_byte_index_bounds(w as int, h as int, x2, y2, c2);
            if x2 == x && y2 == y {
                if c2 != 0 {
                    lemma_byte_index_distinct(w as int, x2, y2, c2, x as int, y as int, 0);
                }
                if c2 != 1 {
                    lemma_byte_index_distinct(w as int, x2, y2, c2, x as int, y as int, 1);
                }
                if c2 != 2 {
                    lemma_byte_index_distinct(w as int, x2, y2, c2, x as int, y as int, 2);
                }
            } else {
                lemma_byte_index_distinct(w as int, x2, y2, c2, x as int, y as int, 0);
                lemma_byte_index_distinct(w as int, x2, y2, c2, x as int, y as int, 1);
                lemma_byte_index_distinct(w as int, x2, y2, c2, x as int, y as int, 2);
            }
        }
    }
}

/// Lays `src` over `base` with its top-left corner at `(ox, oy)`; any
/// source pixel whose destination falls outside the canvas is dropped.
pub fn overlay(base: Raster, src: &Raster, ox: i64, oy: i64) -> (r: Raster)
    requires
        base.wf(),
        src.wf(),
        ox + src.width <= i64::MAX,
        oy + src.height <= i64::MAX,
    ensures
        r.width == base.width,
        r.height == base.height,
        r.wf(),
        forall|x: int, y: int, c: int|
            0 <= x < r.width && 0 <= y < r.height && 0 <= c < 3 ==> r.byte_at(x, y, c)
                == overlaid_byte(base, *src, ox as int, oy as int, x, y, c),
{
    let ghost base0 = base;
    let w = base.width;
    let h = base.height;
    let mut data = base.data;
    let xs: i64 = if ox > 0 { ox } else { 0 };
    let ys: i64 = if oy > 0 { oy } else { 0 };
    let xe: i64 = {
        let t: i64 = ox + src.width as i64;
        if t < w as i64 { t } else { w as i64 }
    };
    let ye: i64 = {
        let t: i64 = oy + src.height as i64;
        if t < h as i64 { t } else { h as i64 }
    };
    if xs < xe && ys < ye {
        let mut j: i64 = ys;
        while j < ye
            invariant
                xs < xe,
                ys < ye,
                ys <= j <= ye,
                0 <= xs,
                0 <= ys,
                xe <= w,
                ye <= h,
                xs == (if ox > 0 { ox as int } else { 0 }),
                ys == (if oy > 0 { oy as int } else { 0 }),
                xe == (if ox + src.width < w { ox + src.width } else { w as int }),
                ye == (if oy + src.height < h { oy + src.height } else { h as int }),
                src.wf(),
                data@.len() == w * h * 3,
                base0.width == w,
                base0.height == h,
                base0.wf(),
                forall|x2: int, y2: int, c2: int|
                    0 <= x2 < w && 0 <= y2 < h && 0 <= c2 < 3 ==> data@[byte_index(
                        w as int,
                        x2,
                        y2,
                        c2,
                    )] == (if xs <= x2 < xe && ys <= y2 < j {
                        src.byte_at(x2 - ox, y2 - oy, c2)
                    } else {
                        base0.byte_at(x2, y2, c2)
                    }),
            decreases ye - j,
        {
            let mut i: i64 = xs;
            while i < xe
                invariant
                    xs < xe,
                    ys < ye,
                    xs <= i <= xe,
                    ys <= j < ye,
                    0 <= xs,
                    0 <= ys,
                    xe <= w,
                    ye <= h,
                    xs == (if ox > 0 { ox as int } else { 0 }),
                    ys == (if oy > 0 { oy as int } else { 0 }),
                    xe == (if ox + src.width < w { ox + src.width } else { w as int }),
                    ye == (if oy + src.height < h { oy + src.height } else { h as int }),
                    src.wf(),
                    data@.len() == w * h * 3,
                    base0.width == w,
                    base0.height == h,
                    base0.wf(),
                    forall|x2: int, y2: int, c2: int|
                        0 <= x2 < w && 0 <= y2 < h && 0 <= c2 < 3 ==> data@[byte_index(
                            w as int,
                            x2,
                            y2,
                            c2,
                        )] == (if (xs <= x2 < xe && ys <= y2 < j) || (y2 == j && xs <= x2 < i) {
                            src.byte_at(x2 - ox, y2 - oy, c2)
                        } else {
                            base0.byte_at(x2, y2, c2)
                        }),
                decreases xe - i,
            {
                copy_pixel(&mut data, w, h, src, ox, oy, i, j);
                i = i + 1;
            }
            j = j + 1;
        }
    }
    let r = Raster { width: w, height: h, data };
    proof {
        assert forall|x: int, y: int, c: int|
            0 <= x < r.width && 0 <= y < r.height && 0 <= c < 3 implies r.byte_at(x, y, c)
            == overlaid_byte(base0, *src, ox as int, oy as int, x, y, c) by {
            lemma_byte_index_bounds(w as int, h as int, x, y, c);
        }
    }
    r
}

/// Top-left coordinate that centers `inner` within `outer`, computed with
/// truncating signed division.
fn center_start(outer: u32, inner: u32) -> (r: i64)
    ensures
        r == center_offset(outer as int, inner as int),
        -(inner as int) <= r <= outer as int,
{
    let d: i64 = outer as i64 - inner as i64;
    if d >= 0 {
        ((d as u64) / 2) as i64
    } else {
        -((((-d) as u64) / 2) as i64)
    }
}

/// Channel `c` at `(x, y)` of the finished wallpaper: a blank canvas of
/// `dw` by `dh` pixels, the background centered on it, and the foreground
/// centered within the available rectangle (`aw` by `ah`, shifted by
/// `(ax, ay)`) on top; foreground pixels fully replace background pixels,
/// and uncovered pixels stay zero.
pub open spec fn composed_byte(
    background: Raster,
    foreground: Raster,
    dw: int,
    dh: int,
    aw: int,
    ah: int,
    ax: int,
    ay: int,
    x: int,
    y: int,
    c: int,
) -> u8 {
    let bx = center_offset(dw, background.width as int);
    let by = center_offset(dh, background.height as int);
    let fx = center_offset(aw, foreground.width as int) + ax;
    let fy = center_offset(ah, foreground.height as int) + ay;
    if fx <= x && x < fx + foreground.width && fy <= y && y < fy + foreground.height {
        foreground.byte_at(x - fx, y - fy, c)
    } else if bx <= x && x < bx + background.width && by <= y && y < by + background.height {
        background.byte_at(x - bx, y - by, c)
    } else {
        0u8
    }
}

/// Composes the wallpaper: a blank canvas of `display_geometry` pixels,
/// the background centered on it, and the foreground centered within the
/// available rectangle `[width, height, x offset, y offset]` on top.
/// Anything that falls outside the canvas is clipped away.
pub fn paste_images(
    background: &Raster,
    foreground: &Raster,
    display_geometry: [u32; 2],
    available_geometry: [u32; 4],
) -> (r: Raster)
    requires
        background.wf(),
        foreground.wf(),
        display_geometry@[0] * display_geometry@[1] * 3 <= usize::MAX,
    ensures
        r.width == display_geometry@[0],
        r.height == display_geometry@[1],
        r.wf(),
        forall|x: int, y: int, c: int|
            0 <= x < r.width && 0 <= y < r.height && 0 <= c < 3 ==> r.byte_at(x, y, c)
                == composed_byte(
                *background,
                *foreground,
                display_geometry@[0] as int,
                display_geometry@[1] as int,
                available_geometry@[0] as int,
                available_geometry@[1] as int,
                available_geometry@[2] as int,
                available_geometry@[3] as int,
                x,
                y,
                c,
            ),
{
    let dw = display_geometry[0];
    let dh = display_geometry[1];
    let canvas = Raster::blank(dw, dh);
    let ghost canvas0 = canvas;
    let bx = center_start(dw, background.width);
    let by = center_start(dh, background.height);
    let with_bg = overlay(canvas, background, bx, by);
    let fx = center_start(available_geometry[0], foreground.width) + available_geometry[2] as i64;
    let fy = center_start(available_geometry[1], foreground.height) + available_geometry[3] as i64;
    let r = overlay(with_bg, foreground, fx, fy);
    proof {
        assert forall|x: int, y: int, c: int|
            0 <= x < r.width && 0 <= y < r.height && 0 <= c < 3 implies r.byte_at(x, y, c)
            == composed_byte(
            *background,
            *foreground,
            display_geometry@[0] as int,
            display_geometry@[1] as int,
            available_geometry@[0] as int,
            available_geometry@[1] as int,
            available_geometry@[2] as int,
            available_geometry@[3] as int,
            x,
            y,
            c,
        ) by {
            lemma_byte_index_bounds(dw as int, dh as int, x, y, c);
            assert(r.byte_at(x, y, c) == overlaid_byte(with_bg, *foreground, fx as int, fy as int, x, y, c));
            assert(with_bg.byte_at(x, y, c) == overlaid_byte(canvas0, *background, bx as int, by as int, x, y, c));
            assert(canvas0.byte_at(x, y, c) == 0u8);
        }
    }
    r
}

} // verus!
