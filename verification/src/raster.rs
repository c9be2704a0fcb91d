use vstd::prelude::*;

verus! {

/// Failure modes of the transformation pipeline.
#[derive(Clone, Copy, Debug, PartialEq, Eq, Structural)]
pub enum ImageError {
    /// A requested target width or height is zero.
    InvalidDimension,
    /// A raster buffer disagrees with its declared `width * height * 3`
    /// length: an upstream decode bug, not a user error.
    PreconditionViolation,
}

/// A 3-channel (red, green, blue, 8 bits each) raster image, stored
/// row-major with 3 bytes per pixel and no padding.
#[derive(Debug)]
pub struct Raster {
    pub width: u32,
    pub height: u32,
    pub data: Vec<u8>,
}

/// Flat position of channel `c` of the pixel at column `x`, row `y` in a
/// row-major buffer with 3 bytes per pixel and row length `width`.
pub open spec fn byte_index(width: int, x: int, y: int, c: int) -> int {
    (y * width + x) * 3 + c
}

impl Raster {
    /// The buffer holds exactly `width * height` pixels of 3 bytes each.
    pub open spec fn wf(self) -> bool {
        self.data@.len() == self.width * self.height * 3
    }

    /// Channel `c` of the pixel at `(x, y)`.
    pub open spec fn byte_at(self, x: int, y: int, c: int) -> u8 {
        self.data@[byte_index(self.width as int, x, y, c)]
    }

    /// Builds a raster from a decoded buffer, rejecting a buffer whose
    /// length disagrees with the declared dimensions.
    pub fn from_parts(width: u32, height: u32, data: Vec<u8>) -> (r: Result<Raster, ImageError>)
        ensures
            r matches Ok(img) ==> img.width == width && img.height == height
                && img.data@ == data@ && img.wf(),
            r matches Err(e) ==> e == ImageError::PreconditionViolation,
            r is Ok <==> data@.len() == width * height * 3,
    {
        proof {
            assert(width * height * 3 < u128::MAX) by (nonlinear_arith)
                requires
                    width <= u32::MAX,
                    height <= u32::MAX,
            ;
        }
        if data.len() as u128 == width as u128 * height as u128 * 3 {
            Ok(Raster { width, height, data })
        } else {
            Err(ImageError::PreconditionViolation)
        }
    }

    /// A zero-filled canvas of the given dimensions.
    pub fn blank(width: u32, height: u32) -> (r: Raster)
        requires
            width * height * 3 <= usize::MAX,
        ensures
            r.width == width,
            r.height == height,
            r.wf(),
            forall|i: int| 0 <= i < r.data@.len() ==> r.data@[i] == 0u8,
    {
        let n: usize = (width as usize) * (height as usize) * 3;
        let mut data: Vec<u8> = Vec::new();
        while data.len() < n
            invariant
                data@.len() <= n,
                forall|i: int| 0 <= i < data@.len() ==> data@[i] == 0u8,
            decreases n - data@.len(),
        {
            data.push(0u8);
        }
        Raster { width, height, data }
    }

    /// Channel `c` of the pixel at `(x, y)`, read from the buffer.
    pub fn get_byte(&self, x: u32, y: u32, c: u32) -> (b: u8)
        requires
            self.wf(),
            x < self.width,
            y < self.height,
            c < 3,
        ensures
            b == self.byte_at(x as int, y as int, c as int),
    {
        let len: usize = self.data.len();
        proof {
            lemma_byte_index_bounds(self.width as int, self.height as int, x as int, y as int, c as int);
            assert(self.width * self.height * 3 == len);
        }
        let idx: usize = ((y as usize) * (self.width as usize) + (x as usize)) * 3 + (c as usize);
        self.data[idx]
    }
}

/// The flat position of an in-bounds channel lies within the buffer, and
/// its pixel number lies below `width * height`.
pub proof fn lemma_byte_index_bounds(width: int, height: int, x: int, y: int, c: int)
    requires
        0 <= x < width,
        0 <= y < height,
        0 <= c < 3,
    ensures
        0 <= y * width + x < width * height,
        0 <= byte_index(width, x, y, c) < width * height * 3,
{
    assert(0 <= y * width + x && y * width + x < width * height) by (nonlinear_arith)
        requires
            0 <= x < width,
            0 <= y < height,
    ;
    assert((y * width + x) * 3 + c < (width * height) * 3) by (nonlinear_arith)
        requires
            y * width + x < width * height,
            c < 3,
    ;
}

/// Distinct in-bounds channel coordinates occupy distinct flat positions.
pub proof fn lemma_byte_index_injective(width: int, x1: int, y1: int, c1: int, x2: int, y2: int, c2: int)
    requires
        0 <= x1 < width,
        0 <= x2 < width,
        0 <= c1 < 3,
        0 <= c2 < 3,
        0 <= y1,
        0 <= y2,
        byte_index(width, x1, y1, c1) == byte_index(width, x2, y2, c2),
    ensures
        x1 == x2,
        y1 == y2,
        c1 == c2,
{
    let a = y1 * width + x1;
    let b = y2 * width + x2;
    assert(a * 3 + c1 == b * 3 + c2);
    assert(a == b && c1 == c2);
    assert(x1 == x2 && y1 == y2) by (nonlinear_arith)
        requires
            y1 * width + x1 == y2 * width + x2,
            0 <= x1 < width,
            0 <= x2 < width,
            0 <= y1,
            0 <= y2,
    ;
}

} // verus!
