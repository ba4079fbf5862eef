//! The pixel-to-image-plane mapping of the camera. A primary ray leaves the
//! camera center toward the pixel's location on the image plane: the pixel
//! column is offset along the camera's right vector and the pixel row along
//! its up vector, both measured from the image center.

use vstd::prelude::*;

verus! {

/// Integer offsets of a pixel from the image center: the horizontal offset
/// `col - width / 2` (in steps along the camera's right vector) and the
/// vertical offset `height / 2 - row` (in steps along the camera's up
/// vector, so that rows grow downward while the offset grows upward).
pub fn pixel_offsets(row: usize, col: usize, height: usize, width: usize) -> (r: (i64, i64))
    requires
        row < height,
        col < width,
        height < 0x1_0000_0000,
        width < 0x1_0000_0000,
    ensures
        r.0 == col as int - width as int / 2,
        r.1 == height as int / 2 - row as int,
{
    let horizontal = col as i64 - (width as i64) / 2;
    let vertical = (height as i64) / 2 - row as i64;
    (horizontal, vertical)
}

} // verus!
