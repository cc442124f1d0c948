//! The memory layout of a window icon handed to GDK as a texture.

use vstd::prelude::*;

verus! {

/// The size and row stride of an RGBA icon as GDK's memory textures take them.
#[derive(Clone, Copy, Debug, PartialEq, Eq, Structural)]
pub struct TextureLayout {
    pub width: i32,
    pub height: i32,
    /// Bytes per row: four per pixel.
    pub stride: usize,
}

/// The texture layout of an RGBA icon of `width` by `height` pixels; none
/// when a side does not fit in an `i32` or a row's byte count in a `usize`.
pub fn texture_layout(width: u32, height: u32) -> (layout: Option<TextureLayout>)
    ensures
        layout is Some <==> width <= i32::MAX && height <= i32::MAX && width * 4 <= usize::MAX,
        layout matches Some(l) ==> l.width == width && l.height == height && l.stride == width * 4,
{
    if width > i32::MAX as u32 || height > i32::MAX as u32 {
        return None;
    }
    let row: usize = width as usize;
    let stride = row.checked_mul(4)?;
    Some(TextureLayout { width: width as i32, height: height as i32, stride })
}

} // verus!
