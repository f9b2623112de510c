//! Pixel formats for the 2D textures the renderer uploads, and their
//! GL-level encoding. The upload calls themselves live with the GPU
//! plumbing outside this crate; here is only the data they consume.

use vstd::prelude::*;

verus! {

/// GL enum value for 4-channel pixel data.
pub const GL_RGBA: u32 = 0x1908;

/// GL enum value for 3-channel pixel data.
pub const GL_RGB: u32 = 0x1907;

/// GL enum value for one byte per channel.
pub const GL_UNSIGNED_BYTE: u32 = 0x1401;

/// The two texture formats the renderer uses: 3-channel for mono glyph
/// coverage and background colors, 4-channel for colored glyphs and the
/// per-cell glyph-reference buffer.
#[derive(Clone, Copy, Debug, PartialEq, Eq, Structural)]
pub enum PixelFormat {
    RGBA8,
    RGB8,
}

/// GL-level description of a [`PixelFormat`]: internal format, client
/// format, texel channel type, and bytes per pixel.
#[derive(Clone, Copy, Debug, PartialEq, Eq, Structural)]
pub struct TextureFormat {
    pub internal: i32,
    pub format: u32,
    pub texel_type: u32,
    pub pixel_bytes: u32,
}

/// Bytes per pixel of a format.
pub open spec fn bytes_per_pixel(format: PixelFormat) -> int {
    match format {
        PixelFormat::RGBA8 => 4,
        PixelFormat::RGB8 => 3,
    }
}

/// Map a pixel format to the exact GL encoding the upload calls need.
pub fn get_gl_format(format: PixelFormat) -> (r: TextureFormat)
    ensures
        r.pixel_bytes == bytes_per_pixel(format),
        r.texel_type == GL_UNSIGNED_BYTE,
        format == PixelFormat::RGBA8 ==> r.internal == GL_RGBA && r.format == GL_RGBA,
        format == PixelFormat::RGB8 ==> r.internal == GL_RGB && r.format == GL_RGB,
{
    match format {
        PixelFormat::RGBA8 => TextureFormat {
            internal: GL_RGBA as i32,
            format: GL_RGBA,
            texel_type: GL_UNSIGNED_BYTE,
            pixel_bytes: 4,
        },
        PixelFormat::RGB8 => TextureFormat {
            internal: GL_RGB as i32,
            format: GL_RGB,
            texel_type: GL_UNSIGNED_BYTE,
            pixel_bytes: 3,
        },
    }
}

} // verus!
