//! Glyph data: rasterized input bitmaps, placed glyph handles, and the
//! cache keys that identify a glyph.
//!
//! A rasterizer outside this crate produces a [`RasterizedGlyph`]: a mono
//! (RGB coverage mask) or colored (RGBA) bitmap together with its bearings.
//! The atlases consume it and hand back a [`Glyph`]: which atlas holds it
//! and where, either as a grid cell reference or as a pixel rectangle in a
//! shelf-packed atlas.

use vstd::prelude::*;

verus! {

/// An 8-bit RGB color.
#[derive(Clone, Copy, Debug, PartialEq, Eq, Structural)]
pub struct Rgb {
    pub r: u8,
    pub g: u8,
    pub b: u8,
}

/// An 8-bit RGBA color.
#[derive(Clone, Copy, Debug, PartialEq, Eq, Structural)]
pub struct Rgba {
    pub r: u8,
    pub g: u8,
    pub b: u8,
    pub a: u8,
}

/// Pixel payload of a rasterized glyph: a 3-byte-per-pixel coverage mask
/// for ordinary glyphs, or 4-byte-per-pixel color data for emoji and other
/// colored glyphs.
#[derive(Clone, Debug)]
pub enum BitmapBuffer {
    Rgb(Vec<u8>),
    Rgba(Vec<u8>),
}

/// A glyph bitmap as the rasterizer hands it over, with its metrics.
///
/// `left` and `top` are the bearings of the bitmap's top-left corner
/// relative to the pen origin on the baseline: `left` grows rightward,
/// `top` upward. `wide` marks a double-cell glyph and `zero_width` a
/// combining mark; both bypass the grid atlas.
#[derive(Clone, Debug)]
pub struct RasterizedGlyph {
    pub character: char,
    pub width: i32,
    pub height: i32,
    pub top: i32,
    pub left: i32,
    pub buffer: BitmapBuffer,
    pub wide: bool,
    pub zero_width: bool,
}

impl RasterizedGlyph {
    /// The buffer holds exactly one pixel row after another, at the
    /// format's byte width, and the dimensions are small enough that all
    /// pixel index arithmetic stays far below `i32` overflow.
    pub open spec fn wf(self) -> bool {
        &&& 0 <= self.width <= 0x8000
        &&& 0 <= self.height <= 0x8000
        &&& -0x10000 <= self.left <= 0x10000
        &&& -0x10000 <= self.top <= 0x10000
        &&& match self.buffer {
            BitmapBuffer::Rgb(v) => v.len() == self.width * self.height * 3,
            BitmapBuffer::Rgba(v) => v.len() == self.width * self.height * 4,
        }
    }

    /// Whether the bitmap carries its own colors (RGBA) rather than a
    /// coverage mask to be tinted with the cell's foreground.
    pub open spec fn spec_colored(self) -> bool {
        match self.buffer {
            BitmapBuffer::Rgb(_) => false,
            BitmapBuffer::Rgba(_) => true,
        }
    }

    pub fn colored(&self) -> (r: bool)
        ensures
            r == self.spec_colored(),
    {
        match &self.buffer {
            BitmapBuffer::Rgb(_) => false,
            BitmapBuffer::Rgba(_) => true,
        }
    }

    /// An empty placeholder glyph, substituted when rasterization fails or
    /// a glyph cannot be placed anywhere; rendering then degrades to a gap
    /// instead of aborting the frame.
    pub fn empty(character: char) -> (r: RasterizedGlyph)
        ensures
            r.wf(),
            r.width == 0,
            r.height == 0,
            !r.spec_colored(),
    {
        RasterizedGlyph {
            character,
            width: 0,
            height: 0,
            top: 0,
            left: 0,
            buffer: BitmapBuffer::Rgb(Vec::new()),
            wide: false,
            zero_width: false,
        }
    }
}

/// Channel `c` of the glyph bitmap's pixel at `(x, y)`, as it is written
/// into a 4-channel staging buffer or atlas: a mono mask contributes its
/// three coverage bytes and zero alpha, a colored bitmap all four bytes.
pub open spec fn glyph_texel(g: RasterizedGlyph, x: int, y: int, c: int) -> u8 {
    match g.buffer {
        BitmapBuffer::Rgb(v) => if c == 3 {
            0u8
        } else {
            v[3 * (y * g.width + x) + c]
        },
        BitmapBuffer::Rgba(v) => v[4 * (y * g.width + x) + c],
    }
}

/// Reference to a glyph placed in a grid atlas: the cell's integer
/// coordinates. Always distinct from `(0, 0)`, which is the reserved
/// "no glyph" sentinel of the per-cell reference buffers.
#[derive(Clone, Copy, Debug, PartialEq, Eq, Structural)]
pub struct AtlasRefGrid {
    pub line: u16,
    pub column: u16,
}

/// Reference to a glyph placed in a free (shelf-packed) atlas: its pixel
/// rectangle in the atlas texture plus the bearings needed to position the
/// quad on screen. Normalizing to UV coordinates is the GPU layer's step.
#[derive(Clone, Copy, Debug, PartialEq, Eq, Structural)]
pub struct AtlasRefFree {
    pub x: i32,
    pub y: i32,
    pub width: i32,
    pub height: i32,
    pub top: i32,
    pub left: i32,
}

/// Where a glyph landed: grid cell or free-atlas rectangle.
#[derive(Clone, Copy, Debug, PartialEq, Eq, Structural)]
pub enum AtlasRef {
    Grid(AtlasRefGrid),
    Free(AtlasRefFree),
}

/// A placed glyph: which atlas instance holds it, the placement within
/// that atlas, and whether the bitmap was colored.
#[derive(Clone, Copy, Debug, PartialEq, Eq, Structural)]
pub struct Glyph {
    pub atlas_index: usize,
    pub colored: bool,
    pub atlas_ref: AtlasRef,
}

impl Glyph {
    /// The placeholder handle for a glyph that could not be placed: a
    /// zero-size free-atlas rectangle, drawn as nothing.
    pub fn empty() -> (r: Glyph)
        ensures
            r.atlas_index == 0,
            !r.colored,
            r.atlas_ref == AtlasRef::Free(AtlasRefFree {
                x: 0,
                y: 0,
                width: 0,
                height: 0,
                top: 0,
                left: 0,
            }),
    {
        Glyph {
            atlas_index: 0,
            colored: false,
            atlas_ref: AtlasRef::Free(AtlasRefFree {
                x: 0,
                y: 0,
                width: 0,
                height: 0,
                top: 0,
                left: 0,
            }),
        }
    }
}

/// Cache key of a character glyph: font face token and scaled size as the
/// rasterizer numbers them, the character, and the wide/zero-width flags
/// that steer atlas choice.
#[derive(Clone, Copy, Debug, PartialEq, Eq, Structural)]
pub struct GlyphKey {
    pub font_key: u32,
    pub size: u32,
    pub character: char,
    pub wide: bool,
    pub zero_width: bool,
}

/// The cursor shapes the terminal can request.
#[derive(Clone, Copy, Debug, PartialEq, Eq, Structural)]
pub enum CursorStyle {
    Block,
    Underline,
    Beam,
    HollowBlock,
    Hidden,
}

/// Cache key of a cursor glyph.
#[derive(Clone, Copy, Debug, PartialEq, Eq, Structural)]
pub struct CursorKey {
    pub style: CursorStyle,
    pub is_wide: bool,
}

impl GlyphKey {
    /// The key packed into one integer for the hash map: character and
    /// flags in the low 32 bits, size in the middle, font token on top.
    /// Injective, see [`lemma_glyph_key_pack_injective`].
    pub open spec fn spec_pack(self) -> int {
        (self.font_key as int) * 0x1_0000_0000_0000_0000 + (self.size as int) * 0x1_0000_0000 + (
        self.character as int) * 4 + (if self.wide { 2int } else { 0int }) + (if self.zero_width {
            1int
        } else {
            0int
        })
    }

    pub fn pack(&self) -> (r: u128)
        ensures
            r == self.spec_pack(),
    {
        let c: u32 = self.character as u32;
        (self.font_key as u128) * 0x1_0000_0000_0000_0000 + (self.size as u128) * 0x1_0000_0000
            + (c as u128) * 4 + (if self.wide { 2u128 } else { 0u128 })
            + (if self.zero_width { 1u128 } else { 0u128 })
    }
}

impl CursorKey {
    /// The key packed into one integer for the hash map; each style/width
    /// pair gets its own value.
    pub open spec fn spec_pack(self) -> int {
        (match self.style {
            CursorStyle::Block => 0int,
            CursorStyle::Underline => 2int,
            CursorStyle::Beam => 4int,
            CursorStyle::HollowBlock => 6int,
            CursorStyle::Hidden => 8int,
        }) + (if self.is_wide { 1int } else { 0int })
    }

    pub fn pack(&self) -> (r: u64)
        ensures
            r == self.spec_pack(),
    {
        (match self.style {
            CursorStyle::Block => 0u64,
            CursorStyle::Underline => 2u64,
            CursorStyle::Beam => 4u64,
            CursorStyle::HollowBlock => 6u64,
            CursorStyle::Hidden => 8u64,
        }) + (if self.is_wide { 1u64 } else { 0u64 })
    }
}

/// Packing a glyph key loses nothing: two keys with the same packed value
/// are the same key, so the cache never conflates distinct glyphs.
pub proof fn lemma_glyph_key_pack_injective(a: GlyphKey, b: GlyphKey)
    requires
        a.spec_pack() == b.spec_pack(),
    ensures
        a == b,
{
    let la = (a.character as u128) * 4 + (if a.wide { 2 as u128 } else { 0 as u128 }) + (
    if a.zero_width {
        1 as u128
    } else {
        0 as u128
    });
    let lb = (b.character as u128) * 4 + (if b.wide { 2 as u128 } else { 0 as u128 }) + (
    if b.zero_width {
        1 as u128
    } else {
        0 as u128
    });
    assert(a.character as u128 <= 0x10FFFF as u128);
    assert(b.character as u128 <= 0x10FFFF as u128);
    let ma = (a.size as int) * 0x1_0000_0000 + la;
    let mb = (b.size as int) * 0x1_0000_0000 + lb;
    assert(0 <= la < 0x1_0000_0000 && 0 <= lb < 0x1_0000_0000);
    assert(0 <= ma < 0x1_0000_0000_0000_0000 && 0 <= mb < 0x1_0000_0000_0000_0000);
    assert((a.font_key as int) * 0x1_0000_0000_0000_0000 + ma == (b.font_key as int)
        * 0x1_0000_0000_0000_0000 + mb);
    vstd::arithmetic::div_mod::lemma_fundamental_div_mod_converse(
        (a.font_key as int) * 0x1_0000_0000_0000_0000 + ma,
        0x1_0000_0000_0000_0000,
        a.font_key as int,
        ma,
    );
    vstd::arithmetic::div_mod::lemma_fundamental_div_mod_converse(
        (b.font_key as int) * 0x1_0000_0000_0000_0000 + mb,
        0x1_0000_0000_0000_0000,
        b.font_key as int,
        mb,
    );
    assert(a.font_key == b.font_key && ma == mb);
    vstd::arithmetic::div_mod::lemma_fundamental_div_mod_converse(
        ma,
        0x1_0000_0000,
        a.size as int,
        la as int,
    );
    vstd::arithmetic::div_mod::lemma_fundamental_div_mod_converse(
        mb,
        0x1_0000_0000,
        b.size as int,
        lb as int,
    );
    assert(a.size == b.size && la == lb);
    let fa = (if a.wide { 2int } else { 0int }) + (if a.zero_width { 1int } else { 0int });
    let fb = (if b.wide { 2int } else { 0int }) + (if b.zero_width { 1int } else { 0int });
    vstd::arithmetic::div_mod::lemma_fundamental_div_mod_converse(
        la as int,
        4,
        a.character as int,
        fa,
    );
    vstd::arithmetic::div_mod::lemma_fundamental_div_mod_converse(
        lb as int,
        4,
        b.character as int,
        fb,
    );
    assert(a.character as int == b.character as int && fa == fb);
}

} // verus!
