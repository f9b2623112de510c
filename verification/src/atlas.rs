//! The grid atlas: the primary glyph packing strategy.
//!
//! A grid atlas partitions one fixed-size texture into equal cells, one
//! glyph per cell, addressed by integer `(line, column)`. Placement is
//! O(1): a write cursor walks the grid in row-major order and never moves
//! backward. Cell `(0, 0)` is reserved so that a zeroed per-cell reference
//! buffer unambiguously means "no glyph".
//!
//! Glyph pixels are staged CPU-side in a [`Blitmap`] holding one atlas row
//! and handed out as whole-line uploads, so the GPU sees one upload per
//! filled row instead of one per glyph.

use vstd::prelude::*;

use crate::geom::Vec2i;
use crate::glyph::{glyph_texel, AtlasRefGrid, BitmapBuffer, RasterizedGlyph};

verus! {

/// Pixel edge of the square texture every grid atlas owns.
pub const GRID_ATLAS_SIZE: i32 = 1024;

/// Cap on the grid's cell count per axis, so a cell reference always fits
/// one byte per coordinate in the per-cell reference buffer.
pub const GRID_ATLAS_MAX_CELLS: i32 = 256;

/// Error from inserting a glyph into an atlas.
#[derive(Clone, Copy, Debug, PartialEq, Eq, Structural)]
pub enum AtlasInsertError {
    /// Texture atlas is full.
    Full,
    /// The glyph cannot fit within a single texture or cell.
    GlyphTooLarge,
}

/// Grid atlas entry dimensions: the cell size, and the offset of the pen
/// origin from the cell's left edge and of the baseline reserve from its
/// bottom.
#[derive(Clone, Copy, Debug, PartialEq, Eq, Structural)]
pub struct CellDims {
    /// Entire cell size.
    pub size: Vec2i,
    /// Glyph origin position relative to the cell.
    pub offset: Vec2i,
}

/// Flat byte index of channel 0 of the pixel `(x, y)` in a 4-channel
/// buffer that is `w` pixels wide.
pub open spec fn texel_index(x: int, y: int, w: int) -> int {
    4 * (y * w + x)
}

/// Channel `c` of pixel `(x, y)` of a 4-channel pixel buffer `s` that is
/// `w` pixels wide.
pub open spec fn texel(s: Seq<u8>, w: int, x: int, y: int, c: int) -> u8 {
    s[texel_index(x, y, w) + c]
}

/// Pixel coordinates address distinct bytes: two different pixels of the
/// same buffer never share a channel byte.
pub proof fn lemma_texel_index_injective(x1: int, y1: int, x2: int, y2: int, w: int)
    requires
        0 < w,
        0 <= x1 < w,
        0 <= x2 < w,
        0 <= y1,
        0 <= y2,
        !(x1 == x2 && y1 == y2),
    ensures
        texel_index(x1, y1, w) + 4 <= texel_index(x2, y2, w) || texel_index(x2, y2, w) + 4
            <= texel_index(x1, y1, w),
{
    let p1 = y1 * w + x1;
    let p2 = y2 * w + x2;
    if p1 == p2 {
        vstd::arithmetic::div_mod::lemma_fundamental_div_mod_converse(p1, w, y1, x1);
        vstd::arithmetic::div_mod::lemma_fundamental_div_mod_converse(p2, w, y2, x2);
        assert(false);
    } else if p1 < p2 {
        assert(4 * p1 + 4 <= 4 * p2);
    } else {
        assert(4 * p2 + 4 <= 4 * p1);
    }
}

/// CPU-side staging buffer of 32-bit RGBA pixels, one atlas line high,
/// filled glyph by glyph and uploaded to the texture in one call.
#[derive(Clone, Debug)]
pub struct Blitmap {
    width: i32,
    height: i32,
    /// All pixels are 4-byte RGBA, row after row.
    pixels: Vec<u8>,
}

impl View for Blitmap {
    type V = Seq<u8>;

    /// The staged bytes, row after row, four per pixel.
    closed spec fn view(&self) -> Seq<u8> {
        self.pixels@
    }
}

impl Blitmap {
    /// Dimensions are positive, bounded, and the byte buffer holds exactly
    /// the pixel grid.
    pub closed spec fn wf(self) -> bool {
        &&& 0 < self.width <= 0x8000
        &&& 0 < self.height <= 0x8000
        &&& self.pixels.len() == self.width * self.height * 4
    }

    pub closed spec fn spec_width(self) -> int {
        self.width as int
    }

    pub closed spec fn spec_height(self) -> int {
        self.height as int
    }

    /// Every channel of every pixel is zero.
    pub open spec fn all_zero(self) -> bool {
        forall|i: int| 0 <= i < self@.len() ==> self@[i] == 0
    }

    /// A fresh, zeroed staging buffer.
    pub fn new(width: i32, height: i32) -> (r: Blitmap)
        requires
            0 < width <= 0x8000,
            0 < height <= 0x8000,
            width * height * 4 <= 0xFFFF_FFFF,
        ensures
            r.wf(),
            r.spec_width() == width,
            r.spec_height() == height,
            r.all_zero(),
    {
        let n: usize = (width as usize) * (height as usize) * 4;
        let mut pixels: Vec<u8> = Vec::new();
        while pixels.len() < n
            invariant
                pixels.len() <= n,
                forall|i: int| 0 <= i < pixels.len() ==> pixels[i] == 0,
            decreases n - pixels.len(),
        {
            pixels.push(0);
        }
        Blitmap { width, height, pixels }
    }

    /// Reset every pixel to zero, keeping the dimensions.
    pub fn clear(&mut self)
        requires
            old(self).wf(),
        ensures
            final(self).wf(),
            final(self).spec_width() == old(self).spec_width(),
            final(self).spec_height() == old(self).spec_height(),
            final(self).all_zero(),
    {
        let n: usize = self.pixels.len();
        let mut i: usize = 0;
        while i < n
            invariant
                n == self.pixels.len(),
                i <= n,
                self.width == old(self).width,
                self.height == old(self).height,
                forall|j: int| 0 <= j < i ==> self.pixels[j] == 0,
            decreases n - i,
        {
            self.pixels.set(i, 0);
            i = i + 1;
        }
    }

    /// Overwrite the four channels of one pixel, leaving every other pixel
    /// untouched.
    fn put_texel(&mut self, x: i32, y: i32, ch: [u8; 4])
        requires
            old(self).wf(),
            0 <= x < old(self).spec_width(),
            0 <= y < old(self).spec_height(),
        ensures
            final(self).wf(),
            final(self).spec_width() == old(self).spec_width(),
            final(self).spec_height() == old(self).spec_height(),
            forall|c: int|
                0 <= c < 4 ==> #[trigger] texel(
                    final(self)@,
                    old(self).spec_width(),
                    x as int,
                    y as int,
                    c,
                ) == ch@[c],
            forall|qx: int, qy: int, c: int|
                0 <= qx < old(self).spec_width() && 0 <= qy < old(self).spec_height() && 0 <= c < 4
                    && !(qx == x && qy == y) ==> #[trigger] texel(
                    final(self)@,
                    old(self).spec_width(),
                    qx,
                    qy,
                    c,
                ) == texel(old(self)@, old(self).spec_width(), qx, qy, c),
    {
        proof {
            assert(y * self.width + x < self.height * self.width) by {
                vstd::arithmetic::mul::lemma_mul_inequality(
                    y as int + 1,
                    self.height as int,
                    self.width as int,
                );
                vstd::arithmetic::mul::lemma_mul_is_distributive_add_other_way(
                    self.width as int,
                    y as int,
                    1,
                );
            }
            vstd::arithmetic::mul::lemma_mul_is_commutative(self.height as int, self.width as int);
        }
        let base: usize = 4 * ((y as usize) * (self.width as usize) + (x as usize));
        self.pixels.set(base, ch[0]);
        self.pixels.set(base + 1, ch[1]);
        self.pixels.set(base + 2, ch[2]);
        self.pixels.set(base + 3, ch[3]);
        proof {
            assert forall|qx: int, qy: int, c: int|
                0 <= qx < old(self).spec_width() && 0 <= qy < old(self).spec_height() && 0 <= c < 4
                    && !(qx == x && qy == y) implies #[trigger] texel(
                self@,
                old(self).spec_width(),
                qx,
                qy,
                c,
            ) == texel(old(self)@, old(self).spec_width(), qx, qy, c) by {
                lemma_texel_index_injective(qx, qy, x as int, y as int, old(self).spec_width());
                assert(qy * old(self).spec_width() + qx < old(self).spec_height() * old(
                    self,
                ).spec_width()) by {
                    vstd::arithmetic::mul::lemma_mul_inequality(
                        qy + 1,
                        old(self).spec_height(),
                        old(self).spec_width(),
                    );
                    vstd::arithmetic::mul::lemma_mul_is_distributive_add_other_way(
                        old(self).spec_width(),
                        qy,
                        1,
                    );
                }
                vstd::arithmetic::mul::lemma_mul_is_commutative(
                    old(self).spec_height(),
                    old(self).spec_width(),
                );
            }
            assert forall|c: int| 0 <= c < 4 implies #[trigger] texel(
                self@,
                old(self).spec_width(),
                x as int,
                y as int,
                c,
            ) == ch@[c] by {
            }
        }
    }

    /// Copy a glyph bitmap into the staging buffer with its top-left
    /// corner at `(pos_x, pos_y)`. The copied extent is clipped to
    /// `max_w` by `max_h`; mono coverage lands in the color channels with
    /// zero alpha, colored pixels are copied whole.
    pub fn blit(&mut self, pos_x: i32, pos_y: i32, max_w: i32, max_h: i32, g: &RasterizedGlyph)
        requires
            old(self).wf(),
            g.wf(),
            0 <= max_w,
            0 <= max_h,
            0 <= pos_x,
            0 <= pos_y,
            pos_x + vstd::math::min(max_w as int, g.width as int) <= old(self).spec_width(),
            pos_y + vstd::math::min(max_h as int, g.height as int) <= old(self).spec_height(),
        ensures
            final(self).wf(),
            final(self).spec_width() == old(self).spec_width(),
            final(self).spec_height() == old(self).spec_height(),
            forall|qx: int, qy: int, c: int|
                0 <= qx < old(self).spec_width() && 0 <= qy < old(self).spec_height() && 0 <= c < 4
                    ==> #[trigger] texel(final(self)@, old(self).spec_width(), qx, qy, c) == if pos_x
                    <= qx < pos_x + vstd::math::min(max_w as int, g.width as int) && pos_y <= qy
                    < pos_y + vstd::math::min(max_h as int, g.height as int) {
                    glyph_texel(*g, qx - pos_x, qy - pos_y, c)
                } else {
                    texel(old(self)@, old(self).spec_width(), qx, qy, c)
                },
    {
        let w: i32 = if max_w < g.width {
            max_w
        } else {
            g.width
        };
        let h: i32 = if max_h < g.height {
            max_h
        } else {
            g.height
        };
        let mut y: i32 = 0;
        while y < h
            invariant
                self.wf(),
                self.spec_width() == old(self).spec_width(),
                self.spec_height() == old(self).spec_height(),
                g.wf(),
                0 <= y <= h,
                0 <= w,
                0 <= h,
                w == vstd::math::min(max_w as int, g.width as int),
                h == vstd::math::min(max_h as int, g.height as int),
                0 <= pos_x,
                0 <= pos_y,
                pos_x + w <= self.spec_width(),
                pos_y + h <= self.spec_height(),
                forall|qx: int, qy: int, c: int|
                    0 <= qx < self.spec_width() && 0 <= qy < self.spec_height() && 0 <= c < 4
                        ==> #[trigger] texel(self@, self.spec_width(), qx, qy, c) == if pos_x <= qx
                        < pos_x + w && pos_y <= qy < pos_y + y {
                        glyph_texel(*g, qx - pos_x, qy - pos_y, c)
                    } else {
                        texel(old(self)@, self.spec_width(), qx, qy, c)
                    },
            decreases h - y,
        {
            let mut x: i32 = 0;
            while x < w
                invariant
                    self.wf(),
                    self.spec_width() == old(self).spec_width(),
                    self.spec_height() == old(self).spec_height(),
                    g.wf(),
                    0 <= y < h,
                    0 <= x <= w,
                    0 <= w,
                    0 <= h,
                    w == vstd::math::min(max_w as int, g.width as int),
                    h == vstd::math::min(max_h as int, g.height as int),
                    0 <= pos_x,
                    0 <= pos_y,
                    pos_x + w <= self.spec_width(),
                    pos_y + h <= self.spec_height(),
                    forall|qx: int, qy: int, c: int|
                        0 <= qx < self.spec_width() && 0 <= qy < self.spec_height() && 0 <= c < 4
                            ==> #[trigger] texel(self@, self.spec_width(), qx, qy, c) == if (pos_x
                            <= qx < pos_x + w && pos_y <= qy < pos_y + y) || (qy == pos_y + y
                            && pos_x <= qx < pos_x + x) {
                            glyph_texel(*g, qx - pos_x, qy - pos_y, c)
                        } else {
                            texel(old(self)@, self.spec_width(), qx, qy, c)
                        },
                decreases w - x,
            {
                proof {
                    assert(y * g.width + x < g.height * g.width) by {
                        vstd::arithmetic::mul::lemma_mul_inequality(
                            y as int + 1,
                            g.height as int,
                            g.width as int,
                        );
                        vstd::arithmetic::mul::lemma_mul_is_distributive_add_other_way(
                            g.width as int,
                            y as int,
                            1,
                        );
                    }
                    vstd::arithmetic::mul::lemma_mul_is_commutative(
                        g.height as int,
                        g.width as int,
                    );
                    vstd::arithmetic::mul::lemma_mul_inequality(
                        y * g.width + x + 1,
                        g.width * g.height,
                        4,
                    );
                    vstd::arithmetic::mul::lemma_mul_inequality(
                        y * g.width + x + 1,
                        g.width * g.height,
                        3,
                    );
                }
                let src: usize = (y as usize) * (g.width as usize) + (x as usize);
                let ch: [u8; 4] = match &g.buffer {
                    BitmapBuffer::Rgb(v) => [v[3 * src], v[3 * src + 1], v[3 * src + 2], 0u8],
                    BitmapBuffer::Rgba(v) => [v[4 * src], v[4 * src + 1], v[4 * src + 2], v[4 * src
                        + 3]],
                };
                self.put_texel(pos_x + x, pos_y + y, ch);
                x = x + 1;
            }
            y = y + 1;
        }
    }

    /// A byte-for-byte copy of the staged pixels, for handing to a
    /// texture upload.
    pub fn snapshot(&self) -> (r: Vec<u8>)
        ensures
            r@ == self@,
    {
        let n: usize = self.pixels.len();
        let mut r: Vec<u8> = Vec::new();
        let mut i: usize = 0;
        while i < n
            invariant
                n == self.pixels.len(),
                i <= n,
                r@ == self.pixels@.subrange(0, i as int),
            decreases n - i,
        {
            r.push(self.pixels[i]);
            proof {
                assert(r@ =~= self.pixels@.subrange(0, i + 1));
            }
            i = i + 1;
        }
        proof {
            assert(r@ =~= self.pixels@);
        }
        r
    }
}

/// One atlas row's worth of pixels, ready to be uploaded to the atlas
/// texture at vertical offset `y`: the full texture width, one cell high,
/// 4 bytes per pixel.
#[derive(Clone, Debug)]
pub struct LineUpload {
    /// Pixel `y` of the row's top edge in the atlas texture.
    pub y: i32,
    /// The row's pixels, row-major RGBA.
    pub pixels: Vec<u8>,
}

/// Horizontal pixel offset of a glyph within its cell: the cell's pen
/// origin plus the glyph's left bearing.
pub open spec fn grid_off_x(d: CellDims, g: RasterizedGlyph) -> int {
    d.offset.x + g.left
}

/// Vertical pixel offset of a glyph's top edge within its cell. Texture
/// space grows downward while the `top` bearing grows upward from the
/// baseline, so the glyph drops by `cell height - top`, less the descent
/// reserve `offset.y` kept below the baseline.
pub open spec fn grid_off_y(d: CellDims, g: RasterizedGlyph) -> int {
    d.size.y - d.offset.y - g.top
}

/// Left bearing recovered from a glyph's horizontal offset within its
/// cell; inverse of [`grid_off_x`].
pub open spec fn bearing_left_of(d: CellDims, off_x: int) -> int {
    off_x - d.offset.x
}

/// Top bearing recovered from a glyph's vertical offset within its cell;
/// inverse of [`grid_off_y`].
pub open spec fn bearing_top_of(d: CellDims, off_y: int) -> int {
    d.size.y - d.offset.y - off_y
}

/// Whether a glyph's bitmap, placed at its cell offsets, stays inside the
/// cell. A glyph that does not fit is rejected so the caller can fall
/// back to the free atlas, rather than clipped into a corrupted cell.
pub open spec fn glyph_fits_cell(d: CellDims, g: RasterizedGlyph) -> bool {
    &&& 0 <= grid_off_x(d, g)
    &&& 0 <= grid_off_y(d, g)
    &&& grid_off_x(d, g) + g.width <= d.size.x
    &&& grid_off_y(d, g) + g.height <= d.size.y
}

/// The staging row `new_s` equals `old_s` with glyph `g` blitted into the
/// cell at `column`: `g`'s texels land at its cell offsets, every other
/// texel of the row is untouched.
pub open spec fn row_with_glyph(
    new_s: Seq<u8>,
    old_s: Seq<u8>,
    row_w: int,
    d: CellDims,
    g: RasterizedGlyph,
    column: int,
) -> bool {
    forall|qx: int, qy: int, c: int|
        0 <= qx < row_w && 0 <= qy < d.size.y && 0 <= c < 4 ==> #[trigger] texel(
            new_s,
            row_w,
            qx,
            qy,
            c,
        ) == {
            let tex_x = grid_off_x(d, g) + column * d.size.x;
            let off_y = grid_off_y(d, g);
            if tex_x <= qx < tex_x + g.width && off_y <= qy < off_y + g.height {
                glyph_texel(g, qx - tex_x, qy - off_y, c)
            } else {
                texel(old_s, row_w, qx, qy, c)
            }
        }
}

/// Atlas to store glyphs for grid-based rendering: a single table of
/// equally sized cells, each holding one glyph, referenced by a pair of
/// integer coordinates. A rasterized glyph's size and bearings are
/// consumed by its position inside the cell.
#[derive(Debug)]
pub struct GridAtlas {
    /// This atlas' index among the renderer's passes.
    index: usize,
    /// Pixel size of the atlas texture.
    tex_size: Vec2i,
    /// Atlas entry size.
    cell_size: Vec2i,
    /// Pen origin position within a cell.
    cell_offset: Vec2i,
    /// Atlas table size in cells.
    grid_size: Vec2i,
    /// Next free entry coordinates.
    free_line: i32,
    free_column: i32,
    /// Staging row currently being filled with glyphs.
    filling_line: Blitmap,
    /// Last staged column already handed out for upload in this row.
    committed_column: i32,
    /// Completed rows not yet handed out for upload.
    pending: Vec<LineUpload>,
}

impl GridAtlas {
    /// Geometry is positive and bounded, the grid size is derived from
    /// texture and cell size (capped so cell coordinates fit a byte), the
    /// write cursor is inside the grid and strictly past the reserved
    /// `(0, 0)` sentinel cell, and the staging row matches the texture
    /// width and cell height.
    pub closed spec fn wf(self) -> bool {
        &&& 0 < self.cell_size.x <= 0x8000
        &&& 0 < self.cell_size.y <= 0x8000
        &&& 0 <= self.cell_offset.x <= 0x8000
        &&& 0 <= self.cell_offset.y <= 0x8000
        &&& 0 < self.tex_size.x <= 0x8000
        &&& 0 < self.tex_size.y <= 0x8000
        &&& self.tex_size.x * self.cell_size.y * 4 <= 0xFFFF_FFFF
        &&& self.grid_size.x == vstd::math::min(
            self.tex_size.x as int / self.cell_size.x as int,
            GRID_ATLAS_MAX_CELLS as int,
        )
        &&& self.grid_size.y == vstd::math::min(
            self.tex_size.y as int / self.cell_size.y as int,
            GRID_ATLAS_MAX_CELLS as int,
        )
        &&& 0 <= self.free_line <= self.grid_size.y
        &&& 0 <= self.free_column
        &&& (self.free_column < self.grid_size.x || self.free_column == 1)
        &&& self.free_line * self.grid_size.x + self.free_column >= 1
        &&& (self.grid_size.x > 1 || (self.free_line == 0 && self.free_column == 1))
        &&& 0 <= self.committed_column <= self.free_column
        &&& self.filling_line.wf()
        &&& self.filling_line.spec_width() == self.tex_size.x
        &&& self.filling_line.spec_height() == self.cell_size.y
    }

    pub closed spec fn spec_index(self) -> int {
        self.index as int
    }

    pub closed spec fn spec_cell_dims(self) -> CellDims {
        CellDims { size: self.cell_size, offset: self.cell_offset }
    }

    pub closed spec fn spec_tex_size(self) -> Vec2i {
        self.tex_size
    }

    pub closed spec fn spec_grid_size(self) -> Vec2i {
        self.grid_size
    }

    pub closed spec fn spec_free_line(self) -> int {
        self.free_line as int
    }

    pub closed spec fn spec_free_column(self) -> int {
        self.free_column as int
    }

    pub closed spec fn spec_committed_column(self) -> int {
        self.committed_column as int
    }

    /// The staged pixels of the row being filled.
    pub closed spec fn spec_staging(self) -> Seq<u8> {
        self.filling_line@
    }

    /// Completed rows awaiting upload, oldest first.
    pub closed spec fn spec_pending(self) -> Seq<LineUpload> {
        self.pending@
    }

    /// Row-major rank of the write cursor; cell `(0, 0)` is reserved, so
    /// this counts `1 +` the number of glyphs inserted since the atlas
    /// was fresh.
    pub open spec fn spec_linear(self) -> int {
        self.spec_free_line() * self.spec_grid_size().x + self.spec_free_column()
    }

    /// Whether the write cursor points at a usable free cell.
    pub open spec fn spec_has_space(self) -> bool {
        self.spec_free_line() < self.spec_grid_size().y && self.spec_free_column()
            < self.spec_grid_size().x
    }

    /// Create a grid atlas over a texture of the given size.
    ///
    /// `cell_size` is the full cell size; `cell_offset` is the pen origin
    /// position relative to the cell, reserved for bearings that reach
    /// left of the origin or below the baseline.
    pub fn with_size(index: usize, cell_size: Vec2i, cell_offset: Vec2i, tex_size: Vec2i) -> (r:
        GridAtlas)
        requires
            0 < cell_size.x <= 0x8000,
            0 < cell_size.y <= 0x8000,
            0 <= cell_offset.x <= 0x8000,
            0 <= cell_offset.y <= 0x8000,
            0 < tex_size.x <= 0x8000,
            0 < tex_size.y <= 0x8000,
            tex_size.x * cell_size.y * 4 <= 0xFFFF_FFFF,
        ensures
            r.wf(),
            r.spec_index() == index,
            r.spec_cell_dims() == (CellDims { size: cell_size, offset: cell_offset }),
            r.spec_tex_size() == tex_size,
            r.spec_grid_size().x == vstd::math::min(
                tex_size.x as int / cell_size.x as int,
                GRID_ATLAS_MAX_CELLS as int,
            ),
            r.spec_grid_size().y == vstd::math::min(
                tex_size.y as int / cell_size.y as int,
                GRID_ATLAS_MAX_CELLS as int,
            ),
            r.spec_free_line() == 0,
            r.spec_free_column() == 1,
            r.spec_committed_column() == 0,
            r.spec_pending().len() == 0,
            r.filling_all_zero(),
    {
        let gx: i32 = {
            let q = tex_size.x / cell_size.x;
            if q < GRID_ATLAS_MAX_CELLS {
                q
            } else {
                GRID_ATLAS_MAX_CELLS
            }
        };
        let gy: i32 = {
            let q = tex_size.y / cell_size.y;
            if q < GRID_ATLAS_MAX_CELLS {
                q
            } else {
                GRID_ATLAS_MAX_CELLS
            }
        };
        GridAtlas {
            index,
            tex_size,
            cell_size,
            cell_offset,
            grid_size: Vec2i { x: gx, y: gy },
            free_line: 0,
            // Cell (0, 0) is reserved as the "no glyph" sentinel of the
            // per-cell reference buffers.
            free_column: 1,
            filling_line: Blitmap::new(tex_size.x, cell_size.y),
            committed_column: 0,
            pending: Vec::new(),
        }
    }

    /// Create a grid atlas over the standard fixed-size texture.
    pub fn new(index: usize, cell_size: Vec2i, cell_offset: Vec2i) -> (r: GridAtlas)
        requires
            0 < cell_size.x <= 0x8000,
            0 < cell_size.y <= 0x8000,
            0 <= cell_offset.x <= 0x8000,
            0 <= cell_offset.y <= 0x8000,
        ensures
            r.wf(),
            r.spec_index() == index,
            r.spec_cell_dims() == (CellDims { size: cell_size, offset: cell_offset }),
            r.spec_tex_size() == (Vec2i { x: GRID_ATLAS_SIZE, y: GRID_ATLAS_SIZE }),
            r.spec_grid_size().x == vstd::math::min(
                GRID_ATLAS_SIZE as int / cell_size.x as int,
                GRID_ATLAS_MAX_CELLS as int,
            ),
            r.spec_grid_size().y == vstd::math::min(
                GRID_ATLAS_SIZE as int / cell_size.y as int,
                GRID_ATLAS_MAX_CELLS as int,
            ),
            r.spec_free_line() == 0,
            r.spec_free_column() == 1,
            r.spec_committed_column() == 0,
            r.spec_pending().len() == 0,
            r.filling_all_zero(),
    {
        GridAtlas::with_size(
            index,
            cell_size,
            cell_offset,
            Vec2i { x: GRID_ATLAS_SIZE, y: GRID_ATLAS_SIZE },
        )
    }

    /// Every texel of the staging row is zero.
    pub open spec fn filling_all_zero(self) -> bool {
        forall|i: int| 0 <= i < self.spec_staging().len() ==> self.spec_staging()[i] == 0
    }

    /// Return atlas entry cell dimensions.
    pub fn cell_dims(&self) -> (r: CellDims)
        ensures
            r == self.spec_cell_dims(),
    {
        CellDims { size: self.cell_size, offset: self.cell_offset }
    }

    /// This atlas' index among the renderer's passes.
    pub fn index(&self) -> (r: usize)
        ensures
            r == self.spec_index(),
    {
        self.index
    }

    /// The write cursor's line.
    pub fn free_line_at(&self) -> (r: i32)
        ensures
            r == self.spec_free_line(),
    {
        self.free_line
    }

    /// The write cursor's column.
    pub fn free_column_at(&self) -> (r: i32)
        ensures
            r == self.spec_free_column(),
    {
        self.free_column
    }

    /// The facts a caller can rely on about a well-formed atlas: how the
    /// grid size derives from the texture and cell geometry, and where
    /// the write cursor can be.
    pub proof fn lemma_wf_facts(self)
        requires
            self.wf(),
        ensures
            self.spec_grid_size().x == vstd::math::min(
                self.spec_tex_size().x as int / self.spec_cell_dims().size.x as int,
                GRID_ATLAS_MAX_CELLS as int,
            ),
            self.spec_grid_size().y == vstd::math::min(
                self.spec_tex_size().y as int / self.spec_cell_dims().size.y as int,
                GRID_ATLAS_MAX_CELLS as int,
            ),
            0 <= self.spec_free_line() <= self.spec_grid_size().y,
            0 <= self.spec_free_column(),
            self.spec_free_column() < self.spec_grid_size().x || self.spec_free_column() == 1,
            self.spec_linear() >= 1,
            self.spec_grid_size().x > 1 || (self.spec_free_line() == 0 && self.spec_free_column()
                == 1),
            0 < self.spec_cell_dims().size.x <= 0x8000,
            0 < self.spec_cell_dims().size.y <= 0x8000,
            0 <= self.spec_cell_dims().offset.x <= 0x8000,
            0 <= self.spec_cell_dims().offset.y <= 0x8000,
            self.spec_grid_size().y <= GRID_ATLAS_MAX_CELLS,
            self.spec_grid_size().x <= GRID_ATLAS_MAX_CELLS,
    {
    }

    /// Attempt to insert a rasterized glyph at the write cursor.
    ///
    /// On success the glyph's pixels are blitted into the staging row at
    /// its cell offsets and the cursor advances by one cell, wrapping to
    /// the next line when the row fills; the finished row then moves to
    /// the pending uploads. A glyph whose offsets or size exceed the cell
    /// is rejected with `GlyphTooLarge` so the caller can fall back to a
    /// free atlas; a cursor past the last usable cell yields `Full`.
    pub fn insert(&mut self, g: &RasterizedGlyph) -> (r: Result<AtlasRefGrid, AtlasInsertError>)
        requires
            old(self).wf(),
            g.wf(),
        ensures
            final(self).wf(),
            final(self).spec_index() == old(self).spec_index(),
            final(self).spec_cell_dims() == old(self).spec_cell_dims(),
            final(self).spec_tex_size() == old(self).spec_tex_size(),
            final(self).spec_grid_size() == old(self).spec_grid_size(),
            match r {
                Result::Err(AtlasInsertError::Full) => !old(self).spec_has_space() && *final(self)
                    == *old(self),
                Result::Err(AtlasInsertError::GlyphTooLarge) => old(self).spec_has_space()
                    && !glyph_fits_cell(old(self).spec_cell_dims(), *g) && *final(self) == *old(
                    self,
                ),
                Result::Ok(p) => {
                    &&& old(self).spec_has_space()
                    &&& glyph_fits_cell(old(self).spec_cell_dims(), *g)
                    &&& p.line as int == old(self).spec_free_line()
                    &&& p.column as int == old(self).spec_free_column()
                    &&& !(p.line == 0 && p.column == 0)
                    &&& final(self).spec_linear() == old(self).spec_linear() + 1
                    &&& if old(self).spec_free_column() + 1 < old(self).spec_grid_size().x {
                        // The row still has room: cursor moves one column,
                        // the glyph is staged in place.
                        &&& final(self).spec_free_line() == old(self).spec_free_line()
                        &&& final(self).spec_free_column() == old(self).spec_free_column() + 1
                        &&& final(self).spec_committed_column() == old(
                            self,
                        ).spec_committed_column()
                        &&& final(self).spec_pending() == old(self).spec_pending()
                        &&& row_with_glyph(
                            final(self).spec_staging(),
                            old(self).spec_staging(),
                            old(self).spec_tex_size().x as int,
                            old(self).spec_cell_dims(),
                            *g,
                            old(self).spec_free_column(),
                        )
                    } else {
                        // The glyph filled the row: the staged row joins
                        // the pending uploads and the cursor wraps.
                        &&& final(self).spec_free_line() == old(self).spec_free_line() + 1
                        &&& final(self).spec_free_column() == 0
                        &&& final(self).spec_committed_column() == 0
                        &&& final(self).filling_all_zero()
                        &&& final(self).spec_pending().len() == old(self).spec_pending().len() + 1
                        &&& final(self).spec_pending().subrange(
                            0,
                            old(self).spec_pending().len() as int,
                        ) == old(self).spec_pending()
                        &&& final(self).spec_pending().last().y == old(self).spec_free_line() * old(
                            self,
                        ).spec_cell_dims().size.y
                        &&& row_with_glyph(
                            final(self).spec_pending().last().pixels@,
                            old(self).spec_staging(),
                            old(self).spec_tex_size().x as int,
                            old(self).spec_cell_dims(),
                            *g,
                            old(self).spec_free_column(),
                        )
                    }
                },
            },
    {
        if self.free_line >= self.grid_size.y || self.free_column >= self.grid_size.x {
            return Result::Err(AtlasInsertError::Full);
        }
        let line = self.free_line;
        let column = self.free_column;

        let off_x = self.cell_offset.x + g.left;
        let off_y = self.cell_size.y - self.cell_offset.y - g.top;

        if off_x < 0 || off_y < 0 || off_x + g.width > self.cell_size.x || off_y + g.height
            > self.cell_size.y {
            return Result::Err(AtlasInsertError::GlyphTooLarge);
        }
        proof {
            // The target cell's pixel span stays inside the staging row:
            // `(column + 1) * cell_w <= grid_w * cell_w <= tex_w`.
            vstd::arithmetic::div_mod::lemma_fundamental_div_mod(
                self.tex_size.x as int,
                self.cell_size.x as int,
            );
            vstd::arithmetic::mul::lemma_mul_inequality(
                column as int + 1,
                vstd::math::min(
                    self.tex_size.x as int / self.cell_size.x as int,
                    GRID_ATLAS_MAX_CELLS as int,
                ),
                self.cell_size.x as int,
            );
            vstd::arithmetic::mul::lemma_mul_inequality(
                vstd::math::min(
                    self.tex_size.x as int / self.cell_size.x as int,
                    GRID_ATLAS_MAX_CELLS as int,
                ),
                self.tex_size.x as int / self.cell_size.x as int,
                self.cell_size.x as int,
            );
            vstd::arithmetic::mul::lemma_mul_is_distributive_add_other_way(
                self.cell_size.x as int,
                column as int,
                1,
            );
            vstd::arithmetic::mul::lemma_mul_is_commutative(
                self.cell_size.x as int,
                self.tex_size.x as int / self.cell_size.x as int,
            );
        }
        let tex_x = off_x + column * self.cell_size.x;

        self.filling_line.blit(tex_x, off_y, self.cell_size.x, self.cell_size.y, g);

        self.free_column = self.free_column + 1;
        if self.free_column == self.grid_size.x {
            proof {
                vstd::arithmetic::mul::lemma_mul_upper_bound(
                    line as int,
                    256,
                    self.cell_size.y as int,
                    0x8000,
                );
                vstd::arithmetic::mul::lemma_mul_nonnegative(line as int, self.cell_size.y as int);
            }
            let row = LineUpload {
                y: line * self.cell_size.y,
                pixels: self.filling_line.snapshot(),
            };
            self.pending.push(row);
            self.filling_line.clear();
            self.committed_column = 0;
            self.free_column = 0;
            self.free_line = self.free_line + 1;
            proof {
                vstd::arithmetic::mul::lemma_mul_is_distributive_add_other_way(
                    self.grid_size.x as int,
                    line as int,
                    1,
                );
                vstd::arithmetic::mul::lemma_mul_inequality(
                    1,
                    line as int + 1,
                    self.grid_size.x as int,
                );
                assert(self.pending@.subrange(0, old(self).pending@.len() as int) =~= old(
                    self,
                ).pending@);
            }
        }

        proof {
            // The returned cell is never the reserved sentinel: the
            // cursor's row-major rank starts at 1 and only grows.
            assert(!(line == 0 && column == 0)) by {
                vstd::arithmetic::mul::lemma_mul_basics(old(self).spec_grid_size().x as int);
            }
        }
        Result::Ok(AtlasRefGrid { line: line as u16, column: column as u16 })
    }

    /// Take the completed rows that are ready for texture upload.
    pub fn take_pending_uploads(&mut self) -> (r: Vec<LineUpload>)
        requires
            old(self).wf(),
        ensures
            final(self).wf(),
            r@ == old(self).spec_pending(),
            final(self).spec_pending().len() == 0,
            final(self).spec_index() == old(self).spec_index(),
            final(self).spec_cell_dims() == old(self).spec_cell_dims(),
            final(self).spec_tex_size() == old(self).spec_tex_size(),
            final(self).spec_grid_size() == old(self).spec_grid_size(),
            final(self).spec_free_line() == old(self).spec_free_line(),
            final(self).spec_free_column() == old(self).spec_free_column(),
            final(self).spec_committed_column() == old(self).spec_committed_column(),
            final(self).spec_staging() == old(self).spec_staging(),
    {
        let mut taken: Vec<LineUpload> = Vec::new();
        core::mem::swap(&mut taken, &mut self.pending);
        taken
    }

    /// Hand out the partially filled current row for upload, if any glyph
    /// was staged since the last call; the returned row spans the full
    /// texture width at the write cursor's line.
    pub fn commit_current_line(&mut self) -> (r: Option<LineUpload>)
        requires
            old(self).wf(),
        ensures
            final(self).wf(),
            final(self).spec_index() == old(self).spec_index(),
            final(self).spec_cell_dims() == old(self).spec_cell_dims(),
            final(self).spec_tex_size() == old(self).spec_tex_size(),
            final(self).spec_grid_size() == old(self).spec_grid_size(),
            final(self).spec_free_line() == old(self).spec_free_line(),
            final(self).spec_free_column() == old(self).spec_free_column(),
            final(self).spec_pending() == old(self).spec_pending(),
            final(self).spec_staging() == old(self).spec_staging(),
            match r {
                Option::None => old(self).spec_committed_column() == old(self).spec_free_column()
                    && *final(self) == *old(self),
                Option::Some(row) => {
                    &&& old(self).spec_committed_column() != old(self).spec_free_column()
                    &&& row.y == old(self).spec_free_line() * old(self).spec_cell_dims().size.y
                    &&& row.pixels@ == old(self).spec_staging()
                    &&& final(self).spec_committed_column() == final(self).spec_free_column()
                },
            },
    {
        if self.free_column == self.committed_column {
            return Option::None;
        }
        proof {
            vstd::arithmetic::mul::lemma_mul_upper_bound(
                self.free_line as int,
                256,
                self.cell_size.y as int,
                0x8000,
            );
            vstd::arithmetic::mul::lemma_mul_nonnegative(
                self.free_line as int,
                self.cell_size.y as int,
            );
        }
        let row = LineUpload {
            y: self.free_line * self.cell_size.y,
            pixels: self.filling_line.snapshot(),
        };
        self.committed_column = self.free_column;
        Option::Some(row)
    }
}

} // verus!
