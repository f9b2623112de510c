//! The screen compositor: grid-based glyph rendering.
//!
//! The compositor owns an ordered list of passes, each pairing one grid
//! atlas with a screen-sized buffer of per-cell glyph references, plus
//! shared per-cell foreground and background color buffers. Each frame,
//! cells write their colors and glyph references into the buffers; the
//! GPU layer then uploads the buffers and composites the whole screen in
//! one draw per pass. A zero glyph reference is the "no glyph" sentinel,
//! which insertion never produces.

use vstd::prelude::*;

use crate::atlas::{
    glyph_fits_cell, AtlasInsertError, CellDims, GridAtlas, LineUpload, GRID_ATLAS_MAX_CELLS,
    GRID_ATLAS_SIZE,
};
use crate::cell::RenderableCell;
use crate::geom::Vec2i;
use crate::glyph::{AtlasRef, AtlasRefGrid, Glyph, RasterizedGlyph, Rgb, Rgba};

verus! {

/// Per-cell glyph reference as the reference texture stores it: atlas
/// column, atlas line, colored flag, one spare byte. All zero means "no
/// glyph here".
#[derive(Clone, Copy, Debug, PartialEq, Eq, Structural)]
pub struct GlyphRef {
    pub x: u8,
    pub y: u8,
    pub z: u8,
    pub w: u8,
}

impl GlyphRef {
    /// The reserved sentinel: decodes as "no glyph".
    pub fn empty() -> (r: GlyphRef)
        ensures
            r == GlyphRef::spec_empty(),
    {
        GlyphRef { x: 0, y: 0, z: 0, w: 0 }
    }

    pub open spec fn spec_empty() -> GlyphRef {
        GlyphRef { x: 0, y: 0, z: 0, w: 0 }
    }
}

/// The cursor's overlay record: which pass draws it, the screen cell it
/// sits on, its glyph's atlas cell, and its color.
#[derive(Clone, Copy, Debug, PartialEq, Eq, Structural)]
pub struct CursorRef {
    pub atlas_index: usize,
    pub cell: Vec2i,
    pub glyph: Vec2i,
    pub color: Rgb,
}

/// Set a vector to length `n`, keeping the overlapping prefix and filling
/// any growth with `fill`.
fn resize_filled<T: Copy>(v: &mut Vec<T>, n: usize, fill: T)
    ensures
        final(v).len() == n,
        forall|i: int| 0 <= i < n && i < old(v).len() ==> final(v)[i] == old(v)[i],
        forall|i: int| old(v).len() <= i < n ==> final(v)[i] == fill,
{
    v.truncate(n);
    while v.len() < n
        invariant
            v.len() <= n,
            old(v).len() <= v.len() || v.len() == n,
            forall|i: int| 0 <= i < v.len() && i < old(v).len() ==> v[i] == old(v)[i],
            forall|i: int| old(v).len() <= i < v.len() ==> v[i] == fill,
        decreases n - v.len(),
    {
        v.push(fill);
    }
}

/// Overwrite every element of a vector with `fill`.
fn fill_all<T: Copy>(v: &mut Vec<T>, fill: T)
    ensures
        final(v).len() == old(v).len(),
        forall|i: int| 0 <= i < final(v).len() ==> final(v)[i] == fill,
{
    let n: usize = v.len();
    let mut i: usize = 0;
    while i < n
        invariant
            n == v.len(),
            i <= n,
            forall|j: int| 0 <= j < i ==> v[j] == fill,
        decreases n - i,
    {
        v.set(i, fill);
        i = i + 1;
    }
}

/// One compositor pass: a grid atlas plus a screen-sized buffer of glyph
/// references into that atlas.
pub struct Grid {
    atlas: GridAtlas,
    /// Screen worth of glyph references, row-major.
    glyphs: Vec<GlyphRef>,
    /// Whether the reference buffer changed since the last upload.
    dirty: bool,
}

impl Grid {
    pub closed spec fn spec_atlas(self) -> GridAtlas {
        self.atlas
    }

    pub closed spec fn spec_glyphs(self) -> Seq<GlyphRef> {
        self.glyphs@
    }

    pub closed spec fn spec_dirty(self) -> bool {
        self.dirty
    }

    /// A fresh pass: a new atlas and an all-sentinel reference buffer for
    /// `columns * lines` cells.
    pub fn new(index: usize, columns: usize, lines: usize, cell_size: Vec2i, cell_offset: Vec2i)
        -> (r: Grid)
        requires
            0 < cell_size.x <= 0x8000,
            0 < cell_size.y <= 0x8000,
            0 <= cell_offset.x <= 0x8000,
            0 <= cell_offset.y <= 0x8000,
            columns <= 0x8000,
            lines <= 0x8000,
        ensures
            r.spec_atlas().wf(),
            r.spec_atlas().spec_index() == index,
            r.spec_atlas().spec_cell_dims() == (CellDims { size: cell_size, offset: cell_offset }),
            r.spec_atlas().spec_tex_size() == (Vec2i { x: GRID_ATLAS_SIZE, y: GRID_ATLAS_SIZE }),
            r.spec_atlas().spec_free_line() == 0,
            r.spec_atlas().spec_free_column() == 1,
            r.spec_atlas().spec_pending().len() == 0,
            r.spec_glyphs().len() == columns * lines,
            forall|i: int| 0 <= i < r.spec_glyphs().len() ==> r.spec_glyphs()[i]
                == GlyphRef::spec_empty(),
            !r.spec_dirty(),
    {
        proof {
            vstd::arithmetic::mul::lemma_mul_upper_bound(
                columns as int,
                0x8000,
                lines as int,
                0x8000,
            );
            vstd::arithmetic::mul::lemma_mul_nonnegative(columns as int, lines as int);
        }
        let cells: usize = columns * lines;
        let mut glyphs: Vec<GlyphRef> = Vec::new();
        resize_filled(&mut glyphs, cells, GlyphRef::empty());
        Grid { atlas: GridAtlas::new(index, cell_size, cell_offset), glyphs, dirty: false }
    }

    /// Reallocate the reference buffer for a new screen size, keeping
    /// overlapping content.
    pub fn resize(&mut self, columns: usize, lines: usize)
        requires
            columns <= 0x8000,
            lines <= 0x8000,
        ensures
            final(self).spec_atlas() == old(self).spec_atlas(),
            final(self).spec_dirty() == old(self).spec_dirty(),
            final(self).spec_glyphs().len() == columns * lines,
            forall|i: int|
                0 <= i < columns * lines && i < old(self).spec_glyphs().len() ==> final(self).spec_glyphs()[i] == old(self).spec_glyphs()[i],
            forall|i: int|
                old(self).spec_glyphs().len() <= i < columns * lines ==> final(self).spec_glyphs()[i] == GlyphRef::spec_empty(),
    {
        proof {
            vstd::arithmetic::mul::lemma_mul_upper_bound(
                columns as int,
                0x8000,
                lines as int,
                0x8000,
            );
            vstd::arithmetic::mul::lemma_mul_nonnegative(columns as int, lines as int);
        }
        let cells: usize = columns * lines;
        resize_filled(&mut self.glyphs, cells, GlyphRef::empty());
    }

    /// Reset every cell's reference to the "no glyph" sentinel.
    pub fn clear(&mut self)
        ensures
            final(self).spec_atlas() == old(self).spec_atlas(),
            final(self).spec_glyphs().len() == old(self).spec_glyphs().len(),
            forall|i: int|
                0 <= i < final(self).spec_glyphs().len() ==> final(self).spec_glyphs()[i]
                    == GlyphRef::spec_empty(),
            !final(self).spec_dirty(),
    {
        fill_all(&mut self.glyphs, GlyphRef::empty());
        self.dirty = false;
    }
}

/// A fresh grid atlas with this cell geometry can hold at least one
/// glyph: the grid derived from the standard texture size has at least
/// one usable line, and a column besides the reserved sentinel column.
pub open spec fn grid_geometry_usable(d: CellDims) -> bool {
    &&& vstd::math::min(GRID_ATLAS_SIZE as int / d.size.x as int, GRID_ATLAS_MAX_CELLS as int) > 1
    &&& vstd::math::min(GRID_ATLAS_SIZE as int / d.size.y as int, GRID_ATLAS_MAX_CELLS as int) > 0
}

/// The grid-based glyph renderer: passes of grid atlases plus the shared
/// per-cell color buffers for the whole screen.
pub struct GridGlyphRenderer {
    /// Screen size in cells.
    columns: usize,
    lines: usize,
    /// Grid cell metrics, shared by every pass's atlas.
    cell_size: Vec2i,
    cell_offset: Vec2i,
    /// Per-cell foreground colors, row-major.
    screen_colors_fg: Vec<Rgb>,
    /// Per-cell background colors with alpha, row-major.
    screen_colors_bg: Vec<Rgba>,
    /// Alpha applied to cells with the default background.
    bg_alpha: u8,
    /// The cursor overlay, at most one per frame.
    cursor: Option<CursorRef>,
    /// The passes, each one grid atlas plus its reference buffer.
    grids: Vec<Grid>,
}

impl GridGlyphRenderer {
    /// The cell geometry every pass's atlas is built with.
    pub closed spec fn spec_cell_dims(self) -> CellDims {
        CellDims { size: self.cell_size, offset: self.cell_offset }
    }

    pub closed spec fn spec_columns(self) -> int {
        self.columns as int
    }

    pub closed spec fn spec_lines(self) -> int {
        self.lines as int
    }

    pub closed spec fn spec_bg_alpha(self) -> u8 {
        self.bg_alpha
    }

    pub closed spec fn spec_fg(self) -> Seq<Rgb> {
        self.screen_colors_fg@
    }

    pub closed spec fn spec_bg(self) -> Seq<Rgba> {
        self.screen_colors_bg@
    }

    pub closed spec fn spec_cursor(self) -> Option<CursorRef> {
        self.cursor
    }

    pub closed spec fn spec_pass_count(self) -> int {
        self.grids@.len() as int
    }

    pub closed spec fn spec_pass(self, i: int) -> Grid {
        self.grids@[i]
    }

    /// The cell geometry is established and within bounds.
    pub open spec fn spec_geometry_ok(self) -> bool {
        &&& 0 < self.spec_cell_dims().size.x <= 0x8000
        &&& 0 < self.spec_cell_dims().size.y <= 0x8000
        &&& 0 <= self.spec_cell_dims().offset.x <= 0x8000
        &&& 0 <= self.spec_cell_dims().offset.y <= 0x8000
    }

    /// Number of screen cells.
    pub open spec fn spec_cells(self) -> int {
        self.spec_columns() * self.spec_lines()
    }

    /// The screen size is bounded, the color buffers cover the screen
    /// exactly, and every pass is consistent: its atlas is well formed,
    /// numbered by its position, built with the shared cell geometry over
    /// the standard texture, and its reference buffer covers the screen.
    pub open spec fn wf(self) -> bool {
        &&& self.spec_columns() <= 0x8000
        &&& self.spec_lines() <= 0x8000
        &&& self.spec_fg().len() == self.spec_cells()
        &&& self.spec_bg().len() == self.spec_cells()
        &&& (self.spec_pass_count() > 0 ==> self.spec_geometry_ok())
        &&& forall|i: int|
            0 <= i < self.spec_pass_count() ==> {
                let p = #[trigger] self.spec_pass(i);
                &&& p.spec_atlas().wf()
                &&& p.spec_atlas().spec_index() == i
                &&& p.spec_atlas().spec_cell_dims() == self.spec_cell_dims()
                &&& p.spec_atlas().spec_tex_size() == (Vec2i {
                    x: GRID_ATLAS_SIZE,
                    y: GRID_ATLAS_SIZE,
                })
                &&& p.spec_glyphs().len() == self.spec_cells()
            }
    }

    /// A renderer with no screen, no geometry and no passes; the glyph
    /// cache establishes cell geometry before any glyph is loaded.
    pub fn new() -> (r: GridGlyphRenderer)
        ensures
            r.wf(),
            r.spec_columns() == 0,
            r.spec_lines() == 0,
            r.spec_pass_count() == 0,
            r.spec_cursor() is None,
            r.spec_bg_alpha() == 255,
    {
        proof {
            vstd::arithmetic::mul::lemma_mul_basics(0int);
        }
        GridGlyphRenderer {
            columns: 0,
            lines: 0,
            cell_size: Vec2i { x: 0, y: 0 },
            cell_offset: Vec2i { x: 0, y: 0 },
            screen_colors_fg: Vec::new(),
            screen_colors_bg: Vec::new(),
            bg_alpha: 255,
            cursor: None,
            grids: Vec::new(),
        }
    }

    /// Reallocate all per-cell buffers for a new screen size, keeping
    /// overlapping content; every pass's reference buffer follows.
    pub fn resize(&mut self, columns: usize, lines: usize)
        requires
            old(self).wf(),
            columns <= 0x8000,
            lines <= 0x8000,
        ensures
            final(self).wf(),
            final(self).spec_columns() == columns,
            final(self).spec_lines() == lines,
            final(self).spec_fg().len() == columns * lines,
            final(self).spec_bg().len() == columns * lines,
            final(self).spec_cell_dims() == old(self).spec_cell_dims(),
            final(self).spec_bg_alpha() == old(self).spec_bg_alpha(),
            final(self).spec_cursor() == old(self).spec_cursor(),
            final(self).spec_pass_count() == old(self).spec_pass_count(),
            forall|i: int|
                0 <= i < old(self).spec_pass_count() ==> (#[trigger] final(self).spec_pass(
                    i,
                )).spec_atlas() == old(self).spec_pass(i).spec_atlas(),
            forall|i: int|
                0 <= i < old(self).spec_pass_count() ==> (#[trigger] final(self).spec_pass(
                    i,
                )).spec_glyphs().len() == columns * lines,
    {
        proof {
            vstd::arithmetic::mul::lemma_mul_upper_bound(
                columns as int,
                0x8000,
                lines as int,
                0x8000,
            );
            vstd::arithmetic::mul::lemma_mul_nonnegative(columns as int, lines as int);
        }
        self.columns = columns;
        self.lines = lines;
        let cells: usize = columns * lines;
        resize_filled(&mut self.screen_colors_bg, cells, Rgba { r: 0, g: 0, b: 0, a: 0 });
        resize_filled(&mut self.screen_colors_fg, cells, Rgb { r: 0, g: 0, b: 0 });

        let n: usize = self.grids.len();
        let mut i: usize = 0;
        while i < n
            invariant
                n == self.grids.len(),
                i <= n,
                columns <= 0x8000,
                lines <= 0x8000,
                self.columns == columns,
                self.lines == lines,
                self.cell_size == old(self).cell_size,
                self.cell_offset == old(self).cell_offset,
                self.bg_alpha == old(self).bg_alpha,
                self.cursor == old(self).cursor,
                self.screen_colors_fg.len() == columns * lines,
                self.screen_colors_bg.len() == columns * lines,
                forall|j: int|
                    0 <= j < n ==> (#[trigger] self.grids@[j]).spec_atlas() == old(
                        self,
                    ).grids@[j].spec_atlas(),
                forall|j: int|
                    0 <= j < n ==> (#[trigger] self.grids@[j]).spec_dirty() == old(
                        self,
                    ).grids@[j].spec_dirty(),
                forall|j: int|
                    0 <= j < i ==> (#[trigger] self.grids@[j]).spec_glyphs().len() == columns
                        * lines,
                forall|j: int|
                    i <= j < n ==> (#[trigger] self.grids@[j]).spec_glyphs() == old(
                        self,
                    ).grids@[j].spec_glyphs(),
            decreases n - i,
        {
            let g = &mut self.grids[i];
            g.resize(columns, lines);
            i = i + 1;
        }
        proof {
            assert forall|j: int| 0 <= j < self.spec_pass_count() implies {
                let p = #[trigger] self.spec_pass(j);
                &&& p.spec_atlas().wf()
                &&& p.spec_atlas().spec_index() == j
                &&& p.spec_atlas().spec_cell_dims() == self.spec_cell_dims()
                &&& p.spec_atlas().spec_tex_size() == (Vec2i {
                    x: GRID_ATLAS_SIZE,
                    y: GRID_ATLAS_SIZE,
                })
                &&& p.spec_glyphs().len() == self.spec_cells()
            } by {
                assert(old(self).spec_pass(j).spec_atlas().wf());
                assert(self.grids@[j].spec_atlas() == old(self).grids@[j].spec_atlas());
            }
        }
    }

    /// Start a frame: reset every pass's reference buffer to the "no
    /// glyph" sentinel, drop the cursor, paint the whole background with
    /// the default color at the given opacity, and black out the
    /// foreground buffer.
    pub fn clear(&mut self, color: Rgb, background_alpha: u8)
        requires
            old(self).wf(),
        ensures
            final(self).wf(),
            final(self).spec_columns() == old(self).spec_columns(),
            final(self).spec_lines() == old(self).spec_lines(),
            final(self).spec_cell_dims() == old(self).spec_cell_dims(),
            final(self).spec_pass_count() == old(self).spec_pass_count(),
            final(self).spec_bg_alpha() == background_alpha,
            final(self).spec_cursor() is None,
            final(self).spec_fg().len() == old(self).spec_fg().len(),
            final(self).spec_bg().len() == old(self).spec_bg().len(),
            forall|i: int|
                0 <= i < final(self).spec_bg().len() ==> final(self).spec_bg()[i] == (Rgba {
                    r: color.r,
                    g: color.g,
                    b: color.b,
                    a: background_alpha,
                }),
            forall|i: int|
                0 <= i < final(self).spec_fg().len() ==> final(self).spec_fg()[i] == (Rgb {
                    r: 0,
                    g: 0,
                    b: 0,
                }),
            forall|i: int|
                0 <= i < old(self).spec_pass_count() ==> (#[trigger] final(self).spec_pass(
                    i,
                )).spec_atlas() == old(self).spec_pass(i).spec_atlas(),
            forall|i: int, j: int|
                0 <= i < final(self).spec_pass_count() && 0 <= j < final(self).spec_pass(
                    i,
                ).spec_glyphs().len() ==> #[trigger] final(self).spec_pass(i).spec_glyphs()[j]
                    == GlyphRef::spec_empty(),
            forall|i: int|
                0 <= i < final(self).spec_pass_count() ==> !(#[trigger] final(self).spec_pass(
                    i,
                )).spec_dirty(),
    {
        let n: usize = self.grids.len();
        let mut i: usize = 0;
        while i < n
            invariant
                n == self.grids.len(),
                i <= n,
                self.columns == old(self).columns,
                self.lines == old(self).lines,
                self.cell_size == old(self).cell_size,
                self.cell_offset == old(self).cell_offset,
                self.screen_colors_fg@ == old(self).screen_colors_fg@,
                self.screen_colors_bg@ == old(self).screen_colors_bg@,
                forall|j: int|
                    0 <= j < n ==> (#[trigger] self.grids@[j]).spec_atlas() == old(
                        self,
                    ).grids@[j].spec_atlas(),
                forall|j: int|
                    0 <= j < n ==> (#[trigger] self.grids@[j]).spec_glyphs().len() == old(
                        self,
                    ).grids@[j].spec_glyphs().len(),
                forall|j: int, k: int|
                    0 <= j < i && 0 <= k < self.grids@[j].spec_glyphs().len()
                        ==> #[trigger] self.grids@[j].spec_glyphs()[k] == GlyphRef::spec_empty(),
                forall|j: int| 0 <= j < i ==> !(#[trigger] self.grids@[j]).spec_dirty(),
            decreases n - i,
        {
            let g = &mut self.grids[i];
            g.clear();
            i = i + 1;
        }
        self.cursor = None;
        self.bg_alpha = background_alpha;
        fill_all(
            &mut self.screen_colors_bg,
            Rgba { r: color.r, g: color.g, b: color.b, a: background_alpha },
        );
        fill_all(&mut self.screen_colors_fg, Rgb { r: 0, g: 0, b: 0 });
        proof {
            assert forall|j: int| 0 <= j < self.spec_pass_count() implies {
                let p = #[trigger] self.spec_pass(j);
                &&& p.spec_atlas().wf()
                &&& p.spec_atlas().spec_index() == j
                &&& p.spec_atlas().spec_cell_dims() == self.spec_cell_dims()
                &&& p.spec_atlas().spec_tex_size() == (Vec2i {
                    x: GRID_ATLAS_SIZE,
                    y: GRID_ATLAS_SIZE,
                })
                &&& p.spec_glyphs().len() == self.spec_cells()
            } by {
                assert(old(self).spec_pass(j).spec_atlas().wf());
                assert(self.grids@[j].spec_atlas() == old(self).grids@[j].spec_atlas());
            }
        }
    }

    /// Adopt a new cell geometry and drop every pass; the next glyph load
    /// starts a fresh atlas. Called when font, size or DPI change.
    pub fn clear_atlas(&mut self, cell_size: Vec2i, cell_offset: Vec2i)
        requires
            old(self).wf(),
            0 < cell_size.x <= 0x8000,
            0 < cell_size.y <= 0x8000,
            0 <= cell_offset.x <= 0x8000,
            0 <= cell_offset.y <= 0x8000,
        ensures
            final(self).wf(),
            final(self).spec_cell_dims() == (CellDims { size: cell_size, offset: cell_offset }),
            final(self).spec_pass_count() == 0,
            final(self).spec_columns() == old(self).spec_columns(),
            final(self).spec_lines() == old(self).spec_lines(),
            final(self).spec_fg() == old(self).spec_fg(),
            final(self).spec_bg() == old(self).spec_bg(),
            final(self).spec_bg_alpha() == old(self).spec_bg_alpha(),
            final(self).spec_cursor() == old(self).spec_cursor(),
    {
        self.cell_size = cell_size;
        self.cell_offset = cell_offset;
        self.grids.clear();
    }

    /// Append a fresh pass.
    fn add_new_pass(&mut self)
        requires
            old(self).wf(),
            old(self).spec_geometry_ok(),
        ensures
            final(self).wf(),
            final(self).spec_pass_count() == old(self).spec_pass_count() + 1,
            final(self).spec_columns() == old(self).spec_columns(),
            final(self).spec_lines() == old(self).spec_lines(),
            final(self).spec_cell_dims() == old(self).spec_cell_dims(),
            final(self).spec_bg_alpha() == old(self).spec_bg_alpha(),
            final(self).spec_cursor() == old(self).spec_cursor(),
            final(self).spec_fg() == old(self).spec_fg(),
            final(self).spec_bg() == old(self).spec_bg(),
            forall|i: int|
                0 <= i < old(self).spec_pass_count() ==> #[trigger] final(self).spec_pass(i) == old(
                    self,
                ).spec_pass(i),
            final(self).spec_pass(old(self).spec_pass_count()).spec_atlas().spec_free_line() == 0,
            final(self).spec_pass(old(self).spec_pass_count()).spec_atlas().spec_free_column()
                == 1,
            final(self).spec_pass(old(self).spec_pass_count()).spec_atlas().spec_pending().len()
                == 0,
            !final(self).spec_pass(old(self).spec_pass_count()).spec_dirty(),
            forall|j: int|
                0 <= j < final(self).spec_pass(old(self).spec_pass_count()).spec_glyphs().len()
                    ==> #[trigger] final(self).spec_pass(old(self).spec_pass_count()).spec_glyphs()[j]
                    == GlyphRef::spec_empty(),
    {
        let index = self.grids.len();
        let g = Grid::new(index, self.columns, self.lines, self.cell_size, self.cell_offset);
        self.grids.push(g);
        proof {
            assert forall|j: int| 0 <= j < self.spec_pass_count() implies {
                let p = #[trigger] self.spec_pass(j);
                &&& p.spec_atlas().wf()
                &&& p.spec_atlas().spec_index() == j
                &&& p.spec_atlas().spec_cell_dims() == self.spec_cell_dims()
                &&& p.spec_atlas().spec_tex_size() == (Vec2i {
                    x: GRID_ATLAS_SIZE,
                    y: GRID_ATLAS_SIZE,
                })
                &&& p.spec_glyphs().len() == self.spec_cells()
            } by {
                if j < old(self).spec_pass_count() {
                    assert(self.spec_pass(j) == old(self).spec_pass(j));
                    assert(old(self).spec_pass(j).spec_atlas().wf());
                }
            }
        }
    }

    /// How many passes the compositor currently holds.
    pub fn pass_count(&self) -> (r: usize)
        ensures
            r == self.spec_pass_count(),
    {
        self.grids.len()
    }

    /// The screen size in cells.
    pub fn size(&self) -> (r: (usize, usize))
        ensures
            r.0 == self.spec_columns(),
            r.1 == self.spec_lines(),
    {
        (self.columns, self.lines)
    }

    /// The per-cell foreground colors, for upload.
    pub fn fg_colors(&self) -> (r: &Vec<Rgb>)
        ensures
            r@ == self.spec_fg(),
    {
        &self.screen_colors_fg
    }

    /// The per-cell background colors, for upload.
    pub fn bg_colors(&self) -> (r: &Vec<Rgba>)
        ensures
            r@ == self.spec_bg(),
    {
        &self.screen_colors_bg
    }

    /// One pass's per-cell glyph references, for upload.
    pub fn pass_glyph_refs(&self, i: usize) -> (r: &Vec<GlyphRef>)
        requires
            i < self.spec_pass_count(),
        ensures
            r@ == self.spec_pass(i as int).spec_glyphs(),
    {
        &self.grids[i].glyphs
    }

    /// Whether a pass's reference buffer changed since the frame started.
    pub fn pass_dirty(&self, i: usize) -> (r: bool)
        requires
            i < self.spec_pass_count(),
        ensures
            r == self.spec_pass(i as int).spec_dirty(),
    {
        self.grids[i].dirty
    }

    /// The shared cell dimensions every pass's atlas is built with.
    pub fn cell_dims(&self) -> (r: CellDims)
        ensures
            r == self.spec_cell_dims(),
    {
        CellDims { size: self.cell_size, offset: self.cell_offset }
    }

    /// One pass's cell dimensions, for the shader's atlas addressing.
    pub fn pass_cell_dims(&self, i: usize) -> (r: CellDims)
        requires
            self.wf(),
            i < self.spec_pass_count(),
        ensures
            r == self.spec_cell_dims(),
    {
        proof {
            assert(self.spec_pass(i as int).spec_atlas().spec_cell_dims()
                == self.spec_cell_dims());
        }
        self.grids[i].atlas.cell_dims()
    }

    /// The cursor overlay recorded for this frame, if any.
    pub fn cursor_ref(&self) -> (r: Option<CursorRef>)
        ensures
            r == self.spec_cursor(),
    {
        self.cursor
    }

    /// Take a pass's finished atlas rows for texture upload: exactly the
    /// pending rows, oldest first; everything else — every other pass,
    /// this pass's buffers and write cursor, the color buffers — stays
    /// untouched.
    pub fn take_pass_uploads(&mut self, i: usize) -> (r: Vec<LineUpload>)
        requires
            old(self).wf(),
            i < old(self).spec_pass_count(),
        ensures
            final(self).wf(),
            r@ == old(self).spec_pass(i as int).spec_atlas().spec_pending(),
            final(self).spec_pass(i as int).spec_atlas().spec_pending().len() == 0,
            final(self).spec_pass_count() == old(self).spec_pass_count(),
            final(self).spec_columns() == old(self).spec_columns(),
            final(self).spec_lines() == old(self).spec_lines(),
            final(self).spec_cell_dims() == old(self).spec_cell_dims(),
            final(self).spec_bg_alpha() == old(self).spec_bg_alpha(),
            final(self).spec_fg() == old(self).spec_fg(),
            final(self).spec_bg() == old(self).spec_bg(),
            final(self).spec_cursor() == old(self).spec_cursor(),
            forall|j: int|
                0 <= j < old(self).spec_pass_count() && j != i ==> #[trigger] final(self).spec_pass(
                    j,
                ) == old(self).spec_pass(j),
            final(self).spec_pass(i as int).spec_glyphs() == old(self).spec_pass(
                i as int,
            ).spec_glyphs(),
            final(self).spec_pass(i as int).spec_dirty() == old(self).spec_pass(
                i as int,
            ).spec_dirty(),
            ({
                let a = final(self).spec_pass(i as int).spec_atlas();
                let b = old(self).spec_pass(i as int).spec_atlas();
                &&& a.spec_free_line() == b.spec_free_line()
                &&& a.spec_free_column() == b.spec_free_column()
                &&& a.spec_committed_column() == b.spec_committed_column()
                &&& a.spec_staging() == b.spec_staging()
            }),
    {
        proof {
            assert(self.spec_pass(i as int).spec_atlas().wf());
        }
        let g = &mut self.grids[i];
        let r = g.atlas.take_pending_uploads();
        proof {
            lemma_wf_after_pass_update(*old(self), *self, i as int);
            assert forall|j: int|
                0 <= j < old(self).spec_pass_count() && j != i implies #[trigger] self.spec_pass(j)
                == old(self).spec_pass(j) by {
                assert(self.grids@[j] == old(self).grids@[j]);
            }
        }
        r
    }

    /// Hand out a pass's partially filled atlas row for upload, if it
    /// changed since the last call: the row is the pass's current staging
    /// contents at the write cursor's line; everything but the upload
    /// bookkeeping stays untouched.
    pub fn commit_pass_line(&mut self, i: usize) -> (r: Option<LineUpload>)
        requires
            old(self).wf(),
            i < old(self).spec_pass_count(),
        ensures
            final(self).wf(),
            final(self).spec_pass_count() == old(self).spec_pass_count(),
            final(self).spec_columns() == old(self).spec_columns(),
            final(self).spec_lines() == old(self).spec_lines(),
            final(self).spec_cell_dims() == old(self).spec_cell_dims(),
            final(self).spec_bg_alpha() == old(self).spec_bg_alpha(),
            final(self).spec_fg() == old(self).spec_fg(),
            final(self).spec_bg() == old(self).spec_bg(),
            final(self).spec_cursor() == old(self).spec_cursor(),
            forall|j: int|
                0 <= j < old(self).spec_pass_count() && j != i ==> #[trigger] final(self).spec_pass(
                    j,
                ) == old(self).spec_pass(j),
            final(self).spec_pass(i as int).spec_glyphs() == old(self).spec_pass(
                i as int,
            ).spec_glyphs(),
            final(self).spec_pass(i as int).spec_atlas().spec_pending() == old(self).spec_pass(
                i as int,
            ).spec_atlas().spec_pending(),
            final(self).spec_pass(i as int).spec_atlas().spec_staging() == old(self).spec_pass(
                i as int,
            ).spec_atlas().spec_staging(),
            final(self).spec_pass(i as int).spec_atlas().spec_free_line() == old(self).spec_pass(
                i as int,
            ).spec_atlas().spec_free_line(),
            final(self).spec_pass(i as int).spec_atlas().spec_free_column() == old(self).spec_pass(
                i as int,
            ).spec_atlas().spec_free_column(),
            final(self).spec_pass(i as int).spec_dirty() == old(self).spec_pass(
                i as int,
            ).spec_dirty(),
            match r {
                Option::None => {
                    &&& old(self).spec_pass(i as int).spec_atlas().spec_committed_column() == old(
                        self,
                    ).spec_pass(i as int).spec_atlas().spec_free_column()
                    &&& final(self).spec_pass(i as int).spec_atlas().spec_committed_column() == old(
                        self,
                    ).spec_pass(i as int).spec_atlas().spec_committed_column()
                },
                Option::Some(row) => {
                    let a = old(self).spec_pass(i as int).spec_atlas();
                    &&& a.spec_committed_column() != a.spec_free_column()
                    &&& row.y == a.spec_free_line() * a.spec_cell_dims().size.y
                    &&& row.pixels@ == a.spec_staging()
                    &&& final(self).spec_pass(i as int).spec_atlas().spec_committed_column()
                        == final(self).spec_pass(i as int).spec_atlas().spec_free_column()
                },
            },
    {
        proof {
            assert(self.spec_pass(i as int).spec_atlas().wf());
        }
        let g = &mut self.grids[i];
        let r = g.atlas.commit_current_line();
        proof {
            lemma_wf_after_pass_update(*old(self), *self, i as int);
            assert forall|j: int|
                0 <= j < old(self).spec_pass_count() && j != i implies #[trigger] self.spec_pass(j)
                == old(self).spec_pass(j) by {
                assert(self.grids@[j] == old(self).grids@[j]);
            }
        }
        r
    }

    /// Record the cursor overlay for this frame.
    pub fn set_cursor(
        &mut self,
        atlas_index: usize,
        column: i32,
        line: i32,
        glyph_x: i32,
        glyph_y: i32,
        color: Rgb,
    )
        requires
            old(self).wf(),
            atlas_index < old(self).spec_pass_count(),
        ensures
            final(self).wf(),
            final(self).spec_cursor() == Some(
                CursorRef {
                    atlas_index,
                    cell: Vec2i { x: column, y: line },
                    glyph: Vec2i { x: glyph_x, y: glyph_y },
                    color,
                },
            ),
            final(self).spec_bg_alpha() == old(self).spec_bg_alpha(),
            final(self).spec_pass_count() == old(self).spec_pass_count(),
            final(self).spec_columns() == old(self).spec_columns(),
            final(self).spec_lines() == old(self).spec_lines(),
            final(self).spec_cell_dims() == old(self).spec_cell_dims(),
            final(self).spec_fg() == old(self).spec_fg(),
            final(self).spec_bg() == old(self).spec_bg(),
            forall|i: int|
                0 <= i < old(self).spec_pass_count() ==> (#[trigger] final(self).spec_pass(
                    i,
                )).spec_atlas() == old(self).spec_pass(i).spec_atlas() && final(self).spec_pass(
                    i,
                ).spec_glyphs() == old(self).spec_pass(i).spec_glyphs(),
            final(self).spec_pass(atlas_index as int).spec_dirty(),
    {
        self.cursor = Some(
            CursorRef {
                atlas_index,
                cell: Vec2i { x: column, y: line },
                glyph: Vec2i { x: glyph_x, y: glyph_y },
                color,
            },
        );
        let g = &mut self.grids[atlas_index];
        g.dirty = true;
        proof {
            assert(old(self).spec_pass(atlas_index as int).spec_atlas().wf());
            lemma_wf_after_pass_update(*old(self), *self, atlas_index as int);
        }
    }

    /// Load a glyph into the grid scheme.
    ///
    /// Wide and zero-width glyphs are not grid material; a glyph that
    /// does not fit one cell is left to the free atlas; otherwise the
    /// glyph lands in the last pass, or in a fresh pass when that one is
    /// full. `None` means the caller must fall back to the free atlas.
    pub fn load_glyph(&mut self, g: &RasterizedGlyph) -> (r: Option<Glyph>)
        requires
            old(self).wf(),
            old(self).spec_geometry_ok(),
            g.wf(),
        ensures
            final(self).wf(),
            final(self).spec_columns() == old(self).spec_columns(),
            final(self).spec_lines() == old(self).spec_lines(),
            final(self).spec_cell_dims() == old(self).spec_cell_dims(),
            final(self).spec_fg() == old(self).spec_fg(),
            final(self).spec_bg() == old(self).spec_bg(),
            final(self).spec_cursor() == old(self).spec_cursor(),
            final(self).spec_pass_count() >= old(self).spec_pass_count(),
            r is None <==> (g.wide || g.zero_width || !glyph_fits_cell(
                old(self).spec_cell_dims(),
                *g,
            ) || !grid_geometry_usable(old(self).spec_cell_dims())),
            match r {
                Option::None => true,
                Option::Some(glyph) => {
                    &&& glyph.colored == g.spec_colored()
                    &&& glyph.atlas_index == final(self).spec_pass_count() - 1
                    &&& glyph.atlas_ref matches AtlasRef::Grid(p)
                    &&& glyph.atlas_ref matches AtlasRef::Grid(p) ==> {
                        &&& !(p.line == 0 && p.column == 0)
                        &&& p.line < GRID_ATLAS_MAX_CELLS && p.column < GRID_ATLAS_MAX_CELLS
                        &&& if old(self).spec_pass_count() > 0 && old(self).spec_pass(
                            old(self).spec_pass_count() - 1,
                        ).spec_atlas().spec_has_space() {
                            // Served by the existing last pass, at its cursor.
                            &&& final(self).spec_pass_count() == old(self).spec_pass_count()
                            &&& p.line as int == old(self).spec_pass(
                                old(self).spec_pass_count() - 1,
                            ).spec_atlas().spec_free_line()
                            &&& p.column as int == old(self).spec_pass(
                                old(self).spec_pass_count() - 1,
                            ).spec_atlas().spec_free_column()
                        } else {
                            // Served by a fresh pass at the first usable cell.
                            &&& final(self).spec_pass_count() == old(self).spec_pass_count() + 1
                            &&& p.line == 0 && p.column == 1
                        }
                    }
                    &&& final(self).spec_pass(glyph.atlas_index as int).spec_atlas().spec_linear()
                        == if old(self).spec_pass_count() > 0 && old(self).spec_pass(
                        old(self).spec_pass_count() - 1,
                    ).spec_atlas().spec_has_space() {
                        old(self).spec_pass(
                            old(self).spec_pass_count() - 1,
                        ).spec_atlas().spec_linear() + 1
                    } else {
                        2
                    }
                    &&& forall|j: int|
                        0 <= j < old(self).spec_pass_count() && j < final(self).spec_pass_count()
                            - 1 ==> #[trigger] final(self).spec_pass(j) == old(self).spec_pass(j)
                },
            },
    {
        if g.wide || g.zero_width {
            return Option::None;
        }
        let had_pass: bool = self.grids.len() > 0;
        if !had_pass {
            self.add_new_pass();
        }
        let last: usize = self.grids.len() - 1;
        let ghost pre1: GridGlyphRenderer = *self;
        proof {
            assert(pre1.spec_pass(last as int).spec_atlas().wf());
            pre1.spec_pass(last as int).spec_atlas().lemma_wf_facts();
        }
        let was_fresh: bool = {
            let grid = &self.grids[last];
            grid.atlas.free_line_at() == 0 && grid.atlas.free_column_at() == 1
        };
        proof {
            // A fresh atlas has a usable cell exactly when the cell
            // geometry yields a grid with a line and a non-sentinel column.
            if was_fresh {
                assert(pre1.spec_pass(last as int).spec_atlas().spec_has_space()
                    <==> grid_geometry_usable(old(self).spec_cell_dims()));
            }
        }
        let first_try = {
            let grid = &mut self.grids[last];
            grid.atlas.insert(g)
        };
        proof {
            lemma_wf_after_pass_update(pre1, *self, last as int);
            if !(first_try is Ok) {
                assert(self.grids@ =~= pre1.grids@);
            }
        }
        match first_try {
            Result::Ok(p) => {
                proof {
                    assert(pre1.spec_pass(last as int).spec_atlas().spec_has_space());
                    assert(grid_geometry_usable(old(self).spec_cell_dims()));
                    assert forall|j: int|
                        0 <= j < old(self).spec_pass_count() && j < self.spec_pass_count()
                            - 1 implies #[trigger] self.spec_pass(j) == old(self).spec_pass(j) by {
                        assert(self.grids@[j] == pre1.grids@[j]);
                    }
                }
                Option::Some(
                    Glyph { atlas_index: last, colored: g.colored(), atlas_ref: AtlasRef::Grid(p) },
                )
            },
            Result::Err(AtlasInsertError::GlyphTooLarge) => Option::None,
            Result::Err(AtlasInsertError::Full) => {
                if was_fresh {
                    // A fresh atlas with no usable cell: this geometry
                    // cannot grid-pack anything.
                    return Option::None;
                }
                self.add_new_pass();
                let last2: usize = self.grids.len() - 1;
                let ghost pre2: GridGlyphRenderer = *self;
                proof {
                    assert(pre2.spec_pass(last2 as int).spec_atlas().wf());
                    pre2.spec_pass(last2 as int).spec_atlas().lemma_wf_facts();
                    assert(pre2.spec_pass(last2 as int).spec_atlas().spec_has_space()
                        <==> grid_geometry_usable(old(self).spec_cell_dims()));
                }
                let second_try = {
                    let grid = &mut self.grids[last2];
                    grid.atlas.insert(g)
                };
                proof {
                    lemma_wf_after_pass_update(pre2, *self, last2 as int);
                    if !(second_try is Ok) {
                        assert(self.grids@ =~= pre2.grids@);
                    }
                }
                match second_try {
                    Result::Ok(p) => {
                        proof {
                            assert forall|j: int|
                                0 <= j < old(self).spec_pass_count() && j < self.spec_pass_count()
                                    - 1 implies #[trigger] self.spec_pass(j) == old(
                                self,
                            ).spec_pass(j) by {
                                assert(self.grids@[j] == pre2.grids@[j]);
                                assert(pre2.spec_pass(j) == old(self).spec_pass(j));
                            }
                        }
                        Option::Some(
                            Glyph {
                                atlas_index: last2,
                                colored: g.colored(),
                                atlas_ref: AtlasRef::Grid(p),
                            },
                        )
                    },
                    Result::Err(_) => Option::None,
                }
            },
        }
    }

    /// Write a cell's foreground and background colors into the shared
    /// color buffers; a wide cell also paints its spill-over neighbor's
    /// background.
    pub fn update_cell_colors(&mut self, cell: &RenderableCell, wide: bool)
        requires
            old(self).wf(),
            cell.line < old(self).spec_lines(),
            cell.column < old(self).spec_columns(),
        ensures
            final(self).wf(),
            final(self).spec_columns() == old(self).spec_columns(),
            final(self).spec_lines() == old(self).spec_lines(),
            final(self).spec_cell_dims() == old(self).spec_cell_dims(),
            final(self).spec_cursor() == old(self).spec_cursor(),
            final(self).spec_bg_alpha() == old(self).spec_bg_alpha(),
            final(self).spec_pass_count() == old(self).spec_pass_count(),
            forall|i: int|
                0 <= i < old(self).spec_pass_count() ==> #[trigger] final(self).spec_pass(i)
                    == old(self).spec_pass(i),
            ({
                let idx = cell.line * old(self).spec_columns() + cell.column;
                let alpha = match cell.bg_alpha {
                    Option::None => old(self).spec_bg_alpha(),
                    Option::Some(a) => a,
                };
                let bg = Rgba { r: cell.bg.r, g: cell.bg.g, b: cell.bg.b, a: alpha };
                &&& final(self).spec_fg() == old(self).spec_fg().update(
                    idx,
                    Rgb { r: cell.fg.r, g: cell.fg.g, b: cell.fg.b },
                )
                &&& final(self).spec_bg() == if wide && cell.column + 1 < old(
                    self,
                ).spec_columns() {
                    old(self).spec_bg().update(idx, bg).update(idx + 1, bg)
                } else {
                    old(self).spec_bg().update(idx, bg)
                }
            }),
    {
        proof {
            lemma_cell_index(
                cell.line as int,
                cell.column as int,
                old(self).spec_columns(),
                old(self).spec_lines(),
            );
        }
        let cell_index: usize = cell.line * self.columns + cell.column;
        let alpha: u8 = match cell.bg_alpha {
            Option::None => self.bg_alpha,
            Option::Some(a) => a,
        };
        let bg = Rgba { r: cell.bg.r, g: cell.bg.g, b: cell.bg.b, a: alpha };
        self.screen_colors_fg.set(cell_index, Rgb { r: cell.fg.r, g: cell.fg.g, b: cell.fg.b });
        self.screen_colors_bg.set(cell_index, bg);
        if wide && cell.column + 1 < self.columns {
            proof {
                lemma_cell_index(
                    cell.line as int,
                    cell.column as int + 1,
                    old(self).spec_columns(),
                    old(self).spec_lines(),
                );
            }
            self.screen_colors_bg.set(cell_index + 1, bg);
        }
        proof {
            assert forall|j: int| 0 <= j < self.spec_pass_count() implies {
                let p = #[trigger] self.spec_pass(j);
                &&& p.spec_atlas().wf()
                &&& p.spec_atlas().spec_index() == j
                &&& p.spec_atlas().spec_cell_dims() == self.spec_cell_dims()
                &&& p.spec_atlas().spec_tex_size() == (Vec2i {
                    x: GRID_ATLAS_SIZE,
                    y: GRID_ATLAS_SIZE,
                })
                &&& p.spec_glyphs().len() == self.spec_cells()
            } by {
                assert(old(self).spec_pass(j).spec_atlas().wf());
                assert(self.spec_pass(j) == old(self).spec_pass(j));
            }
        }
    }

    /// Write a grid-placed glyph's reference into its pass's buffer at
    /// the cell's screen position, marking the pass dirty.
    pub fn update_cell(
        &mut self,
        cell: &RenderableCell,
        atlas_index: usize,
        colored: bool,
        grid: AtlasRefGrid,
    )
        requires
            old(self).wf(),
            cell.line < old(self).spec_lines(),
            cell.column < old(self).spec_columns(),
            atlas_index < old(self).spec_pass_count(),
            grid.line < GRID_ATLAS_MAX_CELLS,
            grid.column < GRID_ATLAS_MAX_CELLS,
        ensures
            final(self).wf(),
            final(self).spec_columns() == old(self).spec_columns(),
            final(self).spec_lines() == old(self).spec_lines(),
            final(self).spec_cell_dims() == old(self).spec_cell_dims(),
            final(self).spec_cursor() == old(self).spec_cursor(),
            final(self).spec_fg() == old(self).spec_fg(),
            final(self).spec_bg() == old(self).spec_bg(),
            final(self).spec_bg_alpha() == old(self).spec_bg_alpha(),
            final(self).spec_pass_count() == old(self).spec_pass_count(),
            forall|i: int|
                0 <= i < old(self).spec_pass_count() && i != atlas_index ==> #[trigger] final(self).spec_pass(i) == old(self).spec_pass(i),
            final(self).spec_pass(atlas_index as int).spec_atlas() == old(self).spec_pass(
                atlas_index as int,
            ).spec_atlas(),
            final(self).spec_pass(atlas_index as int).spec_glyphs() == old(self).spec_pass(
                atlas_index as int,
            ).spec_glyphs().update(
                cell.line * old(self).spec_columns() + cell.column,
                GlyphRef {
                    x: grid.column as u8,
                    y: grid.line as u8,
                    z: if colored {
                        1
                    } else {
                        0
                    },
                    w: 0,
                },
            ),
            final(self).spec_pass(atlas_index as int).spec_dirty(),
    {
        proof {
            lemma_cell_index(
                cell.line as int,
                cell.column as int,
                old(self).spec_columns(),
                old(self).spec_lines(),
            );
        }
        let cell_index: usize = cell.line * self.columns + cell.column;
        let z: u8 = if colored {
            1
        } else {
            0
        };
        proof {
            assert(self.spec_pass(atlas_index as int).spec_atlas().wf());
            assert(self.spec_pass(atlas_index as int).spec_glyphs().len() == self.spec_cells());
        }
        let g = &mut self.grids[atlas_index];
        g.glyphs.set(cell_index, GlyphRef { x: grid.column as u8, y: grid.line as u8, z, w: 0 });
        g.dirty = true;
        proof {
            lemma_wf_after_pass_update(*old(self), *self, atlas_index as int);
        }
    }
}

/// Updating one pass in a way that keeps its atlas well formed and its
/// identity, geometry and buffer length intact keeps the whole renderer
/// well formed.
proof fn lemma_wf_after_pass_update(pre: GridGlyphRenderer, post: GridGlyphRenderer, i: int)
    requires
        pre.wf(),
        0 <= i < pre.spec_pass_count(),
        post.spec_pass_count() == pre.spec_pass_count(),
        post.spec_columns() == pre.spec_columns(),
        post.spec_lines() == pre.spec_lines(),
        post.spec_cell_dims() == pre.spec_cell_dims(),
        post.spec_fg() == pre.spec_fg(),
        post.spec_bg() == pre.spec_bg(),
        forall|j: int|
            0 <= j < pre.spec_pass_count() && j != i ==> #[trigger] post.spec_pass(j)
                == pre.spec_pass(j),
        post.spec_pass(i).spec_atlas().wf(),
        post.spec_pass(i).spec_atlas().spec_index() == pre.spec_pass(i).spec_atlas().spec_index(),
        post.spec_pass(i).spec_atlas().spec_cell_dims() == pre.spec_pass(
            i,
        ).spec_atlas().spec_cell_dims(),
        post.spec_pass(i).spec_atlas().spec_tex_size() == pre.spec_pass(
            i,
        ).spec_atlas().spec_tex_size(),
        post.spec_pass(i).spec_glyphs().len() == pre.spec_pass(i).spec_glyphs().len(),
    ensures
        post.wf(),
{
    assert forall|j: int| 0 <= j < post.spec_pass_count() implies {
        let p = #[trigger] post.spec_pass(j);
        &&& p.spec_atlas().wf()
        &&& p.spec_atlas().spec_index() == j
        &&& p.spec_atlas().spec_cell_dims() == post.spec_cell_dims()
        &&& p.spec_atlas().spec_tex_size() == (Vec2i { x: GRID_ATLAS_SIZE, y: GRID_ATLAS_SIZE })
        &&& p.spec_glyphs().len() == post.spec_cells()
    } by {
        assert(pre.spec_pass(j).spec_atlas().wf());
        if j != i {
            assert(post.spec_pass(j) == pre.spec_pass(j));
        }
    }
}

/// A cell's row-major index is inside the screen buffer.
pub proof fn lemma_cell_index(line: int, column: int, columns: int, lines: int)
    requires
        0 <= line < lines,
        0 <= column < columns,
        lines <= 0x8000,
        columns <= 0x8000,
    ensures
        0 <= line * columns + column < lines * columns,
        0 <= line * columns + column < columns * lines,
        line * columns + column <= 0x8000 * 0x8000,
{
    vstd::arithmetic::mul::lemma_mul_inequality(line + 1, lines, columns);
    vstd::arithmetic::mul::lemma_mul_is_distributive_add_other_way(columns, line, 1);
    vstd::arithmetic::mul::lemma_mul_nonnegative(line, columns);
    vstd::arithmetic::mul::lemma_mul_upper_bound(lines, 0x8000, columns, 0x8000);
    vstd::arithmetic::mul::lemma_mul_is_commutative(lines, columns);
}

} // verus!
