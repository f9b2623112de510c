//! The renderer front end: grid compositor first, quad renderer as the
//! fallback, and the per-cell update logic that drives both from the
//! terminal's renderable cells.
//!
//! Errors from the GPU layer's shader compilation are modeled here as
//! plain data; building shaders and issuing draws is the GPU layer's
//! business.

use vstd::prelude::*;

use crate::atlas::{glyph_fits_cell, CellDims};
use crate::cache::GlyphCache;
use crate::cell::{CellContent, RenderableCell};
use crate::geom::Vec2i;
use crate::glyph::{AtlasRef, Glyph, GlyphKey, RasterizedGlyph};
use crate::grid_render::{grid_geometry_usable, GridGlyphRenderer};
use crate::quad::{quad_vertices, GlyphQuad, QuadGlyphRenderer, FREE_ATLAS_SIZE};

verus! {

/// Error building a shader, as reported by the GPU layer.
#[derive(Clone, Debug, PartialEq, Eq)]
pub enum ShaderCreationError {
    /// Error reading a shader source file; carries the I/O error text.
    Io(String),
    /// Error compiling a shader; carries the source path and the log.
    Compile(String, String),
    /// Problem linking; carries the log.
    Link(String),
}

/// Renderer initialization error.
#[derive(Clone, Debug, PartialEq, Eq)]
pub enum Error {
    ShaderCreation(ShaderCreationError),
}

/// The character a cell actually renders: hidden cells render a space,
/// and tabs render as spaces in case the font has no tab glyph.
pub open spec fn spec_effective_char(hidden: bool, first: char) -> char {
    if hidden {
        ' '
    } else if first == '\t' {
        ' '
    } else {
        first
    }
}

/// Which font face a cell's style flags select.
pub open spec fn spec_style_font_key(
    keys: crate::cache::FontKeys,
    bold: bool,
    italic: bool,
) -> u32 {
    if bold && italic {
        keys.bold_italic
    } else if italic {
        keys.italic
    } else if bold {
        keys.bold
    } else {
        keys.regular
    }
}

/// The primary character of a cell's content; the cursor has none.
pub open spec fn spec_first_char(c: CellContent) -> char {
    match c {
        CellContent::Chars { first, .. } => first,
        CellContent::Cursor(_) => ' ',
    }
}

/// The cache key under which a cell's primary character is looked up.
pub open spec fn spec_cell_key(cache: GlyphCache, cell: RenderableCell) -> GlyphKey {
    GlyphKey {
        font_key: spec_style_font_key(cache.spec_font_keys(), cell.bold, cell.italic),
        size: cache.spec_font_size(),
        character: spec_effective_char(cell.hidden, spec_first_char(cell.content)),
        wide: cell.wide,
        zero_width: false,
    }
}

/// Whether a free-atlas reference is within the coordinate ranges the
/// quad builder accepts; placements handed out by the free atlas always
/// are.
pub open spec fn spec_free_ref_in_range(f: crate::glyph::AtlasRefFree) -> bool {
    &&& -0x10000 <= f.left <= 0x10000
    &&& -0x10000 <= f.top <= 0x10000
    &&& 0 <= f.width <= 0x8000
    &&& 0 <= f.height <= 0x8000
    &&& 0 <= f.x <= 0x8000
    &&& 0 <= f.y <= 0x8000
}

/// What loading a rasterized glyph promises of the returned handle,
/// relative to the renderer before (`pre`) and after (`post`) the load:
/// the glyph lands in the grid exactly when it is grid material — not
/// wide, not zero-width, fitting its cell, with a usable grid geometry —
/// never on the sentinel cell; otherwise it lands in a free atlas with
/// its size and bearings carried over, or degrades to the zero-size
/// placeholder when no atlas can hold it.
pub open spec fn spec_loaded_glyph(
    pre: SimpleRenderer,
    post: SimpleRenderer,
    rasterized: RasterizedGlyph,
    g: Glyph,
) -> bool {
    let d = pre.spec_grids().spec_cell_dims();
    let grid_material = !rasterized.wide && !rasterized.zero_width && glyph_fits_cell(
        d,
        rasterized,
    ) && grid_geometry_usable(d);
    &&& ((g.atlas_ref is Grid) <==> grid_material)
    &&& (g.atlas_ref matches AtlasRef::Grid(p) ==> !(p.line == 0 && p.column == 0)
        && g.atlas_index < post.spec_grids().spec_pass_count() && g.colored
        == rasterized.spec_colored())
    &&& (g.atlas_ref matches AtlasRef::Free(f) ==> (if rasterized.width <= FREE_ATLAS_SIZE
        && rasterized.height < FREE_ATLAS_SIZE && !grid_material {
        // Placed in a free atlas, bearings carried over.
        &&& f.width == rasterized.width && f.height == rasterized.height
        &&& f.top == rasterized.top && f.left == rasterized.left
        &&& g.atlas_index < post.spec_quads().spec_groups().len()
        &&& g.colored == rasterized.spec_colored()
        &&& spec_free_ref_in_range(f)
    } else {
        // The empty placeholder.
        f.width == 0 && f.height == 0
    }))
}

/// The background color a rendered string paints: the explicit one, or
/// black under the default background.
pub open spec fn spec_string_bg(bg: Option<crate::glyph::Rgb>) -> crate::glyph::Rgb {
    match bg {
        Option::Some(c) => c,
        Option::None => crate::glyph::Rgb { r: 0, g: 0, b: 0 },
    }
}

/// The background alpha a rendered string paints: opaque for an explicit
/// background, the frame's opacity otherwise.
pub open spec fn spec_string_bg_alpha(bg: Option<crate::glyph::Rgb>, frame_alpha: u8) -> u8 {
    match bg {
        Option::Some(_) => 255u8,
        Option::None => frame_alpha,
    }
}

/// The renderer: the grid-based compositor that handles the overwhelming
/// majority of glyphs and draws the background, and the quad-based
/// renderer for zero-width, wide and oversized glyphs.
pub struct SimpleRenderer {
    grids: GridGlyphRenderer,
    quad_glyphs: QuadGlyphRenderer,
}

impl SimpleRenderer {
    pub open spec fn wf(self) -> bool {
        &&& self.spec_grids().wf()
        &&& self.spec_quads().wf()
    }

    pub closed spec fn spec_grids(self) -> GridGlyphRenderer {
        self.grids
    }

    pub closed spec fn spec_quads(self) -> QuadGlyphRenderer {
        self.quad_glyphs
    }

    pub fn new() -> (r: SimpleRenderer)
        ensures
            r.wf(),
            r.spec_grids().spec_pass_count() == 0,
            r.spec_grids().spec_columns() == 0,
            r.spec_grids().spec_lines() == 0,
            r.spec_quads().spec_groups().len() == 0,
    {
        SimpleRenderer { grids: GridGlyphRenderer::new(), quad_glyphs: QuadGlyphRenderer::new() }
    }

    /// The grid compositor, for reading out buffers and cursor state.
    pub fn grids(&self) -> (r: &GridGlyphRenderer)
        ensures
            r == self.spec_grids(),
    {
        &self.grids
    }

    /// The quad renderer, for reading out batches.
    pub fn quads(&self) -> (r: &QuadGlyphRenderer)
        ensures
            r == self.spec_quads(),
    {
        &self.quad_glyphs
    }

    /// Take one pass's finished atlas rows for texture upload: exactly
    /// the pending rows, oldest first; every other pass, this pass's
    /// buffers and the color buffers stay untouched.
    pub fn take_pass_uploads(&mut self, i: usize) -> (r: Vec<crate::atlas::LineUpload>)
        requires
            old(self).wf(),
            i < old(self).spec_grids().spec_pass_count(),
        ensures
            final(self).wf(),
            final(self).spec_quads() == old(self).spec_quads(),
            r@ == old(self).spec_grids().spec_pass(i as int).spec_atlas().spec_pending(),
            final(self).spec_grids().spec_pass(i as int).spec_atlas().spec_pending().len() == 0,
            final(self).spec_grids().spec_pass_count() == old(self).spec_grids().spec_pass_count(),
            final(self).spec_grids().spec_columns() == old(self).spec_grids().spec_columns(),
            final(self).spec_grids().spec_lines() == old(self).spec_grids().spec_lines(),
            final(self).spec_grids().spec_cell_dims() == old(self).spec_grids().spec_cell_dims(),
            final(self).spec_grids().spec_fg() == old(self).spec_grids().spec_fg(),
            final(self).spec_grids().spec_bg() == old(self).spec_grids().spec_bg(),
            final(self).spec_grids().spec_cursor() == old(self).spec_grids().spec_cursor(),
            forall|j: int|
                0 <= j < old(self).spec_grids().spec_pass_count() && j != i ==> #[trigger] final(self).spec_grids().spec_pass(j) == old(self).spec_grids().spec_pass(j),
            final(self).spec_grids().spec_pass(i as int).spec_glyphs() == old(self).spec_grids().spec_pass(i as int).spec_glyphs(),
            final(self).spec_grids().spec_pass(i as int).spec_atlas().spec_staging() == old(self).spec_grids().spec_pass(i as int).spec_atlas().spec_staging(),
    {
        self.grids.take_pass_uploads(i)
    }

    /// Hand out one pass's partially filled atlas row for upload, if it
    /// changed since the last call: the row is the pass's staging
    /// contents at the write cursor's line.
    pub fn commit_pass_line(&mut self, i: usize) -> (r: Option<crate::atlas::LineUpload>)
        requires
            old(self).wf(),
            i < old(self).spec_grids().spec_pass_count(),
        ensures
            final(self).wf(),
            final(self).spec_quads() == old(self).spec_quads(),
            final(self).spec_grids().spec_pass_count() == old(self).spec_grids().spec_pass_count(),
            final(self).spec_grids().spec_columns() == old(self).spec_grids().spec_columns(),
            final(self).spec_grids().spec_lines() == old(self).spec_grids().spec_lines(),
            final(self).spec_grids().spec_cell_dims() == old(self).spec_grids().spec_cell_dims(),
            final(self).spec_grids().spec_fg() == old(self).spec_grids().spec_fg(),
            final(self).spec_grids().spec_bg() == old(self).spec_grids().spec_bg(),
            final(self).spec_grids().spec_cursor() == old(self).spec_grids().spec_cursor(),
            forall|j: int|
                0 <= j < old(self).spec_grids().spec_pass_count() && j != i ==> #[trigger] final(self).spec_grids().spec_pass(j) == old(self).spec_grids().spec_pass(j),
            final(self).spec_grids().spec_pass(i as int).spec_glyphs() == old(self).spec_grids().spec_pass(i as int).spec_glyphs(),
            final(self).spec_grids().spec_pass(i as int).spec_atlas().spec_pending() == old(self).spec_grids().spec_pass(i as int).spec_atlas().spec_pending(),
            match r {
                Option::None => old(self).spec_grids().spec_pass(i as int).spec_atlas().spec_committed_column() == old(self).spec_grids().spec_pass(i as int).spec_atlas().spec_free_column(),
                Option::Some(row) => {
                    let a = old(self).spec_grids().spec_pass(i as int).spec_atlas();
                    &&& a.spec_committed_column() != a.spec_free_column()
                    &&& row.y == a.spec_free_line() * a.spec_cell_dims().size.y
                    &&& row.pixels@ == a.spec_staging()
                },
            },
    {
        self.grids.commit_pass_line(i)
    }

    /// Resize the per-cell buffers for a new terminal viewport.
    pub fn resize(&mut self, columns: usize, lines: usize)
        requires
            old(self).wf(),
            columns <= 0x8000,
            lines <= 0x8000,
        ensures
            final(self).wf(),
            final(self).spec_grids().spec_columns() == columns,
            final(self).spec_grids().spec_lines() == lines,
            final(self).spec_grids().spec_fg().len() == columns * lines,
            final(self).spec_grids().spec_bg().len() == columns * lines,
            final(self).spec_grids().spec_pass_count() == old(self).spec_grids().spec_pass_count(),
            final(self).spec_quads() == old(self).spec_quads(),
    {
        self.grids.resize(columns, lines);
    }

    /// Start a frame: drop all accumulated quads, reset every per-cell
    /// buffer to the "no glyph" sentinel and paint the background.
    pub fn clear(&mut self, color: crate::glyph::Rgb, background_alpha: u8)
        requires
            old(self).wf(),
        ensures
            final(self).wf(),
            final(self).spec_grids().spec_columns() == old(self).spec_grids().spec_columns(),
            final(self).spec_grids().spec_lines() == old(self).spec_grids().spec_lines(),
            final(self).spec_grids().spec_pass_count() == old(self).spec_grids().spec_pass_count(),
            final(self).spec_grids().spec_bg_alpha() == background_alpha,
            final(self).spec_grids().spec_cursor() is None,
            forall|i: int|
                0 <= i < final(self).spec_grids().spec_bg().len() ==> final(self).spec_grids().spec_bg()[i] == (crate::glyph::Rgba {
                    r: color.r,
                    g: color.g,
                    b: color.b,
                    a: background_alpha,
                }),
            forall|i: int, j: int|
                0 <= i < final(self).spec_grids().spec_pass_count() && 0 <= j < final(self).spec_grids().spec_pass(i).spec_glyphs().len() ==> #[trigger] final(self).spec_grids().spec_pass(i).spec_glyphs()[j]
                    == crate::grid_render::GlyphRef::spec_empty(),
            // The frame reset drops buffers and quads only: every atlas
            // keeps its packing state, so every placement handed out
            // earlier in the session stays valid across frames.
            forall|i: int|
                0 <= i < old(self).spec_grids().spec_pass_count() ==> (#[trigger] final(self).spec_grids().spec_pass(i)).spec_atlas() == old(self).spec_grids().spec_pass(
                    i,
                ).spec_atlas(),
            final(self).spec_quads().spec_groups().len() == old(self).spec_quads().spec_groups().len(),
            forall|i: int|
                0 <= i < old(self).spec_quads().spec_groups().len() ==> (#[trigger] final(self).spec_quads().spec_groups()[i]).spec_atlas() == old(self).spec_quads().spec_groups()[i].spec_atlas(),
            forall|i: int, j: int|
                0 <= i < final(self).spec_quads().spec_groups().len() && 0 <= j < final(self).spec_quads().spec_groups()[i].spec_batches().len() ==> #[trigger] final(self).spec_quads().spec_groups()[i].spec_batches()[j].spec_vertices().len() == 0,
    {
        self.quad_glyphs.clear();
        self.grids.clear(color, background_alpha);
    }

    /// Adopt a new cell geometry and drop all atlases; called when font,
    /// size or DPI change.
    pub fn clear_atlas(&mut self, cell_size: Vec2i, cell_offset: Vec2i)
        requires
            old(self).wf(),
            0 < cell_size.x <= 0x8000,
            0 < cell_size.y <= 0x8000,
            0 <= cell_offset.x <= 0x8000,
            0 <= cell_offset.y <= 0x8000,
        ensures
            final(self).wf(),
            final(self).spec_grids().spec_cell_dims() == (CellDims {
                size: cell_size,
                offset: cell_offset,
            }),
            final(self).spec_grids().spec_geometry_ok(),
            final(self).spec_grids().spec_pass_count() == 0,
            final(self).spec_grids().spec_columns() == old(self).spec_grids().spec_columns(),
            final(self).spec_grids().spec_lines() == old(self).spec_grids().spec_lines(),
            final(self).spec_quads().spec_groups().len() == old(self).spec_quads().spec_groups().len(),
            forall|i: int|
                0 <= i < final(self).spec_quads().spec_groups().len() ==> {
                    let a = (#[trigger] final(self).spec_quads().spec_groups()[i]).spec_atlas();
                    &&& a.spec_placed().len() == 0
                    &&& a.spec_row_extent() == 0
                    &&& a.spec_row_baseline() == 0
                    &&& a.spec_row_tallest() == 0
                },
    {
        self.grids.clear_atlas(cell_size, cell_offset);
        self.quad_glyphs.clear_atlas();
    }

    /// Load a rasterized glyph into graphics memory: the grid atlas
    /// first, the free atlas as fallback, and the empty placeholder when
    /// even that fails, so one impossible glyph degrades to a gap rather
    /// than aborting the frame.
    pub fn load_glyph(&mut self, rasterized: &RasterizedGlyph) -> (r: Glyph)
        requires
            old(self).wf(),
            old(self).spec_grids().spec_geometry_ok(),
            rasterized.wf(),
        ensures
            final(self).wf(),
            final(self).spec_grids().spec_columns() == old(self).spec_grids().spec_columns(),
            final(self).spec_grids().spec_lines() == old(self).spec_grids().spec_lines(),
            final(self).spec_grids().spec_cell_dims() == old(self).spec_grids().spec_cell_dims(),
            final(self).spec_grids().spec_geometry_ok(),
            final(self).spec_grids().spec_fg() == old(self).spec_grids().spec_fg(),
            final(self).spec_grids().spec_bg() == old(self).spec_grids().spec_bg(),
            final(self).spec_grids().spec_cursor() == old(self).spec_grids().spec_cursor(),
            spec_loaded_glyph(*old(self), *final(self), *rasterized, r),
            final(self).spec_grids().spec_pass_count() >= old(self).spec_grids().spec_pass_count(),
    {
        match self.grids.load_glyph(rasterized) {
            Option::Some(glyph) => glyph,
            Option::None => {
                match self.quad_glyphs.insert_into_atlas(rasterized) {
                    Result::Ok(glyph) => {
                        proof {
                            if glyph.atlas_ref matches AtlasRef::Free(f) {
                                let idx = glyph.atlas_index as int;
                                let a = self.spec_quads().spec_groups()[idx].spec_atlas();
                                crate::free_atlas::lemma_free_atlas_in_bounds(
                                    a,
                                    a.spec_placed().len() - 1,
                                );
                            }
                        }
                        glyph
                    },
                    Result::Err(_) => Glyph::empty(),
                }
            },
        }
    }

    /// Make sure a key has a cached placement, loading the rasterized
    /// glyph if — and only if — the key is still missing. A key already
    /// cached leaves both the cache and the atlases untouched, so a
    /// repeated key never costs a second atlas insertion.
    pub fn ensure_glyph(
        &mut self,
        cache: &mut GlyphCache,
        key: &GlyphKey,
        rasterized: &RasterizedGlyph,
    )
        requires
            old(self).wf(),
            old(self).spec_grids().spec_geometry_ok(),
            rasterized.wf(),
        ensures
            final(self).wf(),
            final(self).spec_grids().spec_geometry_ok(),
            final(cache).spec_cache().contains_key(key.spec_pack() as u128),
            old(cache).spec_cache().contains_key(key.spec_pack() as u128) ==> *final(self) == *old(self) && *final(cache) == *old(cache),
            !old(cache).spec_cache().contains_key(key.spec_pack() as u128) ==> final(cache).spec_cache() == old(cache).spec_cache().insert(
                key.spec_pack() as u128,
                final(cache).spec_cache()[key.spec_pack() as u128],
            ),
            // The value stored on a miss is the freshly loaded placement
            // for `rasterized`, not an arbitrary handle.
            !old(cache).spec_cache().contains_key(key.spec_pack() as u128) ==> spec_loaded_glyph(
                *old(self),
                *final(self),
                *rasterized,
                final(cache).spec_cache()[key.spec_pack() as u128],
            ),
            final(cache).spec_cursor_cache() == old(cache).spec_cursor_cache(),
            final(cache).spec_font_keys() == old(cache).spec_font_keys(),
            final(cache).spec_font_size() == old(cache).spec_font_size(),
            final(cache).spec_cell_size() == old(cache).spec_cell_size(),
            final(self).spec_grids().spec_columns() == old(self).spec_grids().spec_columns(),
            final(self).spec_grids().spec_lines() == old(self).spec_grids().spec_lines(),
            final(self).spec_grids().spec_cell_dims() == old(self).spec_grids().spec_cell_dims(),
            final(self).spec_grids().spec_fg() == old(self).spec_grids().spec_fg(),
            final(self).spec_grids().spec_bg() == old(self).spec_grids().spec_bg(),
            final(self).spec_grids().spec_cursor() == old(self).spec_grids().spec_cursor(),
    {
        match cache.get(key) {
            Option::Some(_) => {
            },
            Option::None => {
                let glyph = self.load_glyph(rasterized);
                cache.store(key, glyph);
            },
        }
    }

    /// Make sure a cursor key has a cached placement, loading the given
    /// cursor bitmap only on a miss.
    pub fn ensure_cursor_glyph(
        &mut self,
        cache: &mut GlyphCache,
        key: &crate::glyph::CursorKey,
        rasterized: &RasterizedGlyph,
    )
        requires
            old(self).wf(),
            old(self).spec_grids().spec_geometry_ok(),
            rasterized.wf(),
        ensures
            final(self).wf(),
            final(self).spec_grids().spec_geometry_ok(),
            final(cache).spec_cursor_cache().contains_key(key.spec_pack() as u64),
            old(cache).spec_cursor_cache().contains_key(key.spec_pack() as u64) ==> *final(self)
                == *old(self) && *final(cache) == *old(cache),
            !old(cache).spec_cursor_cache().contains_key(key.spec_pack() as u64) ==> final(cache).spec_cursor_cache() == old(cache).spec_cursor_cache().insert(
                key.spec_pack() as u64,
                final(cache).spec_cursor_cache()[key.spec_pack() as u64],
            ),
            // The value stored on a miss is the freshly loaded placement
            // for `rasterized`, not an arbitrary handle.
            !old(cache).spec_cursor_cache().contains_key(key.spec_pack() as u64)
                ==> spec_loaded_glyph(
                *old(self),
                *final(self),
                *rasterized,
                final(cache).spec_cursor_cache()[key.spec_pack() as u64],
            ),
            final(cache).spec_cache() == old(cache).spec_cache(),
            final(cache).spec_font_keys() == old(cache).spec_font_keys(),
            final(cache).spec_font_size() == old(cache).spec_font_size(),
            final(cache).spec_cell_size() == old(cache).spec_cell_size(),
            final(self).spec_grids().spec_columns() == old(self).spec_grids().spec_columns(),
            final(self).spec_grids().spec_lines() == old(self).spec_grids().spec_lines(),
            final(self).spec_grids().spec_cell_dims() == old(self).spec_grids().spec_cell_dims(),
            final(self).spec_grids().spec_fg() == old(self).spec_grids().spec_fg(),
            final(self).spec_grids().spec_bg() == old(self).spec_grids().spec_bg(),
            final(self).spec_grids().spec_cursor() == old(self).spec_grids().spec_cursor(),
    {
        match cache.cursor_get(key) {
            Option::Some(_) => {
            },
            Option::None => {
                let glyph = self.load_glyph(rasterized);
                cache.cursor_store(key, glyph);
            },
        }
    }

    /// Write one character glyph of a cell into the compositor: a cached
    /// grid placement goes into its pass's reference buffer, a cached
    /// free placement becomes a screen quad, and a missing or
    /// out-of-range entry degrades to writing nothing.
    fn push_char(
        &mut self,
        cache: &GlyphCache,
        key: &GlyphKey,
        cell: &RenderableCell,
        zero_width: bool,
    )
        requires
            old(self).wf(),
            old(self).spec_grids().spec_geometry_ok(),
            cell.line < old(self).spec_grids().spec_lines(),
            cell.column < old(self).spec_grids().spec_columns(),
        ensures
            final(self).wf(),
            final(self).spec_grids().spec_geometry_ok(),
            final(self).spec_grids().spec_columns() == old(self).spec_grids().spec_columns(),
            final(self).spec_grids().spec_lines() == old(self).spec_grids().spec_lines(),
            final(self).spec_grids().spec_cell_dims() == old(self).spec_grids().spec_cell_dims(),
            final(self).spec_grids().spec_fg() == old(self).spec_grids().spec_fg(),
            final(self).spec_grids().spec_bg() == old(self).spec_grids().spec_bg(),
            final(self).spec_grids().spec_cursor() == old(self).spec_grids().spec_cursor(),
            final(self).spec_grids().spec_bg_alpha() == old(self).spec_grids().spec_bg_alpha(),
            final(self).spec_grids().spec_pass_count() == old(self).spec_grids().spec_pass_count(),
            final(self).spec_quads().spec_groups().len() == old(self).spec_quads().spec_groups().len(),
            forall|j: int|
                0 <= j < old(self).spec_grids().spec_pass_count() ==> (#[trigger] final(self).spec_grids().spec_pass(j)).spec_atlas() == old(self).spec_grids().spec_pass(
                    j,
                ).spec_atlas(),
            ({
                let packed = key.spec_pack() as u128;
                let cidx = cell.line * old(self).spec_grids().spec_columns() + cell.column;
                if !cache.spec_cache().contains_key(packed) {
                    *final(self) == *old(self)
                } else {
                    let glyph = cache.spec_cache()[packed];
                    match glyph.atlas_ref {
                        AtlasRef::Grid(p) => if glyph.atlas_index < old(self).spec_grids().spec_pass_count() && p.line < 256 && p.column < 256 {
                            &&& final(self).spec_quads() == old(self).spec_quads()
                            &&& final(self).spec_grids().spec_pass(
                                glyph.atlas_index as int,
                            ).spec_glyphs() == old(self).spec_grids().spec_pass(
                                glyph.atlas_index as int,
                            ).spec_glyphs().update(
                                cidx,
                                crate::grid_render::GlyphRef {
                                    x: p.column as u8,
                                    y: p.line as u8,
                                    z: if glyph.colored {
                                        1
                                    } else {
                                        0
                                    },
                                    w: 0,
                                },
                            )
                        } else {
                            *final(self) == *old(self)
                        },
                        AtlasRef::Free(f) => if glyph.atlas_index < old(self).spec_quads().spec_groups().len() && spec_free_ref_in_range(f) {
                            &&& final(self).spec_grids() == old(self).spec_grids()
                            &&& ({
                                let q = GlyphQuad {
                                    atlas_index: glyph.atlas_index,
                                    pos: Vec2i {
                                        x: ((cell.column + (if zero_width {
                                            1int
                                        } else {
                                            0int
                                        })) * old(self).spec_grids().spec_cell_dims().size.x) as i32,
                                        y: (cell.line * old(self).spec_grids().spec_cell_dims().size.y) as i32,
                                    },
                                    geom: f,
                                    fg: cell.fg,
                                    colored: glyph.colored,
                                };
                                let batches = final(self).spec_quads().spec_groups()[glyph.atlas_index as int].spec_batches();
                                batches.len() >= 1 && batches.last().spec_vertices().len() >= 4
                                    && batches.last().spec_vertices().subrange(
                                    batches.last().spec_vertices().len() - 4,
                                    batches.last().spec_vertices().len() as int,
                                ) == quad_vertices(
                                    q,
                                    old(self).spec_grids().spec_cell_dims().size.y as int,
                                )
                            })
                        } else {
                            *final(self) == *old(self)
                        },
                    }
                }
            }),
    {
        let glyph = match cache.get(key) {
            Option::Some(glyph) => glyph,
            Option::None => {
                return ;
            },
        };
        match glyph.atlas_ref {
            AtlasRef::Grid(p) => {
                if glyph.atlas_index < self.grids.pass_count() && p.line < 256 && p.column < 256 {
                    self.grids.update_cell(cell, glyph.atlas_index, glyph.colored, p);
                }
            },
            AtlasRef::Free(f) => {
                if glyph.atlas_index < self.quad_glyphs.group_count() && free_ref_in_range(&f) {
                    let dims = self.grids.cell_dims();
                    let zw_off: usize = if zero_width {
                        1
                    } else {
                        0
                    };
                    proof {
                        crate::grid_render::lemma_cell_index(
                            cell.line as int,
                            cell.column as int,
                            old(self).spec_grids().spec_columns(),
                            old(self).spec_grids().spec_lines(),
                        );
                        vstd::arithmetic::mul::lemma_mul_upper_bound(
                            cell.column as int + 1,
                            0x8000,
                            dims.size.x as int,
                            0x8000,
                        );
                        vstd::arithmetic::mul::lemma_mul_nonnegative(
                            cell.column as int + zw_off as int,
                            dims.size.x as int,
                        );
                        vstd::arithmetic::mul::lemma_mul_upper_bound(
                            cell.line as int,
                            0x8000,
                            dims.size.y as int,
                            0x8000,
                        );
                        vstd::arithmetic::mul::lemma_mul_nonnegative(
                            cell.line as int,
                            dims.size.y as int,
                        );
                        vstd::arithmetic::mul::lemma_mul_inequality(
                            cell.column as int,
                            cell.column as int + zw_off as int,
                            dims.size.x as int,
                        );
                        vstd::arithmetic::mul::lemma_mul_inequality(
                            cell.column as int + zw_off as int,
                            cell.column as int + 1,
                            dims.size.x as int,
                        );
                    }
                    let quad = GlyphQuad {
                        atlas_index: glyph.atlas_index,
                        pos: Vec2i {
                            x: ((cell.column + zw_off) * (dims.size.x as usize)) as i32,
                            y: (cell.line * (dims.size.y as usize)) as i32,
                        },
                        geom: f,
                        fg: cell.fg,
                        colored: glyph.colored,
                    };
                    self.quad_glyphs.add_to_render(dims.size.y, &quad);
                }
            },
        }
    }
}

impl SimpleRenderer {
    /// Composite one renderable cell into the frame's buffers.
    ///
    /// An ordinary cell writes its colors into the shared color buffers
    /// and its character glyphs — the primary one and any combining
    /// zero-width ones — into the pass reference buffers or the quad
    /// batches, resolved through the cache. The cursor cell records the
    /// frame's cursor overlay instead. Glyphs missing from the cache
    /// degrade to a gap; the caller primes the cache first.
    pub fn update_cell(&mut self, cache: &GlyphCache, cell: &RenderableCell)
        requires
            old(self).wf(),
            old(self).spec_grids().spec_geometry_ok(),
            cell.line < old(self).spec_grids().spec_lines(),
            cell.column < old(self).spec_grids().spec_columns(),
        ensures
            final(self).wf(),
            final(self).spec_grids().spec_geometry_ok(),
            final(self).spec_grids().spec_columns() == old(self).spec_grids().spec_columns(),
            final(self).spec_grids().spec_lines() == old(self).spec_grids().spec_lines(),
            final(self).spec_grids().spec_cell_dims() == old(self).spec_grids().spec_cell_dims(),
            final(self).spec_grids().spec_pass_count() == old(self).spec_grids().spec_pass_count(),
            final(self).spec_grids().spec_bg_alpha() == old(self).spec_grids().spec_bg_alpha(),
            final(self).spec_quads().spec_groups().len() == old(self).spec_quads().spec_groups().len(),
            forall|j: int|
                0 <= j < old(self).spec_grids().spec_pass_count() ==> (#[trigger] final(self).spec_grids().spec_pass(j)).spec_atlas() == old(self).spec_grids().spec_pass(
                    j,
                ).spec_atlas(),
            cell.content is Cursor ==> final(self).spec_grids().spec_fg() == old(self).spec_grids().spec_fg() && final(self).spec_grids().spec_bg() == old(self).spec_grids().spec_bg(),
            // A cursor cell records the overlay only: no per-cell glyph
            // reference buffer changes.
            cell.content is Cursor ==> forall|j: int|
                0 <= j < old(self).spec_grids().spec_pass_count() ==> (#[trigger] final(self).spec_grids().spec_pass(j)).spec_glyphs() == old(self).spec_grids().spec_pass(
                    j,
                ).spec_glyphs(),
            (match cell.content {
                CellContent::Cursor(ck) => {
                    let packed = ck.spec_pack() as u64;
                    if !cache.spec_cursor_cache().contains_key(packed) {
                        *final(self) == *old(self)
                    } else {
                        let glyph = cache.spec_cursor_cache()[packed];
                        match glyph.atlas_ref {
                            AtlasRef::Grid(p) => if glyph.atlas_index < old(self).spec_grids().spec_pass_count() {
                                final(self).spec_grids().spec_cursor() == Some(
                                    crate::grid_render::CursorRef {
                                        atlas_index: glyph.atlas_index,
                                        cell: Vec2i { x: cell.column as i32, y: cell.line as i32 },
                                        glyph: Vec2i { x: p.column as i32, y: p.line as i32 },
                                        color: cell.fg,
                                    },
                                )
                            } else {
                                *final(self) == *old(self)
                            },
                            AtlasRef::Free(f) => {
                                &&& final(self).spec_grids() == old(self).spec_grids()
                                &&& if glyph.atlas_index < old(self).spec_quads().spec_groups().len()
                                    && spec_free_ref_in_range(f) {
                                    let q = GlyphQuad {
                                        atlas_index: glyph.atlas_index,
                                        pos: Vec2i {
                                            x: (cell.column * old(self).spec_grids().spec_cell_dims().size.x) as i32,
                                            y: (cell.line * old(self).spec_grids().spec_cell_dims().size.y) as i32,
                                        },
                                        geom: f,
                                        fg: cell.fg,
                                        colored: glyph.colored,
                                    };
                                    let batches = final(self).spec_quads().spec_groups()[glyph.atlas_index as int].spec_batches();
                                    batches.len() >= 1 && batches.last().spec_vertices().len() >= 4
                                        && batches.last().spec_vertices().subrange(
                                        batches.last().spec_vertices().len() - 4,
                                        batches.last().spec_vertices().len() as int,
                                    ) == quad_vertices(
                                        q,
                                        old(self).spec_grids().spec_cell_dims().size.y as int,
                                    )
                                } else {
                                    *final(self) == *old(self)
                                }
                            },
                        }
                    }
                },
                CellContent::Chars { first, zero_width } => {
                    let idx = cell.line * old(self).spec_grids().spec_columns() + cell.column;
                    let alpha = match cell.bg_alpha {
                        Option::None => old(self).spec_grids().spec_bg_alpha(),
                        Option::Some(a) => a,
                    };
                    let bg = crate::glyph::Rgba { r: cell.bg.r, g: cell.bg.g, b: cell.bg.b, a: alpha };
                    &&& final(self).spec_grids().spec_cursor() == old(self).spec_grids().spec_cursor()
                    &&& final(self).spec_grids().spec_fg() == old(self).spec_grids().spec_fg().update(
                        idx,
                        crate::glyph::Rgb { r: cell.fg.r, g: cell.fg.g, b: cell.fg.b },
                    )
                    &&& final(self).spec_grids().spec_bg() == if cell.wide && cell.column + 1 < old(self).spec_grids().spec_columns() {
                        old(self).spec_grids().spec_bg().update(idx, bg).update(idx + 1, bg)
                    } else {
                        old(self).spec_grids().spec_bg().update(idx, bg)
                    }
                    &&& (zero_width@.len() == 0 ==> {
                        let packed = spec_cell_key(*cache, *cell).spec_pack() as u128;
                        if !cache.spec_cache().contains_key(packed) {
                            forall|j: int|
                                0 <= j < old(self).spec_grids().spec_pass_count()
                                    ==> (#[trigger] final(self).spec_grids().spec_pass(
                                    j,
                                )).spec_glyphs() == old(self).spec_grids().spec_pass(
                                    j,
                                ).spec_glyphs()
                        } else {
                            let glyph = cache.spec_cache()[packed];
                            match glyph.atlas_ref {
                                AtlasRef::Grid(p) => glyph.atlas_index < old(self).spec_grids().spec_pass_count() && p.line < 256 && p.column < 256
                                    ==> final(self).spec_grids().spec_pass(
                                    glyph.atlas_index as int,
                                ).spec_glyphs() == old(self).spec_grids().spec_pass(
                                    glyph.atlas_index as int,
                                ).spec_glyphs().update(
                                    idx,
                                    crate::grid_render::GlyphRef {
                                        x: p.column as u8,
                                        y: p.line as u8,
                                        z: if glyph.colored {
                                            1
                                        } else {
                                            0
                                        },
                                        w: 0,
                                    },
                                ),
                                AtlasRef::Free(_) => true,
                            }
                        }
                    })
                },
            }),
    {
        match &cell.content {
            CellContent::Cursor(ck) => {
                match cache.cursor_get(ck) {
                    Option::None => {
                    },
                    Option::Some(glyph) => {
                        match glyph.atlas_ref {
                            AtlasRef::Grid(p) => {
                                if glyph.atlas_index < self.grids.pass_count() {
                                    self.grids.set_cursor(
                                        glyph.atlas_index,
                                        cell.column as i32,
                                        cell.line as i32,
                                        p.column as i32,
                                        p.line as i32,
                                        cell.fg,
                                    );
                                }
                            },
                            AtlasRef::Free(f) => {
                                if glyph.atlas_index < self.quad_glyphs.group_count()
                                    && free_ref_in_range(&f) {
                                    let dims = self.grids.cell_dims();
                                    proof {
                                        vstd::arithmetic::mul::lemma_mul_upper_bound(
                                            cell.column as int,
                                            0x8000,
                                            dims.size.x as int,
                                            0x8000,
                                        );
                                        vstd::arithmetic::mul::lemma_mul_nonnegative(
                                            cell.column as int,
                                            dims.size.x as int,
                                        );
                                        vstd::arithmetic::mul::lemma_mul_upper_bound(
                                            cell.line as int,
                                            0x8000,
                                            dims.size.y as int,
                                            0x8000,
                                        );
                                        vstd::arithmetic::mul::lemma_mul_nonnegative(
                                            cell.line as int,
                                            dims.size.y as int,
                                        );
                                    }
                                    let quad = GlyphQuad {
                                        atlas_index: glyph.atlas_index,
                                        pos: Vec2i {
                                            x: (cell.column * (dims.size.x as usize)) as i32,
                                            y: (cell.line * (dims.size.y as usize)) as i32,
                                        },
                                        geom: f,
                                        fg: cell.fg,
                                        colored: glyph.colored,
                                    };
                                    self.quad_glyphs.add_to_render(dims.size.y, &quad);
                                }
                            },
                        }
                    },
                }
            },
            CellContent::Chars { first, zero_width } => {
                let keys = cache.font_keys();
                let font_key: u32 = if cell.bold && cell.italic {
                    keys.bold_italic
                } else if cell.italic {
                    keys.italic
                } else if cell.bold {
                    keys.bold
                } else {
                    keys.regular
                };
                let effective: char = if cell.hidden {
                    ' '
                } else if *first == '\t' {
                    ' '
                } else {
                    *first
                };
                self.grids.update_cell_colors(cell, cell.wide);
                let key = GlyphKey {
                    font_key,
                    size: cache.font_size(),
                    character: effective,
                    wide: cell.wide,
                    zero_width: false,
                };
                self.push_char(cache, &key, cell, false);
                if !cell.hidden {
                    let ghost after_first: SimpleRenderer = *self;
                    let n: usize = zero_width.len();
                    let mut i: usize = 0;
                    while i < n
                        invariant
                            n == 0 ==> *self == after_first,
                            self.wf(),
                            self.spec_grids().spec_geometry_ok(),
                            n == zero_width.len(),
                            i <= n,
                            cell.line < self.spec_grids().spec_lines(),
                            cell.column < self.spec_grids().spec_columns(),
                            self.spec_grids().spec_columns() == after_first.spec_grids().spec_columns(),
                            self.spec_grids().spec_lines() == after_first.spec_grids().spec_lines(),
                            self.spec_grids().spec_cell_dims() == after_first.spec_grids().spec_cell_dims(),
                            self.spec_grids().spec_pass_count() == after_first.spec_grids().spec_pass_count(),
                            self.spec_grids().spec_bg_alpha() == after_first.spec_grids().spec_bg_alpha(),
                            self.spec_grids().spec_fg() == after_first.spec_grids().spec_fg(),
                            self.spec_grids().spec_bg() == after_first.spec_grids().spec_bg(),
                            self.spec_grids().spec_cursor() == after_first.spec_grids().spec_cursor(),
                            self.spec_quads().spec_groups().len() == after_first.spec_quads().spec_groups().len(),
                            forall|j: int|
                                0 <= j < after_first.spec_grids().spec_pass_count()
                                    ==> (#[trigger] self.spec_grids().spec_pass(j)).spec_atlas()
                                    == after_first.spec_grids().spec_pass(j).spec_atlas(),
                        decreases n - i,
                    {
                        let c: char = zero_width[i];
                        if c != ' ' {
                            let zkey = GlyphKey {
                                font_key,
                                size: cache.font_size(),
                                character: c,
                                wide: cell.wide,
                                zero_width: true,
                            };
                            self.push_char(cache, &zkey, cell, true);
                        }
                        i = i + 1;
                    }
                }
            },
        }
    }

    /// Render a string at a fixed line, one cell per character: used for
    /// messages drawn outside the terminal's own grid. Every written cell
    /// gets the given foreground; an explicit background renders opaque,
    /// otherwise the default background shows at the frame's opacity.
    /// Cells outside the written span keep their colors.
    pub fn render_string(
        &mut self,
        cache: &GlyphCache,
        line: usize,
        chars: &Vec<char>,
        fg: crate::glyph::Rgb,
        bg: Option<crate::glyph::Rgb>,
    )
        requires
            old(self).wf(),
            old(self).spec_grids().spec_geometry_ok(),
            line < old(self).spec_grids().spec_lines(),
            chars.len() <= old(self).spec_grids().spec_columns(),
        ensures
            final(self).wf(),
            final(self).spec_grids().spec_geometry_ok(),
            final(self).spec_grids().spec_columns() == old(self).spec_grids().spec_columns(),
            final(self).spec_grids().spec_lines() == old(self).spec_grids().spec_lines(),
            final(self).spec_grids().spec_cell_dims() == old(self).spec_grids().spec_cell_dims(),
            final(self).spec_grids().spec_pass_count() == old(self).spec_grids().spec_pass_count(),
            final(self).spec_grids().spec_bg_alpha() == old(self).spec_grids().spec_bg_alpha(),
            final(self).spec_grids().spec_cursor() == old(self).spec_grids().spec_cursor(),
            final(self).spec_quads().spec_groups().len() == old(self).spec_quads().spec_groups().len(),
            forall|j: int|
                0 <= j < old(self).spec_grids().spec_pass_count() ==> (#[trigger] final(self).spec_grids().spec_pass(j)).spec_atlas() == old(self).spec_grids().spec_pass(j).spec_atlas(),
            final(self).spec_grids().spec_fg().len() == old(self).spec_grids().spec_fg().len(),
            final(self).spec_grids().spec_bg().len() == old(self).spec_grids().spec_bg().len(),
            forall|k: int|
                0 <= k < chars.len() ==> #[trigger] final(self).spec_grids().spec_fg()[line * old(self).spec_grids().spec_columns() + k] == fg,
            forall|k: int|
                0 <= k < chars.len() ==> #[trigger] final(self).spec_grids().spec_bg()[line * old(self).spec_grids().spec_columns() + k] == (crate::glyph::Rgba {
                    r: spec_string_bg(bg).r,
                    g: spec_string_bg(bg).g,
                    b: spec_string_bg(bg).b,
                    a: spec_string_bg_alpha(bg, old(self).spec_grids().spec_bg_alpha()),
                }),
            forall|j: int|
                0 <= j < old(self).spec_grids().spec_fg().len() && !(line * old(self).spec_grids().spec_columns() <= j < line * old(self).spec_grids().spec_columns() + chars.len()) ==> #[trigger] final(self).spec_grids().spec_fg()[j] == old(self).spec_grids().spec_fg()[j],
            forall|j: int|
                0 <= j < old(self).spec_grids().spec_bg().len() && !(line * old(self).spec_grids().spec_columns() <= j < line * old(self).spec_grids().spec_columns() + chars.len()) ==> #[trigger] final(self).spec_grids().spec_bg()[j] == old(self).spec_grids().spec_bg()[j],
    {
        let bg_color = match bg {
            Option::Some(c) => c,
            Option::None => crate::glyph::Rgb { r: 0, g: 0, b: 0 },
        };
        let bg_alpha: Option<u8> = match bg {
            Option::Some(_) => Option::Some(255),
            Option::None => Option::None,
        };
        let n: usize = chars.len();
        let mut i: usize = 0;
        while i < n
            invariant
                self.wf(),
                self.spec_grids().spec_geometry_ok(),
                n == chars.len(),
                i <= n,
                line < self.spec_grids().spec_lines(),
                n <= self.spec_grids().spec_columns(),
                self.spec_grids().spec_columns() == old(self).spec_grids().spec_columns(),
                self.spec_grids().spec_lines() == old(self).spec_grids().spec_lines(),
                self.spec_grids().spec_cell_dims() == old(self).spec_grids().spec_cell_dims(),
                self.spec_grids().spec_pass_count() == old(self).spec_grids().spec_pass_count(),
                self.spec_grids().spec_bg_alpha() == old(self).spec_grids().spec_bg_alpha(),
                self.spec_grids().spec_cursor() == old(self).spec_grids().spec_cursor(),
                self.spec_quads().spec_groups().len() == old(self).spec_quads().spec_groups().len(),
                forall|j: int|
                    0 <= j < old(self).spec_grids().spec_pass_count() ==> (#[trigger] self.spec_grids().spec_pass(j)).spec_atlas() == old(self).spec_grids().spec_pass(j).spec_atlas(),
                bg_color == spec_string_bg(bg),
                bg_alpha == (match bg {
                    Option::Some(_) => Option::Some(255u8),
                    Option::None => Option::<u8>::None,
                }),
                self.spec_grids().spec_fg().len() == old(self).spec_grids().spec_fg().len(),
                self.spec_grids().spec_bg().len() == old(self).spec_grids().spec_bg().len(),
                forall|k: int|
                    0 <= k < i ==> #[trigger] self.spec_grids().spec_fg()[line * old(self).spec_grids().spec_columns() + k] == fg,
                forall|k: int|
                    0 <= k < i ==> #[trigger] self.spec_grids().spec_bg()[line * old(self).spec_grids().spec_columns() + k] == (crate::glyph::Rgba {
                        r: spec_string_bg(bg).r,
                        g: spec_string_bg(bg).g,
                        b: spec_string_bg(bg).b,
                        a: spec_string_bg_alpha(bg, old(self).spec_grids().spec_bg_alpha()),
                    }),
                forall|j: int|
                    0 <= j < old(self).spec_grids().spec_fg().len() && !(line * old(self).spec_grids().spec_columns() <= j < line * old(self).spec_grids().spec_columns() + i) ==> #[trigger] self.spec_grids().spec_fg()[j] == old(self).spec_grids().spec_fg()[j],
                forall|j: int|
                    0 <= j < old(self).spec_grids().spec_bg().len() && !(line * old(self).spec_grids().spec_columns() <= j < line * old(self).spec_grids().spec_columns() + i) ==> #[trigger] self.spec_grids().spec_bg()[j] == old(self).spec_grids().spec_bg()[j],
            decreases n - i,
        {
            proof {
                crate::grid_render::lemma_cell_index(
                    line as int,
                    i as int,
                    old(self).spec_grids().spec_columns(),
                    old(self).spec_grids().spec_lines(),
                );
            }
            let cell = RenderableCell {
                line,
                column: i,
                content: CellContent::Chars { first: chars[i], zero_width: Vec::new() },
                bold: false,
                italic: false,
                hidden: false,
                wide: false,
                fg,
                bg: bg_color,
                bg_alpha,
            };
            self.update_cell(cache, &cell);
            i = i + 1;
        }
    }

    /// Rebuild the atlases for a prefetch set of glyphs, as after a font
    /// change: derive the cell geometry that covers every prefetched
    /// glyph, drop and re-create the atlases with it, and prime the cache
    /// with every prefetched placement.
    ///
    /// The caller clears the cache's maps first; keys already present
    /// are not loaded again.
    pub fn clear_cache_with_common_glyphs(
        &mut self,
        cache: &mut GlyphCache,
        glyphs: &Vec<(GlyphKey, RasterizedGlyph)>,
    )
        requires
            old(self).wf(),
            0 < old(cache).spec_cell_size().x <= 0x8000,
            0 < old(cache).spec_cell_size().y <= 0x8000,
            forall|i: int|
                0 <= i < glyphs.len() ==> {
                    let g = (#[trigger] glyphs[i]).1;
                    &&& g.wf()
                    &&& g.left + g.width <= 0x8000
                    &&& g.top <= 0x8000
                    &&& -g.left <= 0x8000
                    &&& g.height - g.top <= 0x8000
                },
        ensures
            final(self).wf(),
            final(self).spec_grids().spec_geometry_ok(),
            final(cache).spec_cell_size() == old(cache).spec_cell_size(),
            final(cache).spec_font_keys() == old(cache).spec_font_keys(),
            final(cache).spec_font_size() == old(cache).spec_font_size(),
            final(cache).spec_cursor_cache() == old(cache).spec_cursor_cache(),
            ({
                let acc = crate::cache::spec_accumulated_geometry(
                    (old(cache).spec_cell_size().x as int, old(cache).spec_cell_size().y as int),
                    (0, 0),
                    glyphs@.map_values(|p: (GlyphKey, RasterizedGlyph)| p.1),
                );
                final(self).spec_grids().spec_cell_dims() == (CellDims {
                    size: Vec2i { x: acc.0.0 as i32, y: acc.0.1 as i32 },
                    offset: Vec2i { x: acc.1.0 as i32, y: acc.1.1 as i32 },
                })
            }),
            forall|i: int|
                0 <= i < glyphs.len() ==> final(cache).spec_cache().contains_key(
                    (#[trigger] glyphs[i]).0.spec_pack() as u128,
                ),
    {
        let ghost gseq = glyphs@.map_values(|p: (GlyphKey, RasterizedGlyph)| p.1);
        let mut atlas_cell_size: Vec2i = cache.cell_size();
        let mut atlas_cell_offset: Vec2i = Vec2i { x: 0, y: 0 };
        let n: usize = glyphs.len();
        let mut i: usize = 0;
        while i < n
            invariant
                n == glyphs.len(),
                i <= n,
                gseq == glyphs@.map_values(|p: (GlyphKey, RasterizedGlyph)| p.1),
                forall|k: int|
                    0 <= k < glyphs.len() ==> {
                        let g = (#[trigger] glyphs[k]).1;
                        &&& g.wf()
                        &&& g.left + g.width <= 0x8000
                        &&& g.top <= 0x8000
                        &&& -g.left <= 0x8000
                        &&& g.height - g.top <= 0x8000
                    },
                0 < old(cache).spec_cell_size().x <= 0x8000,
                0 < old(cache).spec_cell_size().y <= 0x8000,
                ({
                    let acc = crate::cache::spec_accumulated_geometry(
                        (
                            old(cache).spec_cell_size().x as int,
                            old(cache).spec_cell_size().y as int,
                        ),
                        (0, 0),
                        gseq.subrange(0, i as int),
                    );
                    &&& atlas_cell_size.x == acc.0.0
                    &&& atlas_cell_size.y == acc.0.1
                    &&& atlas_cell_offset.x == acc.1.0
                    &&& atlas_cell_offset.y == acc.1.1
                }),
                0 < atlas_cell_size.x <= 0x8000,
                0 < atlas_cell_size.y <= 0x8000,
                0 <= atlas_cell_offset.x <= 0x8000,
                0 <= atlas_cell_offset.y <= 0x8000,
                *cache == *old(cache),
                self.wf(),
                *self == *old(self),
            decreases n - i,
        {
            proof {
                assert(gseq.subrange(0, i + 1).drop_last() =~= gseq.subrange(0, i as int));
                assert(gseq.subrange(0, i + 1).last() == glyphs[i as int].1);
            }
            let g = &glyphs[i].1;
            crate::cache::grow_cell_geometry(&mut atlas_cell_size, &mut atlas_cell_offset, g);
            i = i + 1;
        }
        proof {
            assert(gseq.subrange(0, n as int) =~= gseq);
        }
        self.clear_atlas(atlas_cell_size, atlas_cell_offset);
        let mut i: usize = 0;
        while i < n
            invariant
                n == glyphs.len(),
                i <= n,
                forall|k: int| 0 <= k < glyphs.len() ==> (#[trigger] glyphs[k]).1.wf(),
                self.wf(),
                self.spec_grids().spec_geometry_ok(),
                self.spec_grids().spec_cell_dims() == (CellDims {
                    size: atlas_cell_size,
                    offset: atlas_cell_offset,
                }),
                cache.spec_cell_size() == old(cache).spec_cell_size(),
                cache.spec_font_keys() == old(cache).spec_font_keys(),
                cache.spec_font_size() == old(cache).spec_font_size(),
                cache.spec_cursor_cache() == old(cache).spec_cursor_cache(),
                forall|k: int|
                    0 <= k < i ==> cache.spec_cache().contains_key(
                        (#[trigger] glyphs[k]).0.spec_pack() as u128,
                    ),
            decreases n - i,
        {
            let key = glyphs[i].0;
            let g = &glyphs[i].1;
            self.ensure_glyph(cache, &key, g);
            proof {
                assert forall|k: int| 0 <= k < i + 1 implies cache.spec_cache().contains_key(
                    (#[trigger] glyphs[k]).0.spec_pack() as u128,
                ) by {
                    if k < i {
                        assert(cache.spec_cache().contains_key(glyphs[k].0.spec_pack() as u128));
                    }
                }
            }
            i = i + 1;
        }
    }
}

/// Whether a free-atlas reference is inside the coordinate ranges the
/// quad builder accepts; a defensive check mirroring
/// [`spec_free_ref_in_range`].
fn free_ref_in_range(f: &crate::glyph::AtlasRefFree) -> (r: bool)
    ensures
        r == spec_free_ref_in_range(*f),
{
    -0x10000 <= f.left && f.left <= 0x10000 && -0x10000 <= f.top && f.top <= 0x10000 && 0
        <= f.width && f.width <= 0x8000 && 0 <= f.height && f.height <= 0x8000 && 0 <= f.x && f.x
        <= 0x8000 && 0 <= f.y && f.y <= 0x8000
}

} // verus!
