//! The glyph cache: one placed glyph per (font, size, character, flags)
//! key, plus the font-selection and metric bookkeeping around it.
//!
//! Entries are created lazily on first use and invalidated wholesale on
//! every font, size or DPI change: partial eviction from a packed atlas
//! would fragment it, so the design rebuilds from scratch on those rare
//! events. Rasterization itself happens outside; the cache stores and
//! serves the resulting placements.

use vstd::prelude::*;

use std::collections::HashMap;

use crate::geom::Vec2i;
use crate::glyph::{CursorKey, Glyph, GlyphKey, RasterizedGlyph};

verus! {

broadcast use vstd::std_specs::hash::group_hash_axioms;

/// Integer font metrics, in pixels, as the cache keeps them: the
/// fractional metrics the rasterizer reports are rounded once, outside,
/// and used consistently from then on.
#[derive(Clone, Copy, Debug, PartialEq, Eq, Structural)]
pub struct Metrics {
    pub ascent: i32,
    pub descent: i32,
    pub line_height: i32,
    pub average_advance: i32,
}

/// The four resolved font faces: regular, bold, italic, bold italic.
#[derive(Clone, Copy, Debug, PartialEq, Eq, Structural)]
pub struct FontKeys {
    pub regular: u32,
    pub bold: u32,
    pub italic: u32,
    pub bold_italic: u32,
}

/// Resolve the four font styles from what the font loader managed to
/// load: the regular face is required, each of the other styles falls
/// back to the regular face when its own load failed, degrading
/// gracefully instead of substituting a different family.
pub fn compute_font_keys(
    regular: u32,
    bold: Option<u32>,
    italic: Option<u32>,
    bold_italic: Option<u32>,
) -> (r: FontKeys)
    ensures
        r.regular == regular,
        r.bold == (match bold {
            Option::Some(k) => k,
            Option::None => regular,
        }),
        r.italic == (match italic {
            Option::Some(k) => k,
            Option::None => regular,
        }),
        r.bold_italic == (match bold_italic {
            Option::Some(k) => k,
            Option::None => regular,
        }),
{
    FontKeys {
        regular,
        bold: match bold {
            Option::Some(k) => k,
            Option::None => regular,
        },
        italic: match italic {
            Option::Some(k) => k,
            Option::None => regular,
        },
        bold_italic: match bold_italic {
            Option::Some(k) => k,
            Option::None => regular,
        },
    }
}

/// Apply the configured pixel offset and the baseline (descent)
/// correction to a freshly rasterized glyph, as every glyph gets before
/// placement: the `top` bearing is rebased so that the descent reserve
/// sits below the cell's pen origin.
pub fn apply_glyph_offsets(g: &mut RasterizedGlyph, glyph_offset: Vec2i, descent: i32)
    requires
        old(g).wf(),
        -0x80 <= glyph_offset.x <= 0x80,
        -0x80 <= glyph_offset.y <= 0x80,
        -0x4000 <= descent <= 0x4000,
        -0x4000 <= old(g).left <= 0x4000,
        -0x4000 <= old(g).top <= 0x4000,
    ensures
        final(g).wf(),
        final(g).left == old(g).left + glyph_offset.x,
        final(g).top == old(g).top + glyph_offset.y - descent,
        final(g).width == old(g).width,
        final(g).height == old(g).height,
        final(g).character == old(g).character,
        final(g).buffer == old(g).buffer,
        final(g).wide == old(g).wide,
        final(g).zero_width == old(g).zero_width,
{
    g.left = g.left + glyph_offset.x;
    g.top = g.top + glyph_offset.y;
    g.top = g.top - descent;
}

/// Grow a cell geometry accumulator by one glyph: the cell must reach
/// right to the glyph's right edge and up to its top bearing, and the
/// origin must reserve room for bearings left of the origin and descent
/// below the baseline.
pub fn grow_cell_geometry(size: &mut Vec2i, offset: &mut Vec2i, g: &RasterizedGlyph)
    requires
        g.wf(),
        -0x10000 <= old(size).x <= 0x10000,
        -0x10000 <= old(size).y <= 0x10000,
        -0x10000 <= old(offset).x <= 0x10000,
        -0x10000 <= old(offset).y <= 0x10000,
    ensures
        final(size).x == vstd::math::max(old(size).x as int, g.left + g.width),
        final(size).y == vstd::math::max(old(size).y as int, g.top as int),
        final(offset).x == vstd::math::max(old(offset).x as int, -g.left),
        final(offset).y == vstd::math::max(old(offset).y as int, g.height - g.top),
{
    if size.x < g.left + g.width {
        size.x = g.left + g.width;
    }
    if size.y < g.top {
        size.y = g.top;
    }
    if offset.x < -g.left {
        offset.x = -g.left;
    }
    if offset.y < g.height - g.top {
        offset.y = g.height - g.top;
    }
}

/// One step of the cell-geometry fold: grow the accumulated cell size
/// and origin offset to cover one more glyph.
pub open spec fn spec_grow_step(
    size: (int, int),
    offset: (int, int),
    g: RasterizedGlyph,
) -> ((int, int), (int, int)) {
    (
        (
            vstd::math::max(size.0, g.left + g.width),
            vstd::math::max(size.1, g.top as int),
        ),
        (
            vstd::math::max(offset.0, -g.left),
            vstd::math::max(offset.1, g.height - g.top),
        ),
    )
}

/// The cell geometry that covers every glyph of a prefetch set: the
/// fold of [`spec_grow_step`] from a base geometry over the sequence.
pub open spec fn spec_accumulated_geometry(
    size: (int, int),
    offset: (int, int),
    s: Seq<RasterizedGlyph>,
) -> ((int, int), (int, int))
    decreases s.len(),
{
    if s.len() == 0 {
        (size, offset)
    } else {
        let prev = spec_accumulated_geometry(size, offset, s.drop_last());
        spec_grow_step(prev.0, prev.1, s.last())
    }
}

/// Glyph cache keyed by font face, size, character and style flags.
pub struct GlyphCache {
    /// Cache of placed character glyphs, keyed by the packed glyph key.
    cache: HashMap<u128, Glyph>,
    /// Cache of placed cursor glyphs, keyed by the packed cursor key.
    cursor_cache: HashMap<u64, Glyph>,
    /// The resolved font faces.
    font_keys: FontKeys,
    /// Font size, in the rasterizer's scaled units.
    font_size: u32,
    /// Configured extra offset applied to every glyph.
    glyph_offset: Vec2i,
    /// Font metrics, in pixels.
    metrics: Metrics,
    /// Cell size derived from the metrics.
    cell_size: Vec2i,
}

impl GlyphCache {
    /// The character glyphs stored, as a map from packed keys.
    pub closed spec fn spec_cache(self) -> Map<u128, Glyph> {
        self.cache@
    }

    /// The cursor glyphs stored, as a map from packed keys.
    pub closed spec fn spec_cursor_cache(self) -> Map<u64, Glyph> {
        self.cursor_cache@
    }

    pub closed spec fn spec_font_keys(self) -> FontKeys {
        self.font_keys
    }

    pub closed spec fn spec_font_size(self) -> u32 {
        self.font_size
    }

    pub closed spec fn spec_glyph_offset(self) -> Vec2i {
        self.glyph_offset
    }

    pub closed spec fn spec_metrics(self) -> Metrics {
        self.metrics
    }

    pub closed spec fn spec_cell_size(self) -> Vec2i {
        self.cell_size
    }

    /// A fresh, empty cache over already-resolved fonts and metrics.
    pub fn new(
        font_keys: FontKeys,
        font_size: u32,
        glyph_offset: Vec2i,
        metrics: Metrics,
        cell_size: Vec2i,
    ) -> (r: GlyphCache)
        ensures
            r.spec_cache() == Map::<u128, Glyph>::empty(),
            r.spec_cursor_cache() == Map::<u64, Glyph>::empty(),
            r.spec_font_keys() == font_keys,
            r.spec_font_size() == font_size,
            r.spec_glyph_offset() == glyph_offset,
            r.spec_metrics() == metrics,
            r.spec_cell_size() == cell_size,
    {
        GlyphCache {
            cache: HashMap::new(),
            cursor_cache: HashMap::new(),
            font_keys,
            font_size,
            glyph_offset,
            metrics,
            cell_size,
        }
    }

    /// Look up a character glyph; the cache is untouched, so a repeated
    /// lookup under an unchanged font returns the identical placement.
    pub fn get(&self, key: &GlyphKey) -> (r: Option<Glyph>)
        ensures
            r == (if self.spec_cache().contains_key(key.spec_pack() as u128) {
                Option::Some(self.spec_cache()[key.spec_pack() as u128])
            } else {
                Option::<Glyph>::None
            }),
    {
        let packed: u128 = key.pack();
        match self.cache.get(&packed) {
            Option::Some(g) => Option::Some(*g),
            Option::None => Option::None,
        }
    }

    /// Store the placement for a key not yet cached. Existing entries
    /// are never overwritten: a key's placement is stable until the whole
    /// cache is invalidated.
    pub fn store(&mut self, key: &GlyphKey, glyph: Glyph)
        requires
            !old(self).spec_cache().contains_key(key.spec_pack() as u128),
        ensures
            final(self).spec_cache() == old(self).spec_cache().insert(
                key.spec_pack() as u128,
                glyph,
            ),
            final(self).spec_cursor_cache() == old(self).spec_cursor_cache(),
            final(self).spec_font_keys() == old(self).spec_font_keys(),
            final(self).spec_font_size() == old(self).spec_font_size(),
            final(self).spec_glyph_offset() == old(self).spec_glyph_offset(),
            final(self).spec_metrics() == old(self).spec_metrics(),
            final(self).spec_cell_size() == old(self).spec_cell_size(),
    {
        let packed: u128 = key.pack();
        self.cache.insert(packed, glyph);
    }

    /// Look up a cursor glyph.
    pub fn cursor_get(&self, key: &CursorKey) -> (r: Option<Glyph>)
        ensures
            r == (if self.spec_cursor_cache().contains_key(key.spec_pack() as u64) {
                Option::Some(self.spec_cursor_cache()[key.spec_pack() as u64])
            } else {
                Option::<Glyph>::None
            }),
    {
        let packed: u64 = key.pack();
        match self.cursor_cache.get(&packed) {
            Option::Some(g) => Option::Some(*g),
            Option::None => Option::None,
        }
    }

    /// Store the placement for a cursor key not yet cached.
    pub fn cursor_store(&mut self, key: &CursorKey, glyph: Glyph)
        requires
            !old(self).spec_cursor_cache().contains_key(key.spec_pack() as u64),
        ensures
            final(self).spec_cursor_cache() == old(self).spec_cursor_cache().insert(
                key.spec_pack() as u64,
                glyph,
            ),
            final(self).spec_cache() == old(self).spec_cache(),
            final(self).spec_font_keys() == old(self).spec_font_keys(),
            final(self).spec_font_size() == old(self).spec_font_size(),
            final(self).spec_glyph_offset() == old(self).spec_glyph_offset(),
            final(self).spec_metrics() == old(self).spec_metrics(),
            final(self).spec_cell_size() == old(self).spec_cell_size(),
    {
        let packed: u64 = key.pack();
        self.cursor_cache.insert(packed, glyph);
    }

    /// Invalidate every cached placement and adopt a new cell size;
    /// called when the atlases are rebuilt.
    pub fn clear_glyph_cache(&mut self, cell_size: Vec2i)
        ensures
            final(self).spec_cache() == Map::<u128, Glyph>::empty(),
            final(self).spec_cursor_cache() == Map::<u64, Glyph>::empty(),
            final(self).spec_cell_size() == cell_size,
            final(self).spec_font_keys() == old(self).spec_font_keys(),
            final(self).spec_font_size() == old(self).spec_font_size(),
            final(self).spec_glyph_offset() == old(self).spec_glyph_offset(),
            final(self).spec_metrics() == old(self).spec_metrics(),
    {
        self.cell_size = cell_size;
        self.cache = HashMap::new();
        self.cursor_cache = HashMap::new();
    }

    /// Adopt new fonts, size and metrics and invalidate everything: a
    /// font, size or DPI change is a hard reset, never an incremental
    /// eviction.
    pub fn update_font_size(
        &mut self,
        font_keys: FontKeys,
        font_size: u32,
        metrics: Metrics,
        cell_size: Vec2i,
    )
        ensures
            final(self).spec_cache() == Map::<u128, Glyph>::empty(),
            final(self).spec_cursor_cache() == Map::<u64, Glyph>::empty(),
            final(self).spec_font_keys() == font_keys,
            final(self).spec_font_size() == font_size,
            final(self).spec_metrics() == metrics,
            final(self).spec_cell_size() == cell_size,
            final(self).spec_glyph_offset() == old(self).spec_glyph_offset(),
    {
        self.font_keys = font_keys;
        self.font_size = font_size;
        self.metrics = metrics;
        self.clear_glyph_cache(cell_size);
    }

    /// The current font metrics.
    pub fn font_metrics(&self) -> (r: Metrics)
        ensures
            r == self.spec_metrics(),
    {
        self.metrics
    }

    /// The resolved font faces.
    pub fn font_keys(&self) -> (r: FontKeys)
        ensures
            r == self.spec_font_keys(),
    {
        self.font_keys
    }

    /// The current font size.
    pub fn font_size(&self) -> (r: u32)
        ensures
            r == self.spec_font_size(),
    {
        self.font_size
    }

    /// The configured glyph offset.
    pub fn glyph_offset(&self) -> (r: Vec2i)
        ensures
            r == self.spec_glyph_offset(),
    {
        self.glyph_offset
    }

    /// The current cell size.
    pub fn cell_size(&self) -> (r: Vec2i)
        ensures
            r == self.spec_cell_size(),
    {
        self.cell_size
    }
}

} // verus!
