//! The renderer, cache and compositor working together.

use glyph_atlas::cache::{compute_font_keys, FontKeys, GlyphCache, Metrics};
use glyph_atlas::cell::{CellContent, RenderableCell};
use glyph_atlas::geom::Vec2i;
use glyph_atlas::glyph::{
    AtlasRef, BitmapBuffer, CursorKey, CursorStyle, GlyphKey, RasterizedGlyph, Rgb,
};
use glyph_atlas::quad::QuadGlyphRenderer;
use glyph_atlas::renderer::SimpleRenderer;

fn metrics() -> Metrics {
    Metrics { ascent: 14, descent: 4, line_height: 18, average_advance: 10 }
}

fn font_keys() -> FontKeys {
    FontKeys { regular: 1, bold: 2, italic: 3, bold_italic: 4 }
}

fn new_cache() -> GlyphCache {
    GlyphCache::new(
        font_keys(),
        1_200_000,
        Vec2i { x: 0, y: 0 },
        metrics(),
        Vec2i { x: 10, y: 18 },
    )
}

fn small_glyph(c: char) -> RasterizedGlyph {
    RasterizedGlyph {
        character: c,
        width: 4,
        height: 6,
        top: 6,
        left: 1,
        buffer: BitmapBuffer::Rgb(vec![128u8; 4 * 6 * 3]),
        wide: false,
        zero_width: false,
    }
}

fn key_for(c: char) -> GlyphKey {
    GlyphKey { font_key: 1, size: 1_200_000, character: c, wide: false, zero_width: false }
}

fn cell_at(line: usize, column: usize, c: char) -> RenderableCell {
    RenderableCell {
        line,
        column,
        content: CellContent::Chars { first: c, zero_width: Vec::new() },
        bold: false,
        italic: false,
        hidden: false,
        wide: false,
        fg: Rgb { r: 200, g: 210, b: 220 },
        bg: Rgb { r: 5, g: 6, b: 7 },
        bg_alpha: None,
    }
}

fn ready_renderer() -> SimpleRenderer {
    let mut r = SimpleRenderer::new();
    r.resize(8, 4);
    r.clear_atlas(Vec2i { x: 10, y: 18 }, Vec2i { x: 1, y: 3 });
    r
}

#[test]
fn cache_returns_identical_placement_for_repeated_key() {
    let mut renderer = ready_renderer();
    let mut cache = new_cache();
    let key = key_for('a');
    let glyph = small_glyph('a');
    renderer.ensure_glyph(&mut cache, &key, &glyph);
    let first = cache.get(&key).expect("cached after ensure");
    renderer.ensure_glyph(&mut cache, &key, &glyph);
    let second = cache.get(&key).expect("still cached");
    assert_eq!(first, second);
    // No duplicate atlas insertion happened: the next distinct key gets
    // the immediately following grid cell, not one further along.
    let key_b = key_for('b');
    renderer.ensure_glyph(&mut cache, &key_b, &small_glyph('b'));
    match cache.get(&key_b).unwrap().atlas_ref {
        AtlasRef::Grid(p) => assert_eq!((p.line, p.column), (0, 2)),
        AtlasRef::Free(_) => panic!("small glyph belongs in the grid"),
    }
}

#[test]
fn first_glyph_lands_past_the_sentinel() {
    let mut renderer = ready_renderer();
    let mut cache = new_cache();
    let key = key_for('a');
    renderer.ensure_glyph(&mut cache, &key, &small_glyph('a'));
    match cache.get(&key).unwrap().atlas_ref {
        AtlasRef::Grid(p) => {
            assert_eq!((p.line, p.column), (0, 1));
        },
        AtlasRef::Free(_) => panic!("small glyph belongs in the grid"),
    }
}

#[test]
fn font_change_invalidates_cache() {
    let mut renderer = ready_renderer();
    let mut cache = new_cache();
    let key = key_for('q');
    renderer.ensure_glyph(&mut cache, &key, &small_glyph('q'));
    assert!(cache.get(&key).is_some());
    assert_eq!(renderer.grids().pass_count(), 1);

    // A font change resets the cache and drops every atlas pass.
    cache.update_font_size(font_keys(), 1_400_000, metrics(), Vec2i { x: 11, y: 20 });
    renderer.clear_atlas(Vec2i { x: 11, y: 20 }, Vec2i { x: 1, y: 3 });
    assert!(cache.get(&key).is_none(), "old entry must not survive a font change");
    assert_eq!(renderer.grids().pass_count(), 0, "old atlases must be gone");

    // Re-loading under the new size starts from a fresh atlas.
    let key2 = GlyphKey { size: 1_400_000, ..key };
    renderer.ensure_glyph(&mut cache, &key2, &small_glyph('q'));
    match cache.get(&key2).unwrap().atlas_ref {
        AtlasRef::Grid(p) => assert_eq!((p.line, p.column), (0, 1)),
        AtlasRef::Free(_) => panic!("small glyph belongs in the grid"),
    }
}

#[test]
fn resize_then_clear_leaves_sentinel_buffers() {
    let mut renderer = ready_renderer();
    let mut cache = new_cache();
    let key = key_for('a');
    renderer.ensure_glyph(&mut cache, &key, &small_glyph('a'));
    renderer.update_cell(&cache, &cell_at(1, 2, 'a'));

    renderer.resize(3, 2);
    renderer.clear(Rgb { r: 9, g: 8, b: 7 }, 201);

    let (columns, lines) = renderer.grids().size();
    assert_eq!((columns, lines), (3, 2));
    assert_eq!(renderer.grids().fg_colors().len(), 6);
    assert_eq!(renderer.grids().bg_colors().len(), 6);
    for c in renderer.grids().fg_colors() {
        assert_eq!((c.r, c.g, c.b), (0, 0, 0));
    }
    for c in renderer.grids().bg_colors() {
        assert_eq!((c.r, c.g, c.b, c.a), (9, 8, 7, 201));
    }
    for pass in 0..renderer.grids().pass_count() {
        let refs = renderer.grids().pass_glyph_refs(pass);
        assert_eq!(refs.len(), 6);
        for r in refs {
            assert_eq!((r.x, r.y, r.z, r.w), (0, 0, 0, 0));
        }
    }
    assert!(renderer.grids().cursor_ref().is_none());
}

#[test]
fn update_cell_writes_colors_and_reference() {
    let mut renderer = ready_renderer();
    let mut cache = new_cache();
    let key = key_for('a');
    renderer.ensure_glyph(&mut cache, &key, &small_glyph('a'));
    renderer.clear(Rgb { r: 0, g: 0, b: 0 }, 255);

    let cell = cell_at(1, 2, 'a');
    renderer.update_cell(&cache, &cell);

    let idx = 1 * 8 + 2;
    let fg = renderer.grids().fg_colors()[idx];
    assert_eq!((fg.r, fg.g, fg.b), (200, 210, 220));
    let bg = renderer.grids().bg_colors()[idx];
    // Default background keeps the frame's opacity alpha.
    assert_eq!((bg.r, bg.g, bg.b, bg.a), (5, 6, 7, 255));
    let r = renderer.grids().pass_glyph_refs(0)[idx];
    // The glyph sits at grid cell (0, 1); z = 0 marks a mono mask.
    assert_eq!((r.x, r.y, r.z, r.w), (1, 0, 0, 0));
    assert!(renderer.grids().pass_dirty(0));
}

#[test]
fn explicit_background_alpha_overrides_default() {
    let mut renderer = ready_renderer();
    let cache = new_cache();
    let mut cell = cell_at(0, 0, ' ');
    cell.bg_alpha = Some(77);
    renderer.update_cell(&cache, &cell);
    let bg = renderer.grids().bg_colors()[0];
    assert_eq!(bg.a, 77);
}

#[test]
fn hidden_cell_renders_space() {
    let mut renderer = ready_renderer();
    let mut cache = new_cache();
    let space_key = key_for(' ');
    renderer.ensure_glyph(&mut cache, &space_key, &small_glyph(' '));
    let mut cell = cell_at(0, 3, 'X');
    cell.hidden = true;
    renderer.update_cell(&cache, &cell);
    // The hidden cell resolved the space glyph (grid cell (0, 1)), not 'X'.
    let r = renderer.grids().pass_glyph_refs(0)[3];
    assert_eq!((r.x, r.y), (1, 0));
}

#[test]
fn wide_glyph_goes_to_the_free_atlas() {
    let mut renderer = ready_renderer();
    let mut cache = new_cache();
    let key = GlyphKey { font_key: 1, size: 1_200_000, character: '全', wide: true, zero_width: false };
    let glyph = RasterizedGlyph {
        character: '全',
        width: 18,
        height: 16,
        top: 14,
        left: 1,
        buffer: BitmapBuffer::Rgba(vec![200u8; 18 * 16 * 4]),
        wide: true,
        zero_width: false,
    };
    renderer.ensure_glyph(&mut cache, &key, &glyph);
    match cache.get(&key).unwrap().atlas_ref {
        AtlasRef::Grid(_) => panic!("wide glyphs bypass the grid"),
        AtlasRef::Free(f) => {
            assert_eq!((f.width, f.height), (18, 16));
            assert_eq!((f.left, f.top), (1, 14));
            assert_eq!((f.x, f.y), (0, 0));
        },
    }
    assert!(cache.get(&key).unwrap().colored);
}

#[test]
fn oversized_glyph_degrades_to_empty_placement() {
    let mut renderer = ready_renderer();
    let mut cache = new_cache();
    let key = key_for('B');
    let glyph = RasterizedGlyph {
        character: 'B',
        width: 1030,
        height: 40,
        top: 20,
        left: 0,
        buffer: BitmapBuffer::Rgb(vec![0u8; 1030 * 40 * 3]),
        wide: false,
        zero_width: false,
    };
    renderer.ensure_glyph(&mut cache, &key, &glyph);
    match cache.get(&key).unwrap().atlas_ref {
        AtlasRef::Grid(_) => panic!("wider than any atlas"),
        AtlasRef::Free(f) => {
            assert_eq!((f.width, f.height), (0, 0));
        },
    }
}

#[test]
fn cursor_cell_sets_cursor_overlay() {
    let mut renderer = ready_renderer();
    let mut cache = new_cache();
    let ckey = CursorKey { style: CursorStyle::Block, is_wide: false };
    renderer.ensure_cursor_glyph(&mut cache, &ckey, &small_glyph(' '));
    let cell = RenderableCell {
        line: 2,
        column: 5,
        content: CellContent::Cursor(ckey),
        bold: false,
        italic: false,
        hidden: false,
        wide: false,
        fg: Rgb { r: 250, g: 251, b: 252 },
        bg: Rgb { r: 0, g: 0, b: 0 },
        bg_alpha: None,
    };
    renderer.update_cell(&cache, &cell);
    let cursor = renderer.grids().cursor_ref().expect("cursor recorded");
    assert_eq!(cursor.atlas_index, 0);
    assert_eq!((cursor.cell.x, cursor.cell.y), (5, 2));
    assert_eq!((cursor.glyph.x, cursor.glyph.y), (1, 0));
    assert_eq!((cursor.color.r, cursor.color.g, cursor.color.b), (250, 251, 252));
}

#[test]
fn render_string_fills_a_line() {
    let mut renderer = ready_renderer();
    let mut cache = new_cache();
    for c in ['h', 'i', '!'] {
        renderer.ensure_glyph(&mut cache, &key_for(c), &small_glyph(c));
    }
    renderer.clear(Rgb { r: 0, g: 0, b: 0 }, 255);
    let chars = vec!['h', 'i', '!'];
    renderer.render_string(&cache, 3, &chars, Rgb { r: 1, g: 2, b: 3 }, None);
    for col in 0..3 {
        let fg = renderer.grids().fg_colors()[3 * 8 + col];
        assert_eq!((fg.r, fg.g, fg.b), (1, 2, 3));
        let r = renderer.grids().pass_glyph_refs(0)[3 * 8 + col];
        assert_ne!((r.x, r.y), (0, 0), "column {} must hold a glyph", col);
    }
}

#[test]
fn compute_font_keys_falls_back_to_regular() {
    let keys = compute_font_keys(7, None, Some(9), None);
    assert_eq!(keys.regular, 7);
    assert_eq!(keys.bold, 7);
    assert_eq!(keys.italic, 9);
    assert_eq!(keys.bold_italic, 7);
}

#[test]
fn prefetch_rebuild_derives_cell_geometry() {
    let mut renderer = SimpleRenderer::new();
    renderer.resize(4, 2);
    let mut cache = new_cache();
    // Two glyphs: one reaching 11 wide from origin, one descending 3
    // below the baseline and reaching 2 left of the origin.
    let a = RasterizedGlyph {
        character: 'a',
        width: 10,
        height: 12,
        top: 12,
        left: 1,
        buffer: BitmapBuffer::Rgb(vec![0u8; 10 * 12 * 3]),
        wide: false,
        zero_width: false,
    };
    let b = RasterizedGlyph {
        character: 'g',
        width: 6,
        height: 15,
        top: 12,
        left: -2,
        buffer: BitmapBuffer::Rgb(vec![0u8; 6 * 15 * 3]),
        wide: false,
        zero_width: false,
    };
    let glyphs = vec![(key_for('a'), a), (key_for('g'), b)];
    renderer.clear_cache_with_common_glyphs(&mut cache, &glyphs);
    // Base cell (10, 18); 'a' pushes width to max(10, 1+10) = 11;
    // offsets grow to (2, 3) for 'g'.
    let dims = renderer.grids().cell_dims();
    assert_eq!((dims.size.x, dims.size.y), (11, 18));
    assert_eq!((dims.offset.x, dims.offset.y), (2, 3));
    assert!(cache.get(&key_for('a')).is_some());
    assert!(cache.get(&key_for('g')).is_some());
}

#[test]
fn wide_cell_paints_spillover_background() {
    let mut renderer = ready_renderer();
    let cache = new_cache();
    renderer.clear(Rgb { r: 0, g: 0, b: 0 }, 255);
    let mut cell = cell_at(0, 2, 'W');
    cell.wide = true;
    cell.bg = Rgb { r: 40, g: 41, b: 42 };
    renderer.update_cell(&cache, &cell);
    let bg = renderer.grids().bg_colors();
    assert_eq!((bg[2].r, bg[2].g, bg[2].b), (40, 41, 42));
    // The spill-over neighbor shares the wide cell's background.
    assert_eq!((bg[3].r, bg[3].g, bg[3].b), (40, 41, 42));
    assert_eq!((bg[4].r, bg[4].g, bg[4].b), (0, 0, 0));
}

#[test]
fn zero_width_char_renders_as_shifted_quad() {
    let mut renderer = ready_renderer();
    let mut cache = new_cache();
    renderer.ensure_glyph(&mut cache, &key_for('e'), &small_glyph('e'));
    // A combining mark: flagged zero-width, so it bypasses the grid and
    // lands in the free atlas.
    let zw_key = GlyphKey {
        font_key: 1,
        size: 1_200_000,
        character: '\u{0301}',
        wide: false,
        zero_width: true,
    };
    let zw_glyph = RasterizedGlyph {
        character: '\u{0301}',
        width: 3,
        height: 2,
        top: 12,
        left: -2,
        buffer: BitmapBuffer::Rgb(vec![255u8; 3 * 2 * 3]),
        wide: false,
        zero_width: true,
    };
    renderer.ensure_glyph(&mut cache, &zw_key, &zw_glyph);
    let placed = cache.get(&zw_key).unwrap();
    assert!(matches!(placed.atlas_ref, AtlasRef::Free(_)));

    let cell = RenderableCell {
        line: 1,
        column: 3,
        content: CellContent::Chars { first: 'e', zero_width: vec!['\u{0301}'] },
        bold: false,
        italic: false,
        hidden: false,
        wide: false,
        fg: Rgb { r: 9, g: 9, b: 9 },
        bg: Rgb { r: 0, g: 0, b: 0 },
        bg_alpha: None,
    };
    renderer.update_cell(&cache, &cell);

    // The zero-width glyph's quad is anchored one cell to the right:
    // x = (column + 1) * cell_width + left = 4 * 10 - 2 = 38,
    // y = line * cell_height + cell_height - top = 18 + 18 - 12 = 24.
    let batches = renderer.quads().group_batches(0);
    let vs = batches.last().unwrap().vertex_data();
    assert_eq!(vs.len(), 4);
    assert_eq!((vs[1].x, vs[1].y), (38, 24));
    // The base character itself went into the grid pass.
    let r = renderer.grids().pass_glyph_refs(0)[1 * 8 + 3];
    assert_ne!((r.x, r.y), (0, 0));
}

#[test]
fn render_string_with_explicit_background() {
    let mut renderer = ready_renderer();
    let mut cache = new_cache();
    renderer.ensure_glyph(&mut cache, &key_for('!'), &small_glyph('!'));
    renderer.clear(Rgb { r: 0, g: 0, b: 0 }, 128);
    let chars = vec!['!'];
    renderer.render_string(&cache, 2, &chars, Rgb { r: 255, g: 0, b: 0 }, Some(Rgb { r: 60, g: 61, b: 62 }));
    let bg = renderer.grids().bg_colors()[2 * 8];
    // Explicit backgrounds render opaque, not at the frame's opacity.
    assert_eq!((bg.r, bg.g, bg.b, bg.a), (60, 61, 62, 255));
}

#[test]
fn apply_glyph_offsets_rebases_top() {
    let mut g = small_glyph('a');
    glyph_atlas::cache::apply_glyph_offsets(&mut g, Vec2i { x: 2, y: -1 }, 4);
    assert_eq!(g.left, 3);
    // top + offset.y - descent = 6 - 1 - 4.
    assert_eq!(g.top, 1);
    assert_eq!((g.width, g.height), (4, 6));
}

#[test]
fn tab_renders_as_space() {
    let mut renderer = ready_renderer();
    let mut cache = new_cache();
    renderer.ensure_glyph(&mut cache, &key_for(' '), &small_glyph(' '));
    renderer.update_cell(&cache, &cell_at(0, 5, '\t'));
    let r = renderer.grids().pass_glyph_refs(0)[5];
    assert_eq!((r.x, r.y), (1, 0));
}

#[test]
fn full_free_atlases_append_a_fresh_one() {
    // Fill the first 1024x1024 free atlas with 64x20 glyphs (51 shelves
    // of 16), then insert once more: the glyph must land in a freshly
    // appended atlas, not a full one.
    let mut quads = QuadGlyphRenderer::new();
    let glyph = RasterizedGlyph {
        character: 'm',
        width: 64,
        height: 20,
        top: 20,
        left: 0,
        buffer: BitmapBuffer::Rgb(vec![0u8; 64 * 20 * 3]),
        wide: false,
        zero_width: false,
    };
    for _ in 0..816 {
        let placed = quads.insert_into_atlas(&glyph).unwrap();
        assert_eq!(placed.atlas_index, 0);
    }
    assert_eq!(quads.group_count(), 1);
    let spilled = quads.insert_into_atlas(&glyph).unwrap();
    assert_eq!(spilled.atlas_index, 1, "a full atlas set appends a fresh one");
    assert_eq!(quads.group_count(), 2);
    match spilled.atlas_ref {
        AtlasRef::Free(f) => assert_eq!((f.x, f.y), (0, 0)),
        AtlasRef::Grid(_) => panic!("free-atlas insert returns a free reference"),
    }
}

#[test]
fn frame_clear_keeps_free_atlas_packing() {
    let mut renderer = ready_renderer();
    let mut cache = new_cache();
    let wide_key = GlyphKey { font_key: 1, size: 1_200_000, character: 'W', wide: true, zero_width: false };
    let wide_glyph = RasterizedGlyph {
        character: 'W',
        width: 20,
        height: 16,
        top: 14,
        left: 0,
        buffer: BitmapBuffer::Rgb(vec![1u8; 20 * 16 * 3]),
        wide: true,
        zero_width: false,
    };
    renderer.ensure_glyph(&mut cache, &wide_key, &wide_glyph);
    // A frame clear drops quads but must not reset the packing state,
    // or the cached placement would be overwritten by the next insert.
    renderer.clear(Rgb { r: 0, g: 0, b: 0 }, 255);
    let second_key = GlyphKey { character: 'X', ..wide_key };
    let second_glyph = RasterizedGlyph { character: 'X', ..wide_glyph.clone() };
    renderer.ensure_glyph(&mut cache, &second_key, &second_glyph);
    match cache.get(&second_key).unwrap().atlas_ref {
        AtlasRef::Free(f) => assert_eq!((f.x, f.y), (20, 0), "packing continues past the first glyph"),
        AtlasRef::Grid(_) => panic!("wide glyphs bypass the grid"),
    }
}
