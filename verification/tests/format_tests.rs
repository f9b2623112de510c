//! Texture formats, key packing and quad batching details.

use glyph_atlas::atlas::{CellDims, GridAtlas};
use glyph_atlas::geom::Vec2i;
use glyph_atlas::glyph::{AtlasRefFree, GlyphKey, Rgb};
use glyph_atlas::quad::{Batch, GlyphQuad};
use glyph_atlas::texture::{get_gl_format, PixelFormat, GL_RGB, GL_RGBA, GL_UNSIGNED_BYTE};

#[test]
fn gl_format_encodings() {
    let rgba = get_gl_format(PixelFormat::RGBA8);
    assert_eq!(rgba.internal, GL_RGBA as i32);
    assert_eq!(rgba.format, GL_RGBA);
    assert_eq!(rgba.texel_type, GL_UNSIGNED_BYTE);
    assert_eq!(rgba.pixel_bytes, 4);

    let rgb = get_gl_format(PixelFormat::RGB8);
    assert_eq!(rgb.internal, GL_RGB as i32);
    assert_eq!(rgb.format, GL_RGB);
    assert_eq!(rgb.texel_type, GL_UNSIGNED_BYTE);
    assert_eq!(rgb.pixel_bytes, 3);
}

#[test]
fn glyph_keys_pack_distinctly() {
    let base = GlyphKey { font_key: 1, size: 1_200_000, character: 'a', wide: false, zero_width: false };
    let variants = [
        GlyphKey { character: 'b', ..base },
        GlyphKey { font_key: 2, ..base },
        GlyphKey { size: 1_200_001, ..base },
        GlyphKey { wide: true, ..base },
        GlyphKey { zero_width: true, ..base },
    ];
    for v in variants {
        assert_ne!(base.pack(), v.pack());
    }
    assert_eq!(base.pack(), base.pack());
}

#[test]
fn grid_atlas_cell_dims_round_trip() {
    let atlas = GridAtlas::new(3, Vec2i { x: 9, y: 17 }, Vec2i { x: 2, y: 4 });
    let dims: CellDims = atlas.cell_dims();
    assert_eq!((dims.size.x, dims.size.y), (9, 17));
    assert_eq!((dims.offset.x, dims.offset.y), (2, 4));
    assert_eq!(atlas.index(), 3);
}

#[test]
fn batch_builds_two_triangles_per_quad() {
    let mut batch = Batch::new();
    let quad = GlyphQuad {
        atlas_index: 0,
        pos: Vec2i { x: 100, y: 200 },
        geom: AtlasRefFree { x: 10, y: 20, width: 8, height: 12, top: 9, left: 2 },
        fg: Rgb { r: 1, g: 2, b: 3 },
        colored: false,
    };
    batch.add(18, &quad).unwrap();
    let vs = batch.vertex_data();
    assert_eq!(vs.len(), 4);
    // x = pos.x + left = 102; y = pos.y + cell_height - top = 209.
    assert_eq!((vs[1].x, vs[1].y), (102, 209));
    assert_eq!((vs[0].x, vs[0].y), (102, 209 + 12));
    assert_eq!((vs[2].x, vs[2].y), (110, 209 + 12));
    assert_eq!((vs[3].x, vs[3].y), (110, 209));
    // Atlas pixel coordinates travel with the vertices.
    assert_eq!((vs[1].u, vs[1].v), (10, 20));
    assert_eq!((vs[2].u, vs[2].v), (18, 32));
    assert_eq!(vs[0].flags, 0);
    let is = batch.index_data();
    assert_eq!(is.as_slice(), &[0, 1, 2, 2, 3, 1]);
}

#[test]
fn batch_clear_drops_quads() {
    let mut batch = Batch::new();
    let quad = GlyphQuad {
        atlas_index: 0,
        pos: Vec2i { x: 0, y: 0 },
        geom: AtlasRefFree { x: 0, y: 0, width: 1, height: 1, top: 1, left: 0 },
        fg: Rgb { r: 0, g: 0, b: 0 },
        colored: true,
    };
    batch.add(10, &quad).unwrap();
    assert_eq!(batch.vertex_data().len(), 4);
    batch.clear();
    assert_eq!(batch.vertex_data().len(), 0);
    assert_eq!(batch.index_data().len(), 0);
}
