//! Packing behavior of the grid and free atlases.

use glyph_atlas::atlas::{AtlasInsertError, GridAtlas};
use glyph_atlas::free_atlas::Atlas;
use glyph_atlas::geom::Vec2i;
use glyph_atlas::glyph::{BitmapBuffer, RasterizedGlyph};

fn empty_glyph(c: char) -> RasterizedGlyph {
    RasterizedGlyph {
        character: c,
        width: 0,
        height: 0,
        top: 0,
        left: 0,
        buffer: BitmapBuffer::Rgb(Vec::new()),
        wide: false,
        zero_width: false,
    }
}

fn rgb_glyph(c: char, width: i32, height: i32, left: i32, top: i32) -> RasterizedGlyph {
    RasterizedGlyph {
        character: c,
        width,
        height,
        top,
        left,
        buffer: BitmapBuffer::Rgb(vec![0u8; (width * height * 3) as usize]),
        wide: false,
        zero_width: false,
    }
}

#[test]
fn grid_atlas_ninety_five_ascii_row_major() {
    // A grid sized (34, 56) in cells: 34 columns of width 10 across a
    // 340-pixel texture, 56 lines of height 18 down 1024 pixels.
    let mut atlas = GridAtlas::with_size(
        0,
        Vec2i { x: 10, y: 18 },
        Vec2i { x: 0, y: 0 },
        Vec2i { x: 340, y: 1024 },
    );
    let mut expected_line: u16 = 0;
    let mut expected_column: u16 = 1;
    for code in 32u32..=126u32 {
        let c = char::from_u32(code).unwrap();
        let g = empty_glyph(c);
        let placed = atlas.insert(&g).unwrap();
        assert_eq!(placed.line, expected_line);
        assert_eq!(placed.column, expected_column);
        expected_column += 1;
        if expected_column == 34 {
            expected_column = 0;
            expected_line += 1;
        }
    }
    // 95 printable ASCII glyphs stay within line 0..=2 of a 34-wide grid.
    assert_eq!(expected_line, 2);
}

#[test]
fn grid_atlas_capacity_and_sentinel() {
    // 3 columns by 2 lines: cell (0, 0) is reserved, so exactly 5
    // inserts succeed, in row-major order, and the 6th reports Full.
    let mut atlas = GridAtlas::with_size(
        0,
        Vec2i { x: 10, y: 10 },
        Vec2i { x: 0, y: 0 },
        Vec2i { x: 30, y: 20 },
    );
    let mut placements = Vec::new();
    for i in 0..5 {
        let g = empty_glyph(char::from_u32(65 + i).unwrap());
        let placed = atlas.insert(&g).unwrap();
        assert!(!(placed.line == 0 && placed.column == 0));
        placements.push((placed.line, placed.column));
    }
    assert_eq!(placements, vec![(0, 1), (0, 2), (1, 0), (1, 1), (1, 2)]);
    // All placements are distinct.
    for i in 0..placements.len() {
        for j in (i + 1)..placements.len() {
            assert_ne!(placements[i], placements[j]);
        }
    }
    let g = empty_glyph('z');
    assert_eq!(atlas.insert(&g), Err(AtlasInsertError::Full));
}

#[test]
fn grid_atlas_rejects_oversized_glyph() {
    let mut atlas = GridAtlas::new(0, Vec2i { x: 10, y: 18 }, Vec2i { x: 0, y: 0 });
    // Wider than the 10-pixel cell: rejected so the free atlas can take it.
    let g = rgb_glyph('W', 12, 4, 0, 4);
    assert_eq!(atlas.insert(&g), Err(AtlasInsertError::GlyphTooLarge));
    // Still accepts a fitting glyph afterwards.
    let g = rgb_glyph('i', 2, 4, 0, 4);
    assert!(atlas.insert(&g).is_ok());
}

#[test]
fn grid_atlas_staged_pixels_match_blit() {
    // Cell 4x4 with origin offset (1, 1); a 2x2 glyph with bearings
    // left=0, top=2 lands at in-cell offset (1, 1): the pen origin sits
    // one pixel right, the glyph top two pixels above the origin row.
    let mut atlas = GridAtlas::with_size(
        0,
        Vec2i { x: 4, y: 4 },
        Vec2i { x: 1, y: 1 },
        Vec2i { x: 12, y: 8 },
    );
    let g = RasterizedGlyph {
        character: 'x',
        width: 2,
        height: 2,
        top: 2,
        left: 0,
        buffer: BitmapBuffer::Rgb(vec![10, 11, 12, 20, 21, 22, 30, 31, 32, 40, 41, 42]),
        wide: false,
        zero_width: false,
    };
    let placed = atlas.insert(&g).unwrap();
    assert_eq!((placed.line, placed.column), (0, 1));
    let row = atlas.commit_current_line().expect("staged data pending");
    assert_eq!(row.y, 0);
    // The staging row is the full 12-pixel texture width, 4 pixels high,
    // 4 bytes per pixel; the glyph's top-left pixel lands at
    // x = off_x + column * cell_w = 1 + 4 = 5, y = off_y = 1.
    assert_eq!(row.pixels.len(), 12 * 4 * 4);
    let texel = |x: usize, y: usize| -> [u8; 4] {
        let base = 4 * (y * 12 + x);
        [
            row.pixels[base],
            row.pixels[base + 1],
            row.pixels[base + 2],
            row.pixels[base + 3],
        ]
    };
    assert_eq!(texel(5, 1), [10, 11, 12, 0]);
    assert_eq!(texel(6, 1), [20, 21, 22, 0]);
    assert_eq!(texel(5, 2), [30, 31, 32, 0]);
    assert_eq!(texel(6, 2), [40, 41, 42, 0]);
    // A pixel outside the glyph's rectangle is still zero.
    assert_eq!(texel(4, 1), [0, 0, 0, 0]);
    assert_eq!(texel(7, 3), [0, 0, 0, 0]);
    // Nothing further to commit until the next insert.
    assert!(atlas.commit_current_line().is_none());
}

#[test]
fn free_atlas_shelf_rows_and_full() {
    // 1024x1024 atlas receiving 64x20 glyphs: 16 per shelf, 51 full
    // shelves (the 52nd would end at 1040 > 1024), then Full.
    let mut atlas = Atlas::new(0, 1024);
    for i in 0..816 {
        let g = rgb_glyph('m', 64, 20, 0, 20);
        let p = atlas
            .insert(&g)
            .unwrap_or_else(|e| panic!("insert {} failed: {:?}", i, e));
        assert_eq!(p.x, (i % 16) * 64);
        assert_eq!(p.y, (i / 16) * 20);
        assert_eq!((p.width, p.height), (64, 20));
    }
    let g = rgb_glyph('m', 64, 20, 0, 20);
    assert_eq!(atlas.insert(&g), Err(AtlasInsertError::Full));
}

#[test]
fn free_atlas_placements_do_not_overlap() {
    let mut atlas = Atlas::new(0, 128);
    let sizes: [(i32, i32); 7] = [(30, 12), (50, 20), (40, 8), (60, 16), (100, 30), (20, 5), (128, 40)];
    let mut rects: Vec<(i32, i32, i32, i32)> = Vec::new();
    for (i, (w, h)) in sizes.iter().enumerate() {
        let g = rgb_glyph(char::from_u32(97 + i as u32).unwrap(), *w, *h, 0, 0);
        let p = atlas.insert(&g).expect("fits the atlas");
        assert!(p.x >= 0 && p.y >= 0);
        assert!(p.x + p.width <= 128 && p.y + p.height <= 128);
        rects.push((p.x, p.y, p.width, p.height));
    }
    for i in 0..rects.len() {
        for j in (i + 1)..rects.len() {
            let (ax, ay, aw, ah) = rects[i];
            let (bx, by, bw, bh) = rects[j];
            let disjoint = ax + aw <= bx || bx + bw <= ax || ay + ah <= by || by + bh <= ay;
            assert!(disjoint, "rectangles {} and {} overlap", i, j);
        }
    }
}

#[test]
fn free_atlas_rejects_too_large() {
    let mut atlas = Atlas::new(0, 64);
    let g = rgb_glyph('G', 65, 10, 0, 0);
    assert_eq!(atlas.insert(&g), Err(AtlasInsertError::GlyphTooLarge));
    let g = rgb_glyph('G', 10, 65, 0, 0);
    assert_eq!(atlas.insert(&g), Err(AtlasInsertError::GlyphTooLarge));
}

#[test]
fn free_atlas_clear_resets_packing() {
    let mut atlas = Atlas::new(0, 128);
    let g = rgb_glyph('a', 30, 12, 0, 0);
    let first = atlas.insert(&g).unwrap();
    assert_eq!((first.x, first.y), (0, 0));
    let second = atlas.insert(&g).unwrap();
    assert_eq!((second.x, second.y), (30, 0));
    atlas.clear();
    let again = atlas.insert(&g).unwrap();
    assert_eq!((again.x, again.y), (0, 0));
}

#[test]
fn completed_rows_become_pending_uploads() {
    // Grid of 3x2 cells: filling columns 1 and 2 completes line 0, which
    // moves the staged row into the pending uploads.
    let mut atlas = GridAtlas::with_size(
        0,
        Vec2i { x: 10, y: 10 },
        Vec2i { x: 0, y: 0 },
        Vec2i { x: 30, y: 20 },
    );
    atlas.insert(&empty_glyph('a')).unwrap();
    atlas.insert(&empty_glyph('b')).unwrap();
    let rows = atlas.take_pending_uploads();
    assert_eq!(rows.len(), 1);
    assert_eq!(rows[0].y, 0);
    assert_eq!(rows[0].pixels.len(), 30 * 10 * 4);
    // Taking drains the queue.
    assert_eq!(atlas.take_pending_uploads().len(), 0);
}
