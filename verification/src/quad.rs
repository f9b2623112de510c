//! Quad-based rendering for glyphs outside the grid scheme.
//!
//! Glyphs that the grid atlas rejects live in shelf-packed free atlases;
//! each frame, their on-screen quads are accumulated into vertex batches,
//! one group of batches per atlas. A batch closes when it reaches the
//! index-buffer ceiling and a new one opens, so a draw never exceeds the
//! GPU's 16-bit index range.

use vstd::prelude::*;

use crate::atlas::AtlasInsertError;
use crate::free_atlas::Atlas;
use crate::geom::Vec2i;
use crate::glyph::{AtlasRef, AtlasRefFree, Glyph, RasterizedGlyph, Rgb};

verus! {

/// Pixel edge of each free atlas texture.
pub const FREE_ATLAS_SIZE: i32 = 1024;

/// Vertex ceiling of one batch: quads are indexed with 16-bit indices.
pub const BATCH_MAX: usize = 0x1_0000;

/// One quad to draw: which free atlas holds the glyph, the cell's pixel
/// position on screen, the glyph's atlas rectangle and bearings, and the
/// cell's foreground.
#[derive(Clone, Copy, Debug, PartialEq, Eq, Structural)]
pub struct GlyphQuad {
    pub atlas_index: usize,
    pub pos: Vec2i,
    pub geom: AtlasRefFree,
    pub fg: Rgb,
    pub colored: bool,
}

/// One vertex of a glyph quad: screen position, atlas pixel position,
/// foreground color, colored flag. The GPU layer divides the atlas
/// position by the texture size for sampling.
#[derive(Clone, Copy, Debug, PartialEq, Eq, Structural)]
pub struct Vertex {
    pub x: i32,
    pub y: i32,
    pub u: i32,
    pub v: i32,
    pub fg: Rgb,
    pub flags: u8,
}

/// Error from adding a quad to a full batch.
#[derive(Clone, Copy, Debug, PartialEq, Eq, Structural)]
pub enum RectAddError {
    Full,
}

/// A quad's position and size stay well inside the vertex coordinate
/// range: screen positions are bounded by the screen, atlas rectangles by
/// the atlas texture.
pub open spec fn quad_in_range(q: GlyphQuad) -> bool {
    &&& -0x4000_0000 <= q.pos.x <= 0x4000_0000
    &&& -0x4000_0000 <= q.pos.y <= 0x4000_0000
    &&& -0x10000 <= q.geom.left <= 0x10000
    &&& -0x10000 <= q.geom.top <= 0x10000
    &&& 0 <= q.geom.width <= 0x8000
    &&& 0 <= q.geom.height <= 0x8000
    &&& 0 <= q.geom.x <= 0x8000
    &&& 0 <= q.geom.y <= 0x8000
}

/// The four vertices of a glyph quad, counterclockwise from the bottom
/// left, after the flip from upward bearings to downward screen y: the
/// quad's top edge sits at the cell's bottom minus the `top` bearing.
pub open spec fn quad_vertices(q: GlyphQuad, cell_height: int) -> Seq<Vertex> {
    let x = q.pos.x + q.geom.left;
    let y = q.pos.y + cell_height - q.geom.top;
    let fg = q.fg;
    let flags: u8 = if q.colored {
        1
    } else {
        0
    };
    seq![
        Vertex {
            x: x as i32,
            y: (y + q.geom.height) as i32,
            u: q.geom.x,
            v: (q.geom.y + q.geom.height) as i32,
            fg,
            flags,
        },
        Vertex { x: x as i32, y: y as i32, u: q.geom.x, v: q.geom.y, fg, flags },
        Vertex {
            x: (x + q.geom.width) as i32,
            y: (y + q.geom.height) as i32,
            u: (q.geom.x + q.geom.width) as i32,
            v: (q.geom.y + q.geom.height) as i32,
            fg,
            flags,
        },
        Vertex {
            x: (x + q.geom.width) as i32,
            y: y as i32,
            u: (q.geom.x + q.geom.width) as i32,
            v: q.geom.y,
            fg,
            flags,
        },
    ]
}

/// A dynamic vertex batch with its 16-bit index list; two triangles per
/// quad.
pub struct Batch {
    vertices: Vec<Vertex>,
    indices: Vec<u16>,
}

impl Batch {
    /// Whole quads only, under the index ceiling, with six indices per
    /// four vertices.
    pub open spec fn wf(self) -> bool {
        &&& self.spec_vertices().len() % 4 == 0
        &&& self.spec_vertices().len() <= BATCH_MAX
        &&& self.spec_indices().len() * 4 == self.spec_vertices().len() * 6
    }

    pub closed spec fn spec_vertices(self) -> Seq<Vertex> {
        self.vertices@
    }

    pub closed spec fn spec_indices(self) -> Seq<u16> {
        self.indices@
    }

    pub fn new() -> (r: Batch)
        ensures
            r.wf(),
            r.spec_vertices().len() == 0,
            r.spec_indices().len() == 0,
    {
        Batch { vertices: Vec::new(), indices: Vec::new() }
    }

    /// Drop all accumulated quads, keeping the batch for reuse.
    pub fn clear(&mut self)
        ensures
            final(self).wf(),
            final(self).spec_vertices().len() == 0,
            final(self).spec_indices().len() == 0,
    {
        self.vertices.clear();
        self.indices.clear();
    }

    /// The vertices accumulated so far, for upload.
    pub fn vertex_data(&self) -> (r: &Vec<Vertex>)
        ensures
            r@ == self.spec_vertices(),
    {
        &self.vertices
    }

    /// The triangle indices accumulated so far, for upload.
    pub fn index_data(&self) -> (r: &Vec<u16>)
        ensures
            r@ == self.spec_indices(),
    {
        &self.indices
    }

    /// Append one glyph quad: four vertices and the six indices of its
    /// two triangles. Fails when the quad would cross the index ceiling.
    pub fn add(&mut self, cell_height: i32, q: &GlyphQuad) -> (r: Result<(), RectAddError>)
        requires
            old(self).wf(),
            quad_in_range(*q),
            0 <= cell_height <= 0x8000,
        ensures
            final(self).wf(),
            match r {
                Result::Ok(()) => {
                    &&& old(self).spec_vertices().len() < BATCH_MAX - 4
                    &&& final(self).spec_vertices() == old(self).spec_vertices() + quad_vertices(
                        *q,
                        cell_height as int,
                    )
                    &&& final(self).spec_indices().len() == old(self).spec_indices().len() + 6
                },
                Result::Err(RectAddError::Full) => {
                    &&& old(self).spec_vertices().len() >= BATCH_MAX - 4
                    &&& *final(self) == *old(self)
                },
            },
    {
        let index = self.vertices.len();
        if index >= BATCH_MAX - 4 {
            return Result::Err(RectAddError::Full);
        }
        let base = index as u16;

        let x = q.pos.x + q.geom.left;
        let y = q.pos.y + (cell_height - q.geom.top);
        let fg = q.fg;
        let flags: u8 = if q.colored {
            1
        } else {
            0
        };

        self.vertices.push(
            Vertex {
                x,
                y: y + q.geom.height,
                u: q.geom.x,
                v: q.geom.y + q.geom.height,
                fg,
                flags,
            },
        );
        self.vertices.push(Vertex { x, y, u: q.geom.x, v: q.geom.y, fg, flags });
        self.vertices.push(
            Vertex {
                x: x + q.geom.width,
                y: y + q.geom.height,
                u: q.geom.x + q.geom.width,
                v: q.geom.y + q.geom.height,
                fg,
                flags,
            },
        );
        self.vertices.push(
            Vertex { x: x + q.geom.width, y, u: q.geom.x + q.geom.width, v: q.geom.y, fg, flags },
        );

        self.indices.push(base);
        self.indices.push(base + 1);
        self.indices.push(base + 2);
        self.indices.push(base + 2);
        self.indices.push(base + 3);
        self.indices.push(base + 1);

        proof {
            assert(self.vertices@ =~= old(self).vertices@ + quad_vertices(*q, cell_height as int));
        }
        Result::Ok(())
    }
}

/// One free atlas together with the vertex batches that sample it.
pub struct AtlasGroup {
    atlas: Atlas,
    batches: Vec<Batch>,
}

impl AtlasGroup {
    pub open spec fn wf(self) -> bool {
        &&& self.spec_atlas().wf()
        &&& self.spec_atlas().spec_width() == FREE_ATLAS_SIZE
        &&& self.spec_atlas().spec_height() == FREE_ATLAS_SIZE
        &&& forall|i: int| 0 <= i < self.spec_batches().len() ==> (#[trigger] self.spec_batches()[i]).wf()
    }

    pub closed spec fn spec_atlas(self) -> Atlas {
        self.atlas
    }

    pub closed spec fn spec_batches(self) -> Seq<Batch> {
        self.batches@
    }

    /// A fresh group: a new atlas, no batches yet.
    pub fn new(index: usize) -> (r: AtlasGroup)
        ensures
            r.wf(),
            r.spec_atlas().spec_index() == index,
            r.spec_atlas().spec_placed().len() == 0,
            r.spec_atlas().spec_row_extent() == 0,
            r.spec_atlas().spec_row_baseline() == 0,
            r.spec_atlas().spec_row_tallest() == 0,
            r.spec_batches().len() == 0,
    {
        AtlasGroup { atlas: Atlas::new(index, FREE_ATLAS_SIZE), batches: Vec::new() }
    }

    /// Reset the atlas packing state; placements die with it.
    pub fn clear_atlas(&mut self)
        requires
            old(self).wf(),
        ensures
            final(self).wf(),
            final(self).spec_atlas().spec_index() == old(self).spec_atlas().spec_index(),
            final(self).spec_atlas().spec_placed().len() == 0,
            final(self).spec_atlas().spec_row_extent() == 0,
            final(self).spec_atlas().spec_row_baseline() == 0,
            final(self).spec_atlas().spec_row_tallest() == 0,
            final(self).spec_batches().len() == old(self).spec_batches().len(),
    {
        self.atlas.clear();
        proof {
            assert forall|j: int| 0 <= j < self.spec_batches().len() implies (
            #[trigger] self.spec_batches()[j]).wf() by {
                assert(self.spec_batches()[j] == old(self).spec_batches()[j]);
                assert(old(self).spec_batches()[j].wf());
            }
        }
    }

    /// Drop all accumulated quads for a new frame, keeping the atlas.
    pub fn clear(&mut self)
        requires
            old(self).wf(),
        ensures
            final(self).wf(),
            final(self).spec_atlas() == old(self).spec_atlas(),
            final(self).spec_batches().len() == old(self).spec_batches().len(),
            forall|i: int|
                0 <= i < final(self).spec_batches().len() ==> (#[trigger] final(self).spec_batches()[i]).spec_vertices().len() == 0,
    {
        let n: usize = self.batches.len();
        let mut i: usize = 0;
        while i < n
            invariant
                n == self.batches.len(),
                i <= n,
                self.spec_atlas() == old(self).spec_atlas(),
                forall|j: int| 0 <= j < n ==> (#[trigger] self.spec_batches()[j]).wf(),
                forall|j: int|
                    0 <= j < i ==> (#[trigger] self.spec_batches()[j]).spec_vertices().len() == 0,
            decreases n - i,
        {
            let ghost pre: AtlasGroup = *self;
            let b = &mut self.batches[i];
            b.clear();
            proof {
                assert forall|j: int| 0 <= j < n implies (#[trigger] self.spec_batches()[j]).wf()
                    && (j < i + 1 ==> self.spec_batches()[j].spec_vertices().len() == 0) by {
                    if j != i {
                        assert(self.spec_batches()[j] == pre.spec_batches()[j]);
                    }
                }
            }
            i = i + 1;
        }
    }

    /// Append a quad, closing the current batch and opening a new one if
    /// it is full.
    pub fn add(&mut self, cell_height: i32, q: &GlyphQuad)
        requires
            old(self).wf(),
            quad_in_range(*q),
            0 <= cell_height <= 0x8000,
        ensures
            final(self).wf(),
            final(self).spec_atlas() == old(self).spec_atlas(),
            final(self).spec_batches().len() >= 1,
            final(self).spec_batches().last().spec_vertices().len() >= 4,
            final(self).spec_batches().last().spec_vertices().subrange(
                final(self).spec_batches().last().spec_vertices().len() - 4,
                final(self).spec_batches().last().spec_vertices().len() as int,
            ) == quad_vertices(*q, cell_height as int),
    {
        let push_new: bool = if self.batches.len() == 0 {
            true
        } else {
            let b = &self.batches[self.batches.len() - 1];
            b.vertex_data().len() >= BATCH_MAX - 4
        };
        if push_new {
            self.batches.push(Batch::new());
        }
        let last = self.batches.len() - 1;
        proof {
            assert((self.spec_batches()[last as int]).wf());
        }
        let b = &mut self.batches[last];
        let added = b.add(cell_height, q);
        proof {
            assert(added is Ok);
            assert forall|j: int| 0 <= j < self.spec_batches().len() implies (
            #[trigger] self.spec_batches()[j]).wf() by {
                if j != last {
                    assert(self.spec_batches()[j] == old(self).spec_batches()[j]);
                }
            }
            let vs = self.spec_batches()[last as int].spec_vertices();
            assert(vs.subrange(vs.len() - 4, vs.len() as int) =~= quad_vertices(
                *q,
                cell_height as int,
            ));
        }
    }
}

/// The quad-based glyph renderer: free atlases and their batches.
pub struct QuadGlyphRenderer {
    atlas_groups: Vec<AtlasGroup>,
}

impl QuadGlyphRenderer {
    pub open spec fn wf(self) -> bool {
        forall|i: int|
            0 <= i < self.spec_groups().len() ==> (#[trigger] self.spec_groups()[i]).wf() && self.spec_groups()[i].spec_atlas().spec_index() == i
    }

    pub closed spec fn spec_groups(self) -> Seq<AtlasGroup> {
        self.atlas_groups@
    }

    pub fn new() -> (r: QuadGlyphRenderer)
        ensures
            r.wf(),
            r.spec_groups().len() == 0,
    {
        QuadGlyphRenderer { atlas_groups: Vec::new() }
    }

    /// How many free atlases exist.
    pub fn group_count(&self) -> (r: usize)
        ensures
            r == self.spec_groups().len(),
    {
        self.atlas_groups.len()
    }

    /// Reset every atlas' packing state; called on font change.
    pub fn clear_atlas(&mut self)
        requires
            old(self).wf(),
        ensures
            final(self).wf(),
            final(self).spec_groups().len() == old(self).spec_groups().len(),
            forall|i: int|
                0 <= i < final(self).spec_groups().len() ==> {
                    let a = (#[trigger] final(self).spec_groups()[i]).spec_atlas();
                    &&& a.spec_placed().len() == 0
                    &&& a.spec_row_extent() == 0
                    &&& a.spec_row_baseline() == 0
                    &&& a.spec_row_tallest() == 0
                },
    {
        let n: usize = self.atlas_groups.len();
        let mut i: usize = 0;
        while i < n
            invariant
                n == self.atlas_groups.len(),
                i <= n,
                forall|j: int|
                    0 <= j < n ==> (#[trigger] self.spec_groups()[j]).wf()
                        && self.spec_groups()[j].spec_atlas().spec_index() == j,
                forall|j: int|
                    0 <= j < i ==> {
                        let a = (#[trigger] self.spec_groups()[j]).spec_atlas();
                        &&& a.spec_placed().len() == 0
                        &&& a.spec_row_extent() == 0
                        &&& a.spec_row_baseline() == 0
                        &&& a.spec_row_tallest() == 0
                    },
            decreases n - i,
        {
            let ghost pre: QuadGlyphRenderer = *self;
            proof {
                assert((self.spec_groups()[i as int]).wf());
            }
            let g = &mut self.atlas_groups[i];
            g.clear_atlas();
            proof {
                assert forall|j: int| 0 <= j < n implies (#[trigger] self.spec_groups()[j]).wf()
                    && self.spec_groups()[j].spec_atlas().spec_index() == j && (j < i + 1 ==> {
                    let a = self.spec_groups()[j].spec_atlas();
                    &&& a.spec_placed().len() == 0
                    &&& a.spec_row_extent() == 0
                    &&& a.spec_row_baseline() == 0
                    &&& a.spec_row_tallest() == 0
                }) by {
                    if j != i {
                        assert(self.spec_groups()[j] == pre.spec_groups()[j]);
                    }
                }
            }
            i = i + 1;
        }
    }

    /// Drop every accumulated quad for a new frame.
    pub fn clear(&mut self)
        requires
            old(self).wf(),
        ensures
            final(self).wf(),
            final(self).spec_groups().len() == old(self).spec_groups().len(),
            // The frame reset drops quads only: every atlas keeps its
            // packing state, so placements handed out earlier in the
            // session stay valid.
            forall|i: int|
                0 <= i < final(self).spec_groups().len() ==> (#[trigger] final(self).spec_groups()[i]).spec_atlas() == old(self).spec_groups()[i].spec_atlas(),
            forall|i: int, j: int|
                0 <= i < final(self).spec_groups().len() && 0 <= j < final(self).spec_groups()[i].spec_batches().len()
                    ==> #[trigger] final(self).spec_groups()[i].spec_batches()[j].spec_vertices().len()
                    == 0,
    {
        let n: usize = self.atlas_groups.len();
        let mut i: usize = 0;
        while i < n
            invariant
                n == self.atlas_groups.len(),
                i <= n,
                forall|j: int|
                    0 <= j < n ==> (#[trigger] self.spec_groups()[j]).wf()
                        && self.spec_groups()[j].spec_atlas().spec_index() == j,
                forall|j: int|
                    0 <= j < n ==> (#[trigger] self.spec_groups()[j]).spec_atlas() == old(self).spec_groups()[j].spec_atlas(),
                forall|j: int, k: int|
                    0 <= j < i && 0 <= k < self.spec_groups()[j].spec_batches().len()
                        ==> #[trigger] self.spec_groups()[j].spec_batches()[k].spec_vertices().len()
                        == 0,
            decreases n - i,
        {
            let ghost pre: QuadGlyphRenderer = *self;
            proof {
                assert((self.spec_groups()[i as int]).wf());
            }
            let g = &mut self.atlas_groups[i];
            g.clear();
            proof {
                assert forall|j: int| 0 <= j < n implies (#[trigger] self.spec_groups()[j]).wf()
                    && self.spec_groups()[j].spec_atlas().spec_index() == j
                    && self.spec_groups()[j].spec_atlas() == old(self).spec_groups()[j].spec_atlas() by {
                    if j != i {
                        assert(self.spec_groups()[j] == pre.spec_groups()[j]);
                    }
                }
                assert forall|j: int, k: int|
                    0 <= j < i + 1 && 0 <= k < self.spec_groups()[j].spec_batches().len() implies
                    #[trigger] self.spec_groups()[j].spec_batches()[k].spec_vertices().len()
                    == 0 by {
                    if j != i {
                        assert(self.spec_groups()[j] == pre.spec_groups()[j]);
                    }
                }
            }
            i = i + 1;
        }
    }

    /// Pack a rasterized glyph into the first free atlas with room,
    /// opening a new atlas when all are full.
    ///
    /// Rejected only for glyphs no fresh atlas could hold: wider or
    /// taller than the texture (`GlyphTooLarge`), or exactly the texture
    /// height, which no shelf below the top can fit (`Full`).
    pub fn insert_into_atlas(&mut self, rasterized: &RasterizedGlyph) -> (r: Result<
        Glyph,
        AtlasInsertError,
    >)
        requires
            old(self).wf(),
            rasterized.wf(),
        ensures
            final(self).wf(),
            match r {
                Result::Ok(glyph) => {
                    &&& rasterized.width <= FREE_ATLAS_SIZE && rasterized.height < FREE_ATLAS_SIZE
                    &&& glyph.colored == rasterized.spec_colored()
                    &&& (glyph.atlas_index as int) <= old(self).spec_groups().len()
                    &&& final(self).spec_groups().len() == (
                    if (glyph.atlas_index as int) < old(self).spec_groups().len() {
                        old(self).spec_groups().len() as int
                    } else {
                        old(self).spec_groups().len() + 1int
                    })
                    // First fit: every atlas before the serving one had no
                    // room for this glyph, so when all existing atlases
                    // are full the glyph lands in a freshly appended one.
                    &&& forall|j: int|
                        0 <= j < glyph.atlas_index ==> !(#[trigger] old(self).spec_groups()[j]).spec_atlas().spec_insert_succeeds(
                            *rasterized,
                        )
                    &&& (glyph.atlas_index as int) < old(self).spec_groups().len() ==> old(self).spec_groups()[glyph.atlas_index as int].spec_atlas().spec_insert_succeeds(
                        *rasterized,
                    )
                    &&& forall|j: int|
                        0 <= j < old(self).spec_groups().len() && j != glyph.atlas_index
                            ==> (#[trigger] final(self).spec_groups()[j]).spec_atlas().spec_placed()
                            == old(self).spec_groups()[j].spec_atlas().spec_placed()
                    &&& glyph.atlas_ref matches AtlasRef::Free(p)
                    &&& glyph.atlas_ref matches AtlasRef::Free(p) ==> {
                        &&& p.width == rasterized.width && p.height == rasterized.height
                        &&& p.top == rasterized.top && p.left == rasterized.left
                        &&& final(self).spec_groups()[glyph.atlas_index as int].spec_atlas().spec_placed().len()
                            >= 1
                        &&& final(self).spec_groups()[glyph.atlas_index as int].spec_atlas().spec_placed().last()
                            == crate::free_atlas::place_rect(p)
                        &&& if (glyph.atlas_index as int) < old(self).spec_groups().len() {
                            final(self).spec_groups()[glyph.atlas_index as int].spec_atlas().spec_placed()
                                == old(self).spec_groups()[glyph.atlas_index as int].spec_atlas().spec_placed().push(
                                crate::free_atlas::place_rect(p),
                            )
                        } else {
                            final(self).spec_groups()[glyph.atlas_index as int].spec_atlas().spec_placed().len()
                                == 1
                        }
                    }
                },
                Result::Err(AtlasInsertError::GlyphTooLarge) => rasterized.width
                    > FREE_ATLAS_SIZE || rasterized.height > FREE_ATLAS_SIZE,
                Result::Err(AtlasInsertError::Full) => rasterized.width <= FREE_ATLAS_SIZE
                    && rasterized.height == FREE_ATLAS_SIZE,
            },
    {
        if rasterized.width > FREE_ATLAS_SIZE || rasterized.height > FREE_ATLAS_SIZE {
            return Result::Err(AtlasInsertError::GlyphTooLarge);
        }
        let n: usize = self.atlas_groups.len();
        let mut i: usize = 0;
        while i < n
            invariant
                old(self).wf(),
                rasterized.wf(),
                rasterized.width <= FREE_ATLAS_SIZE,
                rasterized.height <= FREE_ATLAS_SIZE,
                n == self.atlas_groups.len(),
                n == old(self).spec_groups().len(),
                i <= n,
                self.wf(),
                forall|j: int|
                    0 <= j < n ==> (#[trigger] self.spec_groups()[j]).spec_atlas().spec_placed()
                        == old(self).spec_groups()[j].spec_atlas().spec_placed(),
                forall|j: int|
                    i <= j < n ==> #[trigger] self.spec_groups()[j] == old(self).spec_groups()[j],
                forall|j: int|
                    0 <= j < i ==> !(#[trigger] old(self).spec_groups()[j]).spec_atlas().spec_insert_succeeds(
                        *rasterized,
                    ),
            decreases n - i,
        {
            let ghost pre: QuadGlyphRenderer = *self;
            proof {
                assert((self.spec_groups()[i as int]).wf());
            }
            let attempted = {
                let g = &mut self.atlas_groups[i];
                g.atlas.insert(rasterized)
            };
            proof {
                assert forall|j: int| 0 <= j < self.spec_groups().len() implies (
                #[trigger] self.spec_groups()[j]).wf()
                    && self.spec_groups()[j].spec_atlas().spec_index() == j by {
                    assert(pre.spec_groups()[j].wf());
                    if j != i {
                        assert(self.spec_groups()[j] == pre.spec_groups()[j]);
                    }
                }
                assert(pre.spec_groups()[i as int] == old(self).spec_groups()[i as int]);
                if !(attempted is Ok) {
                    assert forall|j: int|
                        0 <= j < n implies (
                    #[trigger] self.spec_groups()[j]).spec_atlas().spec_placed() == old(self).spec_groups()[j].spec_atlas().spec_placed() by {
                        if j != i {
                            assert(self.spec_groups()[j] == pre.spec_groups()[j]);
                        } else {
                            assert(self.spec_groups()[j].spec_atlas().spec_placed()
                                == pre.spec_groups()[j].spec_atlas().spec_placed());
                        }
                    }
                    assert forall|j: int|
                        i + 1 <= j < n implies #[trigger] self.spec_groups()[j] == old(self).spec_groups()[j] by {
                        assert(self.spec_groups()[j] == pre.spec_groups()[j]);
                    }
                } else {
                    assert(pre.spec_groups()[i as int].spec_atlas().spec_placed() == old(self).spec_groups()[i as int].spec_atlas().spec_placed());
                    assert forall|j: int|
                        0 <= j < n && j != i implies (
                    #[trigger] self.spec_groups()[j]).spec_atlas().spec_placed() == old(self).spec_groups()[j].spec_atlas().spec_placed() by {
                        assert(self.spec_groups()[j] == pre.spec_groups()[j]);
                    }
                }
            }
            match attempted {
                Result::Ok(p) => {
                    return Result::Ok(
                        Glyph {
                            atlas_index: i,
                            colored: rasterized.colored(),
                            atlas_ref: AtlasRef::Free(p),
                        },
                    );
                },
                Result::Err(AtlasInsertError::GlyphTooLarge) => {
                    return Result::Err(AtlasInsertError::GlyphTooLarge);
                },
                Result::Err(AtlasInsertError::Full) => {
                },
            }
            i = i + 1;
        }
        let ghost pre_push: QuadGlyphRenderer = *self;
        let index = self.atlas_groups.len();
        self.atlas_groups.push(AtlasGroup::new(index));
        proof {
            assert forall|j: int| 0 <= j < self.spec_groups().len() implies (
            #[trigger] self.spec_groups()[j]).wf()
                && self.spec_groups()[j].spec_atlas().spec_index() == j by {
                if j < index {
                    assert(self.spec_groups()[j] == pre_push.spec_groups()[j]);
                    assert(pre_push.spec_groups()[j].wf());
                }
            }
        }
        let ghost pre_ins: QuadGlyphRenderer = *self;
        let attempted = {
            let g = &mut self.atlas_groups[index];
            g.atlas.insert(rasterized)
        };
        proof {
            assert forall|j: int| 0 <= j < self.spec_groups().len() implies (
            #[trigger] self.spec_groups()[j]).wf()
                && self.spec_groups()[j].spec_atlas().spec_index() == j by {
                assert(pre_ins.spec_groups()[j].wf());
                if j != index {
                    assert(self.spec_groups()[j] == pre_ins.spec_groups()[j]);
                }
            }
            assert forall|j: int|
                0 <= j < index implies (#[trigger] self.spec_groups()[j]).spec_atlas().spec_placed()
                == old(self).spec_groups()[j].spec_atlas().spec_placed() by {
                assert(self.spec_groups()[j] == pre_ins.spec_groups()[j]);
                assert(pre_ins.spec_groups()[j] == pre_push.spec_groups()[j]);
            }
        }
        match attempted {
            Result::Ok(p) => Result::Ok(
                Glyph {
                    atlas_index: index,
                    colored: rasterized.colored(),
                    atlas_ref: AtlasRef::Free(p),
                },
            ),
            Result::Err(_) => Result::Err(AtlasInsertError::Full),
        }
    }

    /// Queue a glyph quad for drawing.
    pub fn add_to_render(&mut self, cell_height: i32, quad: &GlyphQuad)
        requires
            old(self).wf(),
            quad.atlas_index < old(self).spec_groups().len(),
            quad_in_range(*quad),
            0 <= cell_height <= 0x8000,
        ensures
            final(self).wf(),
            final(self).spec_groups().len() == old(self).spec_groups().len(),
            final(self).spec_groups()[quad.atlas_index as int].spec_atlas() == old(self).spec_groups()[quad.atlas_index as int].spec_atlas(),
            ({
                let batches = final(self).spec_groups()[quad.atlas_index as int].spec_batches();
                batches.len() >= 1 && batches.last().spec_vertices().len() >= 4
                    && batches.last().spec_vertices().subrange(
                    batches.last().spec_vertices().len() - 4,
                    batches.last().spec_vertices().len() as int,
                ) == quad_vertices(*quad, cell_height as int)
            }),
            forall|j: int|
                0 <= j < old(self).spec_groups().len() && j != quad.atlas_index
                    ==> #[trigger] final(self).spec_groups()[j] == old(self).spec_groups()[j],
    {
        proof {
            assert((self.spec_groups()[quad.atlas_index as int]).wf());
        }
        let g = &mut self.atlas_groups[quad.atlas_index];
        g.add(cell_height, quad);
        proof {
            assert forall|j: int| 0 <= j < self.spec_groups().len() implies (
            #[trigger] self.spec_groups()[j]).wf()
                && self.spec_groups()[j].spec_atlas().spec_index() == j by {
                assert(old(self).spec_groups()[j].wf());
                if j != quad.atlas_index {
                    assert(self.spec_groups()[j] == old(self).spec_groups()[j]);
                }
            }
        }
    }

    /// Borrow a group's batches for drawing.
    pub fn group_batches(&self, i: usize) -> (r: &Vec<Batch>)
        requires
            i < self.spec_groups().len(),
        ensures
            r@ == self.spec_groups()[i as int].spec_batches(),
    {
        &self.atlas_groups[i].batches
    }
}

} // verus!
