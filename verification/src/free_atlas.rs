//! The free atlas: shelf packing for glyphs the grid cannot hold.
//!
//! Irregular glyphs — wide, zero-width, oversized — are packed into
//! shelves (rows) of one shared texture: left to right within the current
//! shelf, shelves stacked top-down. The atlas records every placed
//! rectangle in ghost state and guarantees that no two placements ever
//! overlap and that shelves never run past the texture's bottom edge.

use vstd::prelude::*;

use crate::geom::{rect_in_bounds, rects_disjoint, RectPx};
use crate::glyph::{AtlasRefFree, RasterizedGlyph};
use crate::atlas::AtlasInsertError;

verus! {

/// Shelf-packing atlas over one fixed-size texture.
///
/// `row_extent` is the next free x in the current shelf, `row_baseline`
/// the y of the shelf's top edge, and `row_tallest` the height of the
/// tallest glyph placed in the shelf, which becomes the shelf's height
/// when the packer advances to the next one.
pub struct Atlas {
    index: usize,
    width: i32,
    height: i32,
    row_extent: i32,
    row_baseline: i32,
    row_tallest: i32,
    /// Every rectangle handed out since the last clear.
    placed: Ghost<Seq<RectPx>>,
}

impl Atlas {
    /// A placed rectangle either lies wholly above the current shelf, or
    /// inside the current shelf left of the write position.
    pub open spec fn behind_frontier(self, r: RectPx) -> bool {
        ||| r.y + r.h <= self.spec_row_baseline()
        ||| (r.y >= self.spec_row_baseline() && r.y + r.h <= self.spec_row_baseline()
            + self.spec_row_tallest() && r.x + r.w <= self.spec_row_extent())
    }

    /// Dimensions are positive and bounded; the packing state stays
    /// inside the texture; every placed rectangle is in bounds, behind
    /// the packing frontier, and disjoint from every other.
    pub closed spec fn wf(self) -> bool {
        &&& 0 < self.width <= 0x8000
        &&& 0 < self.height <= 0x8000
        &&& 0 <= self.row_extent <= self.width
        &&& 0 <= self.row_baseline <= self.height
        &&& 0 <= self.row_tallest
        &&& self.row_baseline + self.row_tallest <= self.height
        &&& forall|i: int|
            0 <= i < self.placed@.len() ==> rect_in_bounds(
                #[trigger] self.placed@[i],
                self.width as int,
                self.height as int,
            )
        &&& forall|i: int|
            0 <= i < self.placed@.len() ==> self.behind_frontier(#[trigger] self.placed@[i])
        &&& forall|i: int, j: int|
            0 <= i < self.placed@.len() && 0 <= j < self.placed@.len() && i != j ==> rects_disjoint(
                #[trigger] self.placed@[i],
                #[trigger] self.placed@[j],
            )
    }

    pub closed spec fn spec_index(self) -> int {
        self.index as int
    }

    pub closed spec fn spec_width(self) -> int {
        self.width as int
    }

    pub closed spec fn spec_height(self) -> int {
        self.height as int
    }

    pub closed spec fn spec_row_extent(self) -> int {
        self.row_extent as int
    }

    pub closed spec fn spec_row_baseline(self) -> int {
        self.row_baseline as int
    }

    pub closed spec fn spec_row_tallest(self) -> int {
        self.row_tallest as int
    }

    /// The rectangles handed out since the last clear, oldest first.
    pub closed spec fn spec_placed(self) -> Seq<RectPx> {
        self.placed@
    }

    /// The glyph fits the current shelf: room to the right, and short
    /// enough that the shelf, grown to this glyph's height, stays on the
    /// texture.
    pub open spec fn spec_room_in_row(self, g: RasterizedGlyph) -> bool {
        &&& self.spec_row_extent() + g.width <= self.spec_width()
        &&& g.height < self.spec_height() - self.spec_row_baseline()
    }

    /// Advancing to the next shelf leaves a nonzero band of texture.
    pub open spec fn spec_can_advance(self) -> bool {
        self.spec_height() - (self.spec_row_baseline() + self.spec_row_tallest()) > 0
    }

    /// The glyph would fit a fresh shelf below the current one.
    pub open spec fn spec_room_after_advance(self, g: RasterizedGlyph) -> bool {
        &&& g.width <= self.spec_width()
        &&& g.height < self.spec_height() - (self.spec_row_baseline() + self.spec_row_tallest())
    }

    /// Exactly when an insert returns a placement: the glyph fits the
    /// texture at all, and fits either the current shelf or the next one.
    pub open spec fn spec_insert_succeeds(self, g: RasterizedGlyph) -> bool {
        &&& g.width <= self.spec_width()
        &&& g.height <= self.spec_height()
        &&& (self.spec_room_in_row(g) || (self.spec_can_advance() && self.spec_room_after_advance(
            g,
        )))
    }

    /// A fresh shelf-packing atlas over a `size` by `size` texture.
    pub fn new(index: usize, size: i32) -> (r: Atlas)
        requires
            0 < size <= 0x8000,
        ensures
            r.wf(),
            r.spec_index() == index,
            r.spec_width() == size,
            r.spec_height() == size,
            r.spec_row_extent() == 0,
            r.spec_row_baseline() == 0,
            r.spec_row_tallest() == 0,
            r.spec_placed().len() == 0,
    {
        Atlas {
            index,
            width: size,
            height: size,
            row_extent: 0,
            row_baseline: 0,
            row_tallest: 0,
            placed: Ghost(Seq::empty()),
        }
    }

    /// This atlas' index among the renderer's free atlases.
    pub fn index(&self) -> (r: usize)
        ensures
            r == self.spec_index(),
    {
        self.index
    }

    /// Reset the packing state without touching the texture: previous
    /// contents become dead pixels that are overwritten before they can
    /// be sampled again, since all references to them are cleared first.
    pub fn clear(&mut self)
        requires
            old(self).wf(),
        ensures
            final(self).wf(),
            final(self).spec_index() == old(self).spec_index(),
            final(self).spec_width() == old(self).spec_width(),
            final(self).spec_height() == old(self).spec_height(),
            final(self).spec_row_extent() == 0,
            final(self).spec_row_baseline() == 0,
            final(self).spec_row_tallest() == 0,
            final(self).spec_placed().len() == 0,
    {
        self.row_extent = 0;
        self.row_baseline = 0;
        self.row_tallest = 0;
        self.placed = Ghost(Seq::empty());
    }

    /// Move the packing frontier to the next shelf: the current shelf's
    /// height is fixed at its tallest glyph, the write position returns
    /// to the left edge. Fails with `Full` when no texture remains below.
    fn advance_row(&mut self) -> (r: Result<(), AtlasInsertError>)
        requires
            old(self).wf(),
        ensures
            final(self).wf(),
            final(self).spec_index() == old(self).spec_index(),
            final(self).spec_width() == old(self).spec_width(),
            final(self).spec_height() == old(self).spec_height(),
            final(self).spec_placed() == old(self).spec_placed(),
            match r {
                Result::Ok(()) => {
                    &&& old(self).spec_can_advance()
                    &&& final(self).spec_row_baseline() == old(self).spec_row_baseline() + old(
                        self,
                    ).spec_row_tallest()
                    &&& final(self).spec_row_extent() == 0
                    &&& final(self).spec_row_tallest() == 0
                },
                Result::Err(e) => e == AtlasInsertError::Full && !old(self).spec_can_advance()
                    && *final(self) == *old(self),
            },
    {
        let advance_to = self.row_baseline + self.row_tallest;
        if self.height - advance_to <= 0 {
            return Result::Err(AtlasInsertError::Full);
        }
        self.row_baseline = advance_to;
        self.row_extent = 0;
        self.row_tallest = 0;
        Result::Ok(())
    }

    /// Whether the glyph fits the current shelf.
    fn room_in_row(&self, g: &RasterizedGlyph) -> (r: bool)
        requires
            self.wf(),
            g.wf(),
        ensures
            r == self.spec_room_in_row(*g),
    {
        self.row_extent + g.width <= self.width && g.height < self.height - self.row_baseline
    }

    /// Attempt to pack a rasterized glyph.
    ///
    /// A glyph larger than the texture is rejected outright; otherwise
    /// the packer tries the current shelf, advances one shelf if needed,
    /// and reports `Full` when neither has room. On success the returned
    /// rectangle carries the glyph's bearings and is disjoint from every
    /// rectangle handed out since the last clear.
    pub fn insert(&mut self, g: &RasterizedGlyph) -> (r: Result<AtlasRefFree, AtlasInsertError>)
        requires
            old(self).wf(),
            g.wf(),
        ensures
            final(self).wf(),
            final(self).spec_index() == old(self).spec_index(),
            final(self).spec_width() == old(self).spec_width(),
            final(self).spec_height() == old(self).spec_height(),
            match r {
                Result::Err(AtlasInsertError::GlyphTooLarge) => {
                    &&& (g.width > old(self).spec_width() || g.height > old(self).spec_height())
                    &&& *final(self) == *old(self)
                },
                Result::Err(AtlasInsertError::Full) => {
                    &&& !old(self).spec_insert_succeeds(*g)
                    &&& g.width <= old(self).spec_width() && g.height <= old(self).spec_height()
                    &&& final(self).spec_placed() == old(self).spec_placed()
                },
                Result::Ok(p) => {
                    &&& old(self).spec_insert_succeeds(*g)
                    &&& p.width == g.width && p.height == g.height
                    &&& p.top == g.top && p.left == g.left
                    &&& if old(self).spec_room_in_row(*g) {
                        p.x == old(self).spec_row_extent() && p.y == old(self).spec_row_baseline()
                    } else {
                        p.x == 0 && p.y == old(self).spec_row_baseline() + old(
                            self,
                        ).spec_row_tallest()
                    }
                    &&& rect_in_bounds(
                        place_rect(p),
                        old(self).spec_width(),
                        old(self).spec_height(),
                    )
                    &&& forall|i: int|
                        0 <= i < old(self).spec_placed().len() ==> rects_disjoint(
                            #[trigger] old(self).spec_placed()[i],
                            place_rect(p),
                        )
                    &&& final(self).spec_placed() == old(self).spec_placed().push(place_rect(p))
                    &&& final(self).spec_row_extent() == p.x + g.width
                    &&& final(self).spec_row_baseline() == p.y
                },
            },
    {
        if g.width > self.width || g.height > self.height {
            return Result::Err(AtlasInsertError::GlyphTooLarge);
        }
        if !self.room_in_row(g) {
            match self.advance_row() {
                Result::Ok(()) => {
                },
                Result::Err(e) => {
                    return Result::Err(e);
                },
            }
        }
        if !self.room_in_row(g) {
            return Result::Err(AtlasInsertError::Full);
        }
        let x = self.row_extent;
        let y = self.row_baseline;
        let ghost rect = RectPx { x, y, w: g.width, h: g.height };
        proof {
            assert forall|i: int| 0 <= i < self.placed@.len() implies rects_disjoint(
                #[trigger] self.placed@[i],
                rect,
            ) by {
                assert(self.behind_frontier(self.placed@[i]));
            }
        }
        self.row_extent = self.row_extent + g.width;
        if self.row_tallest < g.height {
            self.row_tallest = g.height;
        }
        self.placed = Ghost(self.placed@.push(rect));
        Result::Ok(
            AtlasRefFree {
                x,
                y,
                width: g.width,
                height: g.height,
                top: g.top,
                left: g.left,
            },
        )
    }
}

/// The pixel rectangle a free-atlas placement occupies.
pub open spec fn place_rect(p: AtlasRefFree) -> RectPx {
    RectPx { x: p.x, y: p.y, w: p.width, h: p.height }
}

/// No two rectangles handed out by a free atlas overlap.
///
/// Shelves partition the texture's height: every placed rectangle sits
/// wholly above the current shelf or inside it left of the write
/// position, so each new placement is separated from every older one
/// along at least one axis.
pub proof fn lemma_free_atlas_placements_disjoint(a: Atlas, i: int, j: int)
    requires
        a.wf(),
        0 <= i < a.spec_placed().len(),
        0 <= j < a.spec_placed().len(),
        i != j,
    ensures
        rects_disjoint(a.spec_placed()[i], a.spec_placed()[j]),
{
}

/// The packed shelves never run past the texture: the current shelf's
/// bottom edge stays within the atlas height, and every placed rectangle
/// lies inside the texture bounds.
pub proof fn lemma_free_atlas_in_bounds(a: Atlas, i: int)
    requires
        a.wf(),
        0 <= i < a.spec_placed().len(),
    ensures
        a.spec_row_baseline() + a.spec_row_tallest() <= a.spec_height(),
        rect_in_bounds(a.spec_placed()[i], a.spec_width(), a.spec_height()),
{
}

} // verus!
