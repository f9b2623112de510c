//! Glyph-atlas packing and grid compositing for a GPU-accelerated terminal
//! text renderer.
//!
//! The crate takes rasterized glyph bitmaps and packs them into fixed-size
//! texture atlases: a fixed-pitch grid atlas for ordinary cell-sized glyphs
//! and a shelf-packed free atlas for the irregular rest. On top of the
//! atlases sit a glyph cache and a screen compositor that accumulates
//! per-cell reference and color buffers, ready for upload to the GPU. All
//! GPU calls, font rasterization and window plumbing stay outside; the crate
//! computes the data those consume.

pub mod atlas;
pub mod cache;
pub mod cell;
pub mod free_atlas;
pub mod geom;
pub mod glyph;
pub mod grid_render;
pub mod laws;
pub mod quad;
pub mod renderer;
pub mod texture;
