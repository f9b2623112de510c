//! The renderable cells the terminal hands the renderer, modeled as plain
//! values: screen position, content, style flags and colors. The terminal
//! state machine itself lives outside this crate.

use vstd::prelude::*;

use crate::glyph::{CursorKey, Rgb};

verus! {

/// What a cell shows: an ordinary character (with any combining
/// zero-width characters stacked on it), or the cursor.
#[derive(Clone, Debug)]
pub enum CellContent {
    Chars { first: char, zero_width: Vec<char> },
    Cursor(CursorKey),
}

/// One visible terminal cell for the current frame.
///
/// `bg_alpha` is `None` for the default background (the compositor's
/// configured opacity applies) and `Some` for an explicitly colored
/// background with its own alpha.
#[derive(Clone, Debug)]
pub struct RenderableCell {
    pub line: usize,
    pub column: usize,
    pub content: CellContent,
    pub bold: bool,
    pub italic: bool,
    pub hidden: bool,
    pub wide: bool,
    pub fg: Rgb,
    pub bg: Rgb,
    pub bg_alpha: Option<u8>,
}

} // verus!
