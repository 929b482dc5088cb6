//! Terminal cells: colors, screen positions, single cells, and the
//! two-cell-wide blocks that stand for one source-image pixel.

use vstd::prelude::*;

verus! {

/// An RGB color. Alpha is never stored: a source pixel's alpha only
/// decides whether a block is produced at all.
#[derive(Clone, Copy, PartialEq, Eq, Structural, Debug)]
pub struct Rgb {
    pub r: u8,
    pub g: u8,
    pub b: u8,
}

/// An absolute position on the terminal surface, in character cells.
#[derive(Clone, Copy, PartialEq, Eq, Structural, Debug)]
pub struct ScreenPos {
    pub x: u16,
    pub y: u16,
}

/// One terminal character cell: a glyph at a position, with optional
/// foreground and background colors.
#[derive(Clone, Copy, PartialEq, Eq, Structural, Debug)]
pub struct Pixel {
    pub glyph: char,
    pub pos: ScreenPos,
    pub fg: Option<Rgb>,
    pub bg: Option<Rgb>,
}

impl Pixel {
    pub fn new(glyph: char, pos: ScreenPos, fg: Option<Rgb>, bg: Option<Rgb>) -> (p: Pixel)
        ensures
            p == (Pixel { glyph, pos, fg, bg }),
    {
        Pixel { glyph, pos, fg, bg }
    }
}

/// A pair of horizontally adjacent cells rendering one source pixel as a
/// roughly square colored block: terminal cells are about twice as tall
/// as wide, so one source pixel becomes two cells side by side.
#[derive(Clone, Copy, PartialEq, Eq, Structural, Debug)]
pub struct Block {
    pub left: Pixel,
    pub right: Pixel,
}

impl Block {
    /// The exact block anchored at `pos`: two space glyphs with the same
    /// background color, the right cell one column further.
    pub open spec fn at(pos: ScreenPos, color: Option<Rgb>) -> Block {
        Block {
            left: Pixel { glyph: ' ', pos, fg: None, bg: color },
            right: Pixel {
                glyph: ' ',
                pos: ScreenPos { x: (pos.x + 1) as u16, y: pos.y },
                fg: None,
                bg: color,
            },
        }
    }

    /// The invariant of a block: the right cell sits directly right of the
    /// left one, on the same row, and both are space glyphs sharing one
    /// background color and no foreground color.
    pub open spec fn wf(self) -> bool {
        &&& self.right.pos.x == self.left.pos.x + 1
        &&& self.right.pos.y == self.left.pos.y
        &&& self.left.glyph == ' '
        &&& self.right.glyph == ' '
        &&& self.left.fg is None
        &&& self.right.fg is None
        &&& self.right.bg == self.left.bg
    }

    pub fn new(pos: ScreenPos, color: Option<Rgb>) -> (b: Block)
        requires
            pos.x < u16::MAX,
        ensures
            b == Block::at(pos, color),
            b.wf(),
    {
        let left = Pixel::new(' ', pos, None, color);
        let right = Pixel::new(' ', ScreenPos { x: pos.x + 1, y: pos.y }, None, color);
        Block { left, right }
    }
}

} // verus!
