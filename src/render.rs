//! What to draw, in whole pixels: the rectangles of the head, body and food, and the
//! lines of the background grid. Drawing them is left to the graphics layer.
use vstd::prelude::*;
use crate::grid::{Direction, Pos};
use crate::snake::{Apple, SnakeBody, SnakeHead};

verus! {

/// Side of one cell, in pixels.
pub const CELL_PX: i64 = 50;

/// Height of the status bar above the field, in pixels.
pub const Y_OFFSET: i64 = 100;

/// Side of the marker that shows which way the head last moved, in pixels.
pub const MARKER_PX: i64 = 10;

/// Width of the grid lines, in pixels.
pub const LINE_PX: i64 = 3;

/// The colours the game uses.
#[derive(Clone, Copy, Debug, PartialEq, Eq, Structural)]
pub enum Shade {
    Green,
    Black,
    Red,
}

/// A filled rectangle: left, top, width, height.
#[derive(Clone, Copy, Debug, PartialEq, Eq, Structural)]
pub struct Block {
    pub x: i64,
    pub y: i64,
    pub w: i64,
    pub h: i64,
    pub shade: Shade,
}

/// A straight line from `(x1, y1)` to `(x2, y2)`.
#[derive(Clone, Copy, Debug, PartialEq, Eq, Structural)]
pub struct Line {
    pub x1: i64,
    pub y1: i64,
    pub x2: i64,
    pub y2: i64,
}

/// The rectangle covering cell `p`, one pixel up and left so that it sits on the grid lines.
pub open spec fn cell_block(p: Pos, shade: Shade) -> Block {
    Block {
        x: (p.x * CELL_PX - 1) as i64,
        y: (p.y * CELL_PX - 1 + Y_OFFSET) as i64,
        w: CELL_PX,
        h: CELL_PX,
        shade,
    }
}

/// Offset of the heading marker inside the head's cell: it sits in the corner
/// on the left of the way the head last moved.
pub open spec fn marker_offset(d: Direction) -> (int, int) {
    match d {
        Direction::East => (35, 5),
        Direction::North => (5, 5),
        Direction::West => (5, 35),
        Direction::South => (35, 35),
    }
}

/// The black marker drawn over the head.
pub open spec fn marker_block(h: SnakeHead) -> Block {
    let c = cell_block(h.pos, Shade::Black);
    Block {
        x: (c.x + marker_offset(h.last_dir).0) as i64,
        y: (c.y + marker_offset(h.last_dir).1) as i64,
        w: MARKER_PX,
        h: MARKER_PX,
        shade: Shade::Black,
    }
}

/// The rectangle for cell `p`.
pub fn cell_rect(p: Pos, shade: Shade) -> (r: Block)
    ensures
        r == cell_block(p, shade),
{
    let x: i64 = p.x as i64 * CELL_PX - 1;
    let y: i64 = p.y as i64 * CELL_PX - 1 + Y_OFFSET;
    Block { x, y, w: CELL_PX, h: CELL_PX, shade }
}

impl SnakeHead {
    /// The head's cell in green, then the marker of its last heading in black.
    pub fn draw(&self) -> (r: Vec<Block>)
        ensures
            r@ == seq![cell_block(self.pos, Shade::Green), marker_block(*self)],
    {
        let c = cell_rect(self.pos, Shade::Green);
        let (ox, oy): (i64, i64) = match self.last_dir {
            Direction::East => (35, 5),
            Direction::North => (5, 5),
            Direction::West => (5, 35),
            Direction::South => (35, 35),
        };
        let m = Block { x: c.x + ox, y: c.y + oy, w: MARKER_PX, h: MARKER_PX, shade: Shade::Black };
        let mut r: Vec<Block> = Vec::new();
        r.push(c);
        r.push(m);
        assert(r@ =~= seq![cell_block(self.pos, Shade::Green), marker_block(*self)]);
        r
    }
}

impl SnakeBody {
    /// The segment's cell in green.
    pub fn draw(&self) -> (r: Block)
        ensures
            r == cell_block(self.pos, Shade::Green),
    {
        cell_rect(self.pos, Shade::Green)
    }
}

impl Apple {
    /// The food's cell in red.
    pub fn draw(&self) -> (r: Block)
        ensures
            r == cell_block(self.pos, Shade::Red),
    {
        cell_rect(self.pos, Shade::Red)
    }
}

/// Number of vertical grid lines on a screen `w` pixels wide.
pub open spec fn columns(w: int) -> int {
    w / (CELL_PX as int)
}

/// Number of horizontal grid lines on a screen `h` pixels high, below the status bar.
pub open spec fn rows(h: int) -> int {
    if h < Y_OFFSET { 0 } else { (h - Y_OFFSET) / (CELL_PX as int) }
}

/// The `i`-th vertical grid line.
pub open spec fn vline(i: int, h: int) -> Line {
    Line { x1: (i * CELL_PX - 1) as i64, y1: Y_OFFSET, x2: (i * CELL_PX - 1) as i64, y2: h as i64 }
}

/// The `i`-th horizontal grid line.
pub open spec fn hline(i: int, w: int) -> Line {
    Line { x1: 0, y1: (Y_OFFSET + i * CELL_PX - 1) as i64, x2: w as i64, y2: (Y_OFFSET + i * CELL_PX - 1) as i64 }
}

/// The lines of the background grid on a `w` by `h` screen: the vertical ones left to
/// right, then the horizontal ones top to bottom.
pub fn grid_lines(w: u32, h: u32) -> (r: Vec<Line>)
    ensures
        r@.len() == columns(w as int) + rows(h as int),
        forall|i: int| 0 <= i < columns(w as int) ==> r@[i] == vline(i, h as int),
        forall|i: int| 0 <= i < rows(h as int) ==> r@[columns(w as int) + i] == hline(i, w as int),
{
    let wi: i64 = w as i64;
    let hi: i64 = h as i64;
    let nx: i64 = wi / CELL_PX;
    let ny: i64 = if hi < Y_OFFSET { 0 } else { (hi - Y_OFFSET) / CELL_PX };
    let mut r: Vec<Line> = Vec::new();
    let mut i: i64 = 0;
    while i < nx
        invariant
            0 <= i <= nx,
            nx == columns(w as int),
            wi == w, hi == h,
            r@.len() == i,
            forall|j: int| 0 <= j < i ==> r@[j] == vline(j, h as int),
        decreases nx - i,
    {
        let x: i64 = i * CELL_PX - 1;
        r.push(Line { x1: x, y1: Y_OFFSET, x2: x, y2: hi });
        i = i + 1;
    }
    let mut k: i64 = 0;
    while k < ny
        invariant
            0 <= k <= ny,
            nx == columns(w as int),
            ny == rows(h as int),
            ny <= h,
            wi == w, hi == h,
            r@.len() == nx + k,
            forall|j: int| 0 <= j < nx ==> r@[j] == vline(j, h as int),
            forall|j: int| 0 <= j < k ==> r@[nx + j] == hline(j, w as int),
        decreases ny - k,
    {
        let y: i64 = Y_OFFSET + k * CELL_PX - 1;
        r.push(Line { x1: 0, y1: y, x2: wi, y2: y });
        k = k + 1;
    }
    r
}

} // verus!
