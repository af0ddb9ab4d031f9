//! The play field: cells, directions and the bounds of the grid.
use vstd::prelude::*;

verus! {

/// Number of columns of the play field.
pub const FIELD_W: i32 = 20;

/// Number of rows of the play field.
pub const FIELD_H: i32 = 10;

/// A cell of the grid, by column and row. Cells outside the field are allowed:
/// a freshly grown tail segment waits off the grid until the body reaches it.
#[derive(Clone, Copy, Debug, PartialEq, Eq, Structural)]
pub struct Pos {
    pub x: i32,
    pub y: i32,
}

/// The four headings of the snake.
#[derive(Clone, Copy, Debug, PartialEq, Eq, Structural)]
pub enum Direction {
    North,
    South,
    West,
    East,
}

/// Whether `p` lies inside the field `[0, FIELD_W) x [0, FIELD_H)`.
pub open spec fn in_grid(p: Pos) -> bool {
    0 <= p.x < FIELD_W && 0 <= p.y < FIELD_H
}

/// The heading that points the other way.
pub open spec fn opposite(d: Direction) -> Direction {
    match d {
        Direction::North => Direction::South,
        Direction::South => Direction::North,
        Direction::West => Direction::East,
        Direction::East => Direction::West,
    }
}

/// Column offset of one step in direction `d`.
pub open spec fn dx(d: Direction) -> int {
    match d {
        Direction::West => -1,
        Direction::East => 1,
        _ => 0,
    }
}

/// Row offset of one step in direction `d` (rows grow southwards).
pub open spec fn dy(d: Direction) -> int {
    match d {
        Direction::North => -1,
        Direction::South => 1,
        _ => 0,
    }
}

/// Whether one step from `p` in direction `d` leaves the field.
pub open spec fn hits_wall(p: Pos, d: Direction) -> bool {
    !(0 <= p.x + dx(d) < FIELD_W && 0 <= p.y + dy(d) < FIELD_H)
}

/// The cell one step from `p` in direction `d`, for a step that stays in `i32`.
pub open spec fn step(p: Pos, d: Direction) -> Pos {
    Pos { x: (p.x + dx(d)) as i32, y: (p.y + dy(d)) as i32 }
}

/// Returns the heading opposite to `d`.
pub fn opposite_of(d: Direction) -> (r: Direction)
    ensures
        r == opposite(d),
{
    match d {
        Direction::North => Direction::South,
        Direction::South => Direction::North,
        Direction::West => Direction::East,
        Direction::East => Direction::West,
    }
}

/// Whether moving one cell from `p` in direction `d` would cross the border of the field.
/// Only the cell on the border, moving outwards, collides.
pub fn would_hit_wall(p: Pos, d: Direction) -> (r: bool)
    ensures
        r == hits_wall(p, d),
{
    match d {
        Direction::West => p.x <= 0 || p.x > FIELD_W || p.y < 0 || p.y >= FIELD_H,
        Direction::East => p.x >= FIELD_W - 1 || p.x < -1 || p.y < 0 || p.y >= FIELD_H,
        Direction::North => p.y <= 0 || p.y > FIELD_H || p.x < 0 || p.x >= FIELD_W,
        Direction::South => p.y >= FIELD_H - 1 || p.y < -1 || p.x < 0 || p.x >= FIELD_W,
    }
}

/// On a cell of the field, the wall is hit exactly when the snake stands on the border
/// it is heading towards: never a step early, never a step late.
pub proof fn lemma_wall_exact(p: Pos, d: Direction)
    requires
        in_grid(p),
    ensures
        hits_wall(p, d) <==> (
            (d == Direction::West && p.x == 0)
            || (d == Direction::East && p.x == FIELD_W - 1)
            || (d == Direction::North && p.y == 0)
            || (d == Direction::South && p.y == FIELD_H - 1)
        ),
        !hits_wall(p, d) ==> in_grid(step(p, d)),
{
}

} // verus!
