//! The snake's head and body segments, the food, and the rules that move them.
use vstd::prelude::*;
use crate::grid::{Direction, Pos, in_grid, opposite, opposite_of, step, dx, dy};

verus! {

/// Column where a new snake's head starts.
pub const START_X: i32 = 1;

/// Column where the first food starts.
pub const FOOD_START_X: i32 = 17;

/// Row where the head and the first food start: the middle row.
pub const START_Y: i32 = 5;

/// Where a freshly grown tail segment waits until the body reaches it.
pub const OFF_GRID: i32 = -1;

/// Which directional keys are held in one frame (arrows or WASD).
#[derive(Clone, Copy, Debug, PartialEq, Eq, Structural)]
pub struct Keys {
    pub left: bool,
    pub right: bool,
    pub up: bool,
    pub down: bool,
}

/// The heading asked for by `keys`: the one key held, or `current` when none or
/// several are held.
pub open spec fn input_dir(current: Direction, keys: Keys) -> Direction {
    if keys.left && !keys.right && !keys.up && !keys.down {
        Direction::West
    } else if !keys.left && keys.right && !keys.up && !keys.down {
        Direction::East
    } else if !keys.left && !keys.right && keys.up && !keys.down {
        Direction::North
    } else if !keys.left && !keys.right && !keys.up && keys.down {
        Direction::South
    } else {
        current
    }
}

/// No key held.
pub open spec fn idle(keys: Keys) -> bool {
    !keys.left && !keys.right && !keys.up && !keys.down
}

/// Resolves the held keys into a candidate heading.
pub fn check_input(current_dir: Direction, keys: Keys) -> (r: Direction)
    ensures
        r == input_dir(current_dir, keys),
        idle(keys) ==> r == current_dir,
{
    match (keys.left, keys.right, keys.up, keys.down) {
        (true, false, false, false) => Direction::West,
        (false, true, false, false) => Direction::East,
        (false, false, true, false) => Direction::North,
        (false, false, false, true) => Direction::South,
        _ => current_dir,
    }
}

/// The head of the snake: its cell, its heading, and the heading of the last tick.
#[derive(Clone, Copy, Debug, PartialEq, Eq, Structural)]
pub struct SnakeHead {
    pub pos: Pos,
    pub last_dir: Direction,
    pub dir: Direction,
}

/// The head's heading never points back along the last tick's move.
pub open spec fn head_wf(h: SnakeHead) -> bool {
    h.dir != opposite(h.last_dir)
}

/// The head after the keys of one frame: the candidate heading is taken unless
/// it reverses the last tick's move.
pub open spec fn steered(h: SnakeHead, keys: Keys) -> SnakeHead {
    let cand = input_dir(h.dir, keys);
    if cand != opposite(h.last_dir) {
        SnakeHead { dir: cand, ..h }
    } else {
        h
    }
}

/// The head after `n` frames with the same keys held.
pub open spec fn steered_n(h: SnakeHead, keys: Keys, n: nat) -> SnakeHead
    decreases n,
{
    if n == 0 {
        h
    } else {
        steered(steered_n(h, keys, (n - 1) as nat), keys)
    }
}

/// The head after one tick's move.
pub open spec fn moved(h: SnakeHead) -> SnakeHead {
    SnakeHead { pos: step(h.pos, h.dir), last_dir: h.dir, dir: h.dir }
}

impl SnakeHead {
    /// A head at the start cell, heading east.
    pub fn new() -> (r: Self)
        ensures
            r.pos == (Pos { x: START_X, y: START_Y }),
            r.dir == Direction::East,
            r.last_dir == Direction::East,
            head_wf(r),
            in_grid(r.pos),
    {
        SnakeHead { pos: Pos { x: START_X, y: START_Y }, last_dir: Direction::East, dir: Direction::East }
    }

    /// Takes the heading asked for by `keys`, unless it is the reverse of the last tick's.
    pub fn set_dir(&mut self, keys: Keys)
        ensures
            *final(self) == steered(*old(self), keys),
            final(self).dir != opposite(old(self).last_dir) || final(self).dir == old(self).dir,
            head_wf(*old(self)) ==> head_wf(*final(self)),
            idle(keys) ==> *final(self) == *old(self),
    {
        let cand = check_input(self.dir, keys);
        if cand != opposite_of(self.last_dir) {
            self.dir = cand;
        }
    }

    /// Moves the head one cell along its heading, which becomes the last tick's heading.
    pub fn update(&mut self)
        requires
            i32::MIN < old(self).pos.x < i32::MAX,
            i32::MIN < old(self).pos.y < i32::MAX,
        ensures
            *final(self) == moved(*old(self)),
            head_wf(*final(self)),
    {
        let ddx: i32 = match self.dir {
            Direction::West => -1,
            Direction::East => 1,
            _ => 0,
        };
        let ddy: i32 = match self.dir {
            Direction::North => -1,
            Direction::South => 1,
            _ => 0,
        };
        assert(ddx == dx(self.dir) && ddy == dy(self.dir));
        self.pos = Pos { x: self.pos.x + ddx, y: self.pos.y + ddy };
        self.last_dir = self.dir;
    }
}

/// Holding no key, frame after frame, never changes the head.
pub proof fn lemma_idle_keeps_direction(h: SnakeHead, keys: Keys, n: nat)
    requires
        idle(keys),
    ensures
        steered_n(h, keys, n) == h,
        steered_n(h, keys, n).dir == h.dir,
    decreases n,
{
    if n > 0 {
        lemma_idle_keeps_direction(h, keys, (n - 1) as nat);
    }
}

/// A steered head never points back along the last tick's move.
pub proof fn lemma_no_reversal(h: SnakeHead, keys: Keys, n: nat)
    requires
        head_wf(h),
    ensures
        steered_n(h, keys, n).dir != opposite(h.last_dir),
        steered_n(h, keys, n).last_dir == h.last_dir,
    decreases n,
{
    if n > 0 {
        lemma_no_reversal(h, keys, (n - 1) as nat);
    }
}

/// One segment of the snake's body.
#[derive(Clone, Copy, Debug, PartialEq, Eq, Structural)]
pub struct SnakeBody {
    pub pos: Pos,
}

impl SnakeBody {
    /// A new segment, waiting off the grid.
    pub fn new() -> (r: Self)
        ensures
            r.pos == (Pos { x: OFF_GRID, y: OFF_GRID }),
            !in_grid(r.pos),
    {
        SnakeBody { pos: Pos { x: OFF_GRID, y: OFF_GRID } }
    }

    /// Moves the segment to the cell `(new_x, new_y)`.
    pub fn update(&mut self, new_x: i32, new_y: i32)
        ensures
            final(self).pos == (Pos { x: new_x, y: new_y }),
    {
        self.pos = Pos { x: new_x, y: new_y };
    }
}

/// The cells of a body, head-adjacent segment first.
pub open spec fn cells(body: Seq<SnakeBody>) -> Seq<Pos> {
    body.map_values(|s: SnakeBody| s.pos)
}

/// Each segment takes the cell its predecessor held; the first takes the head's cell.
pub open spec fn shifted(c: Seq<Pos>, lead: Pos) -> Seq<Pos> {
    Seq::new(c.len(), |i: int| if i == 0 { lead } else { c[i - 1] })
}

/// Whether `p` is the cell of some segment.
pub open spec fn on_body(c: Seq<Pos>, p: Pos) -> bool {
    exists|i: int| 0 <= i < c.len() && c[i] == p
}

/// Moves every segment into its predecessor's cell, tail first, and the first
/// segment into `lead`, the head's cell before it moves.
pub fn follow(body: &mut Vec<SnakeBody>, lead: Pos)
    ensures
        cells(final(body)@) == shifted(cells(old(body)@), lead),
        final(body)@.len() == old(body)@.len(),
{
    let n = body.len();
    let mut i: usize = n;
    while i > 0
        invariant
            i <= n,
            n == body@.len(),
            body@.len() == old(body)@.len(),
            forall|j: int| 0 <= j < i ==> body@[j] == old(body)@[j],
            forall|j: int| i <= j < n && j > 0 ==> body@[j].pos == old(body)@[j - 1].pos,
            i < n && i == 0 ==> body@[0].pos == lead,
        decreases i,
    {
        i = i - 1;
        let (x, y) = if i == 0 {
            (lead.x, lead.y)
        } else {
            (body[i - 1].pos.x, body[i - 1].pos.y)
        };
        body[i].update(x, y);
    }
    assert(cells(body@) =~= shifted(cells(old(body)@), lead));
}

/// The food: a single cell.
#[derive(Clone, Copy, Debug, PartialEq, Eq, Structural)]
pub struct Apple {
    pub pos: Pos,
}

impl Apple {
    /// Food at its start cell.
    pub fn new() -> (r: Self)
        ensures
            r.pos == (Pos { x: FOOD_START_X, y: START_Y }),
            in_grid(r.pos),
    {
        Apple { pos: Pos { x: FOOD_START_X, y: START_Y } }
    }

    /// Moves the food to the cell `(new_x, new_y)`.
    pub fn respawn(&mut self, new_x: i32, new_y: i32)
        ensures
            final(self).pos == (Pos { x: new_x, y: new_y }),
    {
        self.pos = Pos { x: new_x, y: new_y };
    }
}

} // verus!
