//! The game-state machine: one session owns the snake, the food, the score and the
//! tick clock, and advances them frame by frame.
use vstd::prelude::*;
use rand::rngs::ThreadRng;
use crate::grid::{Direction, Pos, in_grid, hits_wall, step, would_hit_wall, lemma_wall_exact};
use crate::snake::{
    Apple, Keys, SnakeBody, SnakeHead, OFF_GRID, START_X, START_Y, FOOD_START_X, cells, shifted, on_body, follow, head_wf,
    moved, steered, idle,
};
use crate::food::{is_free, lemma_free_cell_exists, occupied, relocate};

verus! {

/// Score at which the game is won.
pub const WIN_SCORE: u32 = 198;

/// Length of one logic tick, in microseconds (7.5 ticks a second).
pub const TICK_US: u64 = 133_333;

/// The phase of the game.
#[derive(Clone, Copy, Debug, PartialEq, Eq, Structural)]
pub enum GameState {
    Menu,
    Game,
    Won,
    Dead,
}

/// Elapsed time not yet spent on ticks, in microseconds.
#[derive(Clone, Copy, Debug, PartialEq, Eq, Structural)]
pub struct TickClock {
    pub acc_us: u64,
}

/// `a + b`, held at `u64::MAX`.
pub open spec fn sat_add(a: u64, b: u64) -> u64 {
    if a + b > u64::MAX { u64::MAX } else { (a + b) as u64 }
}

impl TickClock {
    /// A clock with nothing accumulated.
    pub fn new() -> (r: Self)
        ensures
            r.acc_us == 0,
    {
        TickClock { acc_us: 0 }
    }

    /// Adds one frame's duration. When a whole tick period has gathered, spends one
    /// period, keeps the remainder, and returns `true`: at most one tick per frame.
    pub fn advance(&mut self, frame_us: u64) -> (r: bool)
        ensures
            r == (sat_add(old(self).acc_us, frame_us) >= TICK_US),
            final(self).acc_us == if r {
                sat_add(old(self).acc_us, frame_us) - TICK_US
            } else {
                sat_add(old(self).acc_us, frame_us) as int
            },
    {
        let total: u64 = if self.acc_us > u64::MAX - frame_us {
            u64::MAX
        } else {
            self.acc_us + frame_us
        };
        if total >= TICK_US {
            self.acc_us = total - TICK_US;
            true
        } else {
            self.acc_us = total;
            false
        }
    }
}

/// What the player did during one frame, and how long the frame lasted.
#[derive(Clone, Copy, Debug, PartialEq, Eq, Structural)]
pub struct FrameInput {
    pub keys: Keys,
    /// The start/restart key went down this frame.
    pub restart: bool,
    pub frame_us: u64,
}

/// A whole game session.
pub struct Session {
    pub state: GameState,
    pub head: SnakeHead,
    pub body: Vec<SnakeBody>,
    pub apple: Apple,
    pub score: u32,
    pub clock: TickClock,
}

/// A session as plain values.
pub struct SessionView {
    pub state: GameState,
    pub head: SnakeHead,
    pub body: Seq<Pos>,
    pub apple: Pos,
    pub score: int,
    pub acc_us: int,
}

impl View for Session {
    type V = SessionView;

    open spec fn view(&self) -> SessionView {
        SessionView {
            state: self.state,
            head: self.head,
            body: cells(self.body@),
            apple: self.apple.pos,
            score: self.score as int,
            acc_us: self.clock.acc_us as int,
        }
    }
}

/// The session's invariant: the head stands on the field and never points back,
/// the body has one segment per point, and the score stays under the winning score
/// while a game runs.
pub open spec fn session_wf(s: SessionView) -> bool {
    &&& head_wf(s.head)
    &&& in_grid(s.head.pos)
    &&& 0 <= s.score <= WIN_SCORE
    &&& s.body.len() == s.score
    &&& s.state == GameState::Game ==> s.score < WIN_SCORE
}

/// The start of a game: head and food at their start cells, no body, no score.
pub open spec fn fresh(s: SessionView) -> bool {
    &&& s.head == (SnakeHead { pos: Pos { x: START_X, y: START_Y }, last_dir: Direction::East, dir: Direction::East })
    &&& s.body.len() == 0
    &&& s.apple == (Pos { x: FOOD_START_X, y: START_Y })
    &&& s.score == 0
}

/// Whether the head, after moving, lands on the food.
pub open spec fn eats(o: SessionView) -> bool {
    step(o.head.pos, o.head.dir) == o.apple
}

/// The body after a tick that does not hit the wall: shifted, plus a new tail
/// segment off the grid when food was eaten.
pub open spec fn body_after(o: SessionView) -> Seq<Pos> {
    let c1 = shifted(o.body, o.head.pos);
    if eats(o) { c1.push(Pos { x: OFF_GRID, y: OFF_GRID }) } else { c1 }
}

/// One logic tick from `o` to `n`. Eaten food moves to a free cell drawn at random,
/// so any free cell is allowed.
pub open spec fn ticked(o: SessionView, n: SessionView) -> bool {
    let h = step(o.head.pos, o.head.dir);
    let c1 = shifted(o.body, o.head.pos);
    if hits_wall(o.head.pos, o.head.dir) {
        n == SessionView { state: GameState::Dead, ..o }
    } else {
        &&& n.head == moved(o.head)
        &&& n.body == body_after(o)
        &&& n.score == o.score + if eats(o) { 1int } else { 0int }
        &&& n.acc_us == o.acc_us
        &&& if eats(o) { is_free(h, c1, n.apple) } else { n.apple == o.apple }
        &&& n.state == if n.score >= WIN_SCORE {
            GameState::Won
        } else if on_body(c1, h) {
            GameState::Dead
        } else {
            GameState::Game
        }
    }
}

/// One frame from `o` to `n` under `input`: the menu keeps the game at its start and
/// starts it on the restart key; a running game steers, and ticks once a tick period
/// has gathered; a finished game goes back to the menu on the restart key.
pub open spec fn framed(o: SessionView, input: FrameInput, n: SessionView) -> bool {
    match o.state {
        GameState::Menu => {
            &&& fresh(n)
            &&& n.acc_us == o.acc_us
            &&& n.state == if input.restart { GameState::Game } else { GameState::Menu }
        },
        GameState::Game => {
            let total = sat_add(o.acc_us as u64, input.frame_us);
            let s = SessionView { head: steered(o.head, input.keys), ..o };
            if total >= TICK_US {
                ticked(SessionView { acc_us: total - TICK_US, ..s }, n)
            } else {
                n == SessionView { acc_us: total as int, ..s }
            }
        },
        _ => if input.restart {
            &&& fresh(n)
            &&& n.acc_us == o.acc_us
            &&& n.state == GameState::Menu
        } else {
            n == o
        },
    }
}

/// Eating food adds exactly one point and one segment; otherwise a tick changes
/// neither. The score and the length of the body never go down during a game.
pub proof fn lemma_tick_growth(o: SessionView, n: SessionView)
    requires
        ticked(o, n),
    ensures
        !hits_wall(o.head.pos, o.head.dir) && eats(o) ==> n.score == o.score + 1 && n.body.len() == o.body.len() + 1,
        !(!hits_wall(o.head.pos, o.head.dir) && eats(o)) ==> n.score == o.score && n.body.len() == o.body.len(),
        n.score >= o.score,
        n.body.len() >= o.body.len(),
{
}

/// Each body segment moves into the cell that the segment before it held at the
/// previous tick; the first segment into the head's previous cell. A segment grown
/// by eating starts off the grid.
pub proof fn lemma_body_follows(o: SessionView, n: SessionView)
    requires
        ticked(o, n),
        !hits_wall(o.head.pos, o.head.dir),
    ensures
        o.body.len() >= 1 ==> n.body[0] == o.head.pos,
        forall|i: int| 1 <= i < o.body.len() ==> n.body[i] == o.body[i - 1],
        eats(o) ==> n.body[o.body.len() as int] == (Pos { x: OFF_GRID, y: OFF_GRID }),
        n.head.pos == step(o.head.pos, o.head.dir),
{
    let c1 = shifted(o.body, o.head.pos);
    assert forall|i: int| 0 <= i < o.body.len() implies n.body[i] == c1[i] by {
        if eats(o) {
            assert(n.body == c1.push(Pos { x: OFF_GRID, y: OFF_GRID }));
        }
    }
}

/// While a game runs, a frame never lowers the score or shortens the body, and a
/// frame with no key held keeps the heading, whether or not it ticks.
pub proof fn lemma_game_frame(o: SessionView, input: FrameInput, n: SessionView)
    requires
        o.state == GameState::Game,
        framed(o, input, n),
    ensures
        n.score >= o.score,
        n.body.len() >= o.body.len(),
        idle(input.keys) ==> n.head.dir == o.head.dir,
{
    let total = sat_add(o.acc_us as u64, input.frame_us);
    let st = SessionView { head: steered(o.head, input.keys), ..o };
    if total >= TICK_US {
        lemma_tick_growth(SessionView { acc_us: total - TICK_US, ..st }, n);
    }
}

impl Session {
    /// A session in the menu, with everything at its start.
    pub fn new() -> (r: Self)
        ensures
            r@.state == GameState::Menu,
            fresh(r@),
            r@.acc_us == 0,
            session_wf(r@),
    {
        Session {
            state: GameState::Menu,
            head: SnakeHead::new(),
            body: Vec::new(),
            apple: Apple::new(),
            score: 0,
            clock: TickClock::new(),
        }
    }

    /// Puts the snake, body, food and score back to their start.
    pub fn reset(&mut self)
        ensures
            fresh(final(self)@),
            final(self)@.state == old(self)@.state,
            final(self)@.acc_us == old(self)@.acc_us,
    {
        self.head = SnakeHead::new();
        self.body = Vec::new();
        self.apple = Apple::new();
        self.score = 0;
        assert(cells(self.body@) =~= Seq::<Pos>::empty());
    }

    /// One logic tick of a running game: wall check, body follows, head moves, food,
    /// self collision, win.
    pub fn tick(&mut self, rng: &mut ThreadRng)
        requires
            session_wf(old(self)@),
            old(self)@.state == GameState::Game,
        ensures
            ticked(old(self)@, final(self)@),
            session_wf(final(self)@),
    {
        proof {
            lemma_wall_exact(self.head.pos, self.head.dir);
        }
        if would_hit_wall(self.head.pos, self.head.dir) {
            self.state = GameState::Dead;
            return;
        }
        let ghost o = self@;
        let lead = self.head.pos;
        follow(&mut self.body, lead);
        self.head.update();
        let ghost c1 = cells(self.body@);
        if self.head.pos == self.apple.pos {
            proof {
                lemma_free_cell_exists(self.head.pos, c1);
            }
            relocate(&mut self.apple, self.head.pos, &self.body, rng);
            self.body.push(SnakeBody::new());
            self.score = self.score + 1;
            assert(cells(self.body@) =~= c1.push(Pos { x: OFF_GRID, y: OFF_GRID }));
        }
        if self.score >= WIN_SCORE {
            self.state = GameState::Won;
        } else if occupied(&self.body, self.head.pos) {
            self.state = GameState::Dead;
        }
        proof {
            let h = self.head.pos;
            if eats(o) {
                let cn = cells(self.body@);
                assert(in_grid(h));
                if on_body(cn, h) {
                    let i = choose|i: int| 0 <= i < cn.len() && cn[i] == h;
                    if i < c1.len() {
                        assert(cn[i] == c1[i]);
                    }
                    assert(on_body(c1, h));
                }
                if on_body(c1, h) {
                    let i = choose|i: int| 0 <= i < c1.len() && c1[i] == h;
                    assert(cn[i] == c1[i]);
                    assert(on_body(cn, h));
                }
            }
        }
    }
    /// Advances the session by one rendered frame.
    pub fn frame(&mut self, input: FrameInput, rng: &mut ThreadRng)
        requires
            session_wf(old(self)@),
        ensures
            framed(old(self)@, input, final(self)@),
            session_wf(final(self)@),
    {
        match self.state {
            GameState::Menu => {
                self.reset();
                if input.restart {
                    self.state = GameState::Game;
                }
            },
            GameState::Game => {
                let due = self.clock.advance(input.frame_us);
                self.head.set_dir(input.keys);
                if due {
                    self.tick(rng);
                }
            },
            _ => {
                if input.restart {
                    self.state = GameState::Menu;
                    self.reset();
                }
            },
        }
    }
}

} // verus!
