use snek::food::{free_cells, occupied, relocate};
use snek::grid::{opposite_of, would_hit_wall, Direction, Pos, FIELD_H, FIELD_W};
use snek::render::{cell_rect, grid_lines, Block, Line, Shade};
use snek::session::{FrameInput, GameState, Session, TickClock, TICK_US, WIN_SCORE};
use snek::snake::{check_input, follow, Apple, Keys, SnakeBody, SnakeHead};

fn no_keys() -> Keys {
    Keys { left: false, right: false, up: false, down: false }
}

fn keys(left: bool, right: bool, up: bool, down: bool) -> Keys {
    Keys { left, right, up, down }
}

fn seg(x: i32, y: i32) -> SnakeBody {
    SnakeBody { pos: Pos { x, y } }
}

fn game_at(x: i32, y: i32, dir: Direction) -> Session {
    let mut s = Session::new();
    s.state = GameState::Game;
    s.head = SnakeHead { pos: Pos { x, y }, last_dir: dir, dir };
    s.apple = Apple { pos: Pos { x: 0, y: 0 } };
    s
}

fn idle_frame(frame_us: u64) -> FrameInput {
    FrameInput { keys: no_keys(), restart: false, frame_us }
}

#[test]
fn single_key_sets_heading() {
    assert_eq!(check_input(Direction::East, keys(true, false, false, false)), Direction::West);
    assert_eq!(check_input(Direction::West, keys(false, true, false, false)), Direction::East);
    assert_eq!(check_input(Direction::East, keys(false, false, true, false)), Direction::North);
    assert_eq!(check_input(Direction::East, keys(false, false, false, true)), Direction::South);
}

#[test]
fn conflicting_or_no_keys_keep_heading() {
    assert_eq!(check_input(Direction::North, no_keys()), Direction::North);
    assert_eq!(check_input(Direction::North, keys(true, true, false, false)), Direction::North);
    assert_eq!(check_input(Direction::South, keys(true, false, true, false)), Direction::South);
    assert_eq!(check_input(Direction::West, keys(true, true, true, true)), Direction::West);
}

#[test]
fn reversal_is_refused() {
    let mut h = SnakeHead::new();
    h.set_dir(keys(true, false, false, false));
    assert_eq!(h.dir, Direction::East);
    h.set_dir(keys(false, false, true, false));
    assert_eq!(h.dir, Direction::North);
    // west would reverse the last tick's move (east), so it is refused
    h.set_dir(keys(true, false, false, false));
    assert_eq!(h.dir, Direction::North);
    h.set_dir(keys(false, false, false, true));
    assert_eq!(h.dir, Direction::South);
    assert_eq!(h.last_dir, Direction::East);
}

#[test]
fn idle_polling_never_changes_heading() {
    let mut h = SnakeHead::new();
    h.set_dir(keys(false, false, false, true));
    let before = h;
    for _ in 0..1000 {
        h.set_dir(no_keys());
    }
    assert_eq!(h, before);
    assert_eq!(h.dir, Direction::South);
}

#[test]
fn head_update_moves_one_cell() {
    let mut h = SnakeHead::new();
    assert_eq!(h.pos, Pos { x: 1, y: 5 });
    h.update();
    assert_eq!(h.pos, Pos { x: 2, y: 5 });
    h.set_dir(keys(false, false, true, false));
    h.update();
    assert_eq!(h.pos, Pos { x: 2, y: 4 });
    assert_eq!(h.last_dir, Direction::North);
}

#[test]
fn opposite_headings() {
    assert_eq!(opposite_of(Direction::North), Direction::South);
    assert_eq!(opposite_of(Direction::South), Direction::North);
    assert_eq!(opposite_of(Direction::West), Direction::East);
    assert_eq!(opposite_of(Direction::East), Direction::West);
}

#[test]
fn wall_only_on_the_border_moving_out() {
    assert!(would_hit_wall(Pos { x: FIELD_W - 1, y: 5 }, Direction::East));
    assert!(!would_hit_wall(Pos { x: FIELD_W - 2, y: 5 }, Direction::East));
    assert!(!would_hit_wall(Pos { x: FIELD_W - 1, y: 5 }, Direction::North));
    assert!(would_hit_wall(Pos { x: 0, y: 3 }, Direction::West));
    assert!(would_hit_wall(Pos { x: 4, y: 0 }, Direction::North));
    assert!(would_hit_wall(Pos { x: 4, y: FIELD_H - 1 }, Direction::South));
    assert!(!would_hit_wall(Pos { x: 4, y: FIELD_H - 2 }, Direction::South));
}

#[test]
fn body_follows_tail_first() {
    let mut body = vec![seg(3, 5), seg(2, 5), seg(1, 5)];
    follow(&mut body, Pos { x: 4, y: 5 });
    assert_eq!(body, vec![seg(4, 5), seg(3, 5), seg(2, 5)]);
    let mut empty: Vec<SnakeBody> = Vec::new();
    follow(&mut empty, Pos { x: 4, y: 5 });
    assert!(empty.is_empty());
}

#[test]
fn new_segment_waits_off_grid() {
    assert_eq!(SnakeBody::new().pos, Pos { x: -1, y: -1 });
    let mut b = SnakeBody::new();
    b.update(7, 8);
    assert_eq!(b.pos, Pos { x: 7, y: 8 });
}

#[test]
fn apple_start_and_respawn() {
    let mut a = Apple::new();
    assert_eq!(a.pos, Pos { x: 17, y: 5 });
    a.respawn(3, 4);
    assert_eq!(a.pos, Pos { x: 3, y: 4 });
}

#[test]
fn occupied_checks_every_segment() {
    let body = vec![seg(3, 5), seg(2, 5)];
    assert!(occupied(&body, Pos { x: 2, y: 5 }));
    assert!(!occupied(&body, Pos { x: 4, y: 5 }));
}

#[test]
fn free_cells_skip_head_and_body() {
    let body = vec![seg(1, 0), seg(-1, -1)];
    let free = free_cells(Pos { x: 0, y: 0 }, &body);
    assert_eq!(free.len(), 198);
    assert_eq!(free[0], Pos { x: 2, y: 0 });
    assert_eq!(free[197], Pos { x: 19, y: 9 });
}

#[test]
fn relocate_finds_the_last_free_cell() {
    let mut body = Vec::new();
    for y in 0..FIELD_H {
        for x in 0..FIELD_W {
            if (x, y) != (0, 0) && (x, y) != (19, 9) {
                body.push(seg(x, y));
            }
        }
    }
    let mut rng = rand::thread_rng();
    let mut a = Apple::new();
    assert!(relocate(&mut a, Pos { x: 0, y: 0 }, &body, &mut rng));
    assert_eq!(a.pos, Pos { x: 19, y: 9 });
}

#[test]
fn relocate_on_a_full_field_keeps_food() {
    let mut body = Vec::new();
    for y in 0..FIELD_H {
        for x in 0..FIELD_W {
            if (x, y) != (0, 0) {
                body.push(seg(x, y));
            }
        }
    }
    let mut rng = rand::thread_rng();
    let mut a = Apple::new();
    assert!(!relocate(&mut a, Pos { x: 0, y: 0 }, &body, &mut rng));
    assert_eq!(a.pos, Pos { x: 17, y: 5 });
}

#[test]
fn relocated_food_is_never_on_the_snake() {
    let mut rng = rand::thread_rng();
    let body = vec![seg(3, 5), seg(2, 5), seg(1, 5), seg(1, 4)];
    let head = Pos { x: 4, y: 5 };
    for _ in 0..200 {
        let mut a = Apple { pos: head };
        assert!(relocate(&mut a, head, &body, &mut rng));
        assert_ne!(a.pos, head);
        assert!(!occupied(&body, a.pos));
        assert!(a.pos.x >= 0 && a.pos.x < FIELD_W && a.pos.y >= 0 && a.pos.y < FIELD_H);
    }
}

#[test]
fn clock_carries_the_remainder() {
    let mut c = TickClock::new();
    assert!(!c.advance(100_000));
    assert_eq!(c.acc_us, 100_000);
    assert!(c.advance(100_000));
    assert_eq!(c.acc_us, 200_000 - TICK_US);
    assert!(c.advance(3 * TICK_US));
    assert_eq!(c.acc_us, 200_000 + TICK_US);
    let mut full = TickClock { acc_us: u64::MAX - 1 };
    assert!(full.advance(10));
    assert_eq!(full.acc_us, u64::MAX - TICK_US);
}

#[test]
fn east_run_dies_at_the_far_wall() {
    let mut rng = rand::thread_rng();
    let mut s = game_at(0, 5, Direction::East);
    for t in 1..=19 {
        s.tick(&mut rng);
        assert_eq!(s.state, GameState::Game);
        assert_eq!(s.head.pos, Pos { x: t, y: 5 });
    }
    assert_eq!(s.head.pos.x, 19);
    s.tick(&mut rng);
    assert_eq!(s.state, GameState::Dead);
    assert_eq!(s.head.pos, Pos { x: 19, y: 5 });
}

#[test]
fn frames_tick_at_the_tick_period() {
    let mut rng = rand::thread_rng();
    let mut s = game_at(0, 5, Direction::East);
    s.frame(idle_frame(TICK_US - 1), &mut rng);
    assert_eq!(s.head.pos, Pos { x: 0, y: 5 });
    s.frame(idle_frame(1), &mut rng);
    assert_eq!(s.head.pos, Pos { x: 1, y: 5 });
    assert_eq!(s.clock.acc_us, 0);
    for _ in 0..18 {
        s.frame(idle_frame(TICK_US), &mut rng);
    }
    assert_eq!(s.head.pos.x, 19);
    assert_eq!(s.state, GameState::Game);
    s.frame(idle_frame(TICK_US), &mut rng);
    assert_eq!(s.state, GameState::Dead);
}

#[test]
fn eating_grows_the_snake() {
    let mut rng = rand::thread_rng();
    let mut s = game_at(4, 5, Direction::East);
    s.body = vec![seg(3, 5), seg(2, 5)];
    s.score = 2;
    s.apple = Apple { pos: Pos { x: 5, y: 5 } };
    s.tick(&mut rng);
    assert_eq!(s.score, 3);
    assert_eq!(s.body.len(), 3);
    assert_eq!(s.head.pos, Pos { x: 5, y: 5 });
    assert_eq!(s.body, vec![seg(4, 5), seg(3, 5), seg(-1, -1)]);
    assert_ne!(s.apple.pos, s.head.pos);
    assert!(!occupied(&s.body, s.apple.pos));
    assert_eq!(s.state, GameState::Game);
    s.apple = Apple { pos: Pos { x: 0, y: 0 } };
    s.tick(&mut rng);
    assert_eq!(s.body, vec![seg(5, 5), seg(4, 5), seg(3, 5)]);
    assert_eq!(s.score, 3);
}

#[test]
fn biting_the_body_is_death() {
    let mut rng = rand::thread_rng();
    let mut s = game_at(4, 5, Direction::South);
    s.head.last_dir = Direction::West;
    s.body = vec![seg(5, 5), seg(5, 6), seg(4, 6), seg(3, 6)];
    s.score = 4;
    s.tick(&mut rng);
    assert_eq!(s.head.pos, Pos { x: 4, y: 6 });
    assert_eq!(s.state, GameState::Dead);
}

#[test]
fn reaching_the_winning_score_wins() {
    let mut rng = rand::thread_rng();
    let mut s = game_at(4, 5, Direction::East);
    s.score = WIN_SCORE - 1;
    s.body = vec![SnakeBody::new(); (WIN_SCORE - 1) as usize];
    s.apple = Apple { pos: Pos { x: 5, y: 5 } };
    s.tick(&mut rng);
    assert_eq!(s.score, WIN_SCORE);
    assert_eq!(s.body.len(), WIN_SCORE as usize);
    assert_eq!(s.state, GameState::Won);
}

#[test]
fn restart_from_dead_goes_to_menu_and_resets() {
    let mut rng = rand::thread_rng();
    let mut s = game_at(4, 5, Direction::East);
    s.state = GameState::Dead;
    s.body = vec![seg(3, 5), seg(2, 5), seg(1, 5)];
    s.score = 3;
    s.frame(idle_frame(10), &mut rng);
    assert_eq!(s.state, GameState::Dead);
    assert_eq!(s.score, 3);
    s.frame(FrameInput { keys: no_keys(), restart: true, frame_us: 10 }, &mut rng);
    assert_eq!(s.state, GameState::Menu);
    assert_eq!(s.score, 0);
    assert!(s.body.is_empty());
    assert_eq!(s.head, SnakeHead::new());
    assert_eq!(s.apple, Apple::new());
}

#[test]
fn restart_from_won_and_start_from_menu() {
    let mut rng = rand::thread_rng();
    let mut s = Session::new();
    assert_eq!(s.state, GameState::Menu);
    s.frame(idle_frame(10), &mut rng);
    assert_eq!(s.state, GameState::Menu);
    s.frame(FrameInput { keys: no_keys(), restart: true, frame_us: 10 }, &mut rng);
    assert_eq!(s.state, GameState::Game);
    s.state = GameState::Won;
    s.score = WIN_SCORE;
    s.body = vec![SnakeBody::new(); WIN_SCORE as usize];
    s.frame(FrameInput { keys: no_keys(), restart: true, frame_us: 10 }, &mut rng);
    assert_eq!(s.state, GameState::Menu);
    assert_eq!(s.score, 0);
    assert!(s.body.is_empty());
}

#[test]
fn cells_map_to_pixels() {
    assert_eq!(cell_rect(Pos { x: 1, y: 5 }, Shade::Green), Block { x: 49, y: 349, w: 50, h: 50, shade: Shade::Green });
    assert_eq!(Apple::new().draw(), Block { x: 849, y: 349, w: 50, h: 50, shade: Shade::Red });
    assert_eq!(SnakeBody::new().draw(), Block { x: -51, y: 49, w: 50, h: 50, shade: Shade::Green });
    let h = SnakeHead::new().draw();
    assert_eq!(h.len(), 2);
    assert_eq!(h[0], Block { x: 49, y: 349, w: 50, h: 50, shade: Shade::Green });
    assert_eq!(h[1], Block { x: 84, y: 354, w: 10, h: 10, shade: Shade::Black });
}

#[test]
fn grid_lines_cover_the_field() {
    let lines = grid_lines(1000, 600);
    assert_eq!(lines.len(), 30);
    assert_eq!(lines[0], Line { x1: -1, y1: 100, x2: -1, y2: 600 });
    assert_eq!(lines[19], Line { x1: 949, y1: 100, x2: 949, y2: 600 });
    assert_eq!(lines[20], Line { x1: 0, y1: 99, x2: 1000, y2: 99 });
    assert_eq!(lines[29], Line { x1: 0, y1: 549, x2: 1000, y2: 549 });
    assert!(grid_lines(40, 90).is_empty());
}
