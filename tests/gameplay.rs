use snek::fruit::{free_cell_at, free_cells, holds_cell, random_free_cell};
use snek::game::{ActiveScene, FrameInput, Game};
use snek::game_scene::{GameScene, Keys, TICK_SPEED_MS};
use snek::grid::{Direction, Position, GRID_CELLS};
use snek::scene::{Button, GameOver, Menu, Pointer, SwapScene};

fn pos(x: i32, y: i32) -> Position {
    Position { x, y }
}

fn no_keys() -> Keys {
    Keys { up: false, left: false, down: false, right: false }
}

fn scene(body: Vec<Position>, fruit: Position, dir: Direction) -> GameScene {
    let head = *body.last().unwrap();
    GameScene {
        direction: dir,
        next_direction: dir,
        bodyparts: body,
        head_position: head,
        fruit_location: fruit,
        last_tick_ms: 0,
    }
}

fn pointer(x: i32, y: i32, pressed: bool) -> Pointer {
    Pointer { x, y, pressed }
}

#[test]
fn new_game_starts_at_centre_heading_up() {
    let g = GameScene::new(5);
    assert_eq!(g.bodyparts, vec![pos(10, 10)]);
    assert_eq!(g.head_position, pos(10, 10));
    assert_eq!(g.direction, Direction::Up);
    assert_eq!(g.next_direction, Direction::Up);
    assert_eq!(g.last_tick_ms, 5);
    assert!(g.fruit_location.in_grid());
    assert_ne!(g.fruit_location, pos(10, 10));
}

#[test]
fn one_tick_up_without_fruit() {
    let mut g = scene(vec![pos(10, 10)], pos(0, 0), Direction::Up);
    assert_eq!(g.update(no_keys(), TICK_SPEED_MS), None);
    assert_eq!(g.head_position, pos(10, 9));
    assert_eq!(g.bodyparts, vec![pos(10, 9)]);
    assert_eq!(g.last_tick_ms, TICK_SPEED_MS);
}

#[test]
fn one_tick_up_onto_fruit_grows() {
    let mut g = scene(vec![pos(10, 10)], pos(10, 9), Direction::Up);
    assert_eq!(g.tick(), None);
    assert_eq!(g.head_position, pos(10, 9));
    assert_eq!(g.bodyparts, vec![pos(10, 10), pos(10, 9)]);
    assert!(!g.bodyparts.contains(&g.fruit_location));
    assert!(g.fruit_location.in_grid());
}

#[test]
fn no_tick_before_interval() {
    let mut g = scene(vec![pos(10, 10)], pos(0, 0), Direction::Up);
    g.last_tick_ms = 1000;
    assert_eq!(g.update(no_keys(), 1000 + TICK_SPEED_MS - 1), None);
    assert_eq!(g.head_position, pos(10, 10));
    assert_eq!(g.update(no_keys(), 999), None);
    assert_eq!(g.head_position, pos(10, 10));
    assert_eq!(g.update(no_keys(), 1000 + TICK_SPEED_MS), None);
    assert_eq!(g.head_position, pos(10, 9));
}

#[test]
fn game_over_on_eleventh_tick_up() {
    let mut g = scene(vec![pos(10, 10)], pos(0, 19), Direction::Up);
    for t in 1..=10 {
        assert_eq!(g.tick(), None, "tick {}", t);
        assert_eq!(g.head_position, pos(10, 10 - t));
    }
    assert_eq!(g.tick(), Some(SwapScene::GameOver));
    assert_eq!(g.head_position, pos(10, -1));
}

#[test]
fn straight_run_moves_one_cell_per_tick() {
    let mut g = scene(vec![pos(2, 5)], pos(0, 0), Direction::Right);
    for _ in 0..7 {
        assert_eq!(g.tick(), None);
    }
    assert_eq!(g.head_position, pos(9, 5));
    assert_eq!(g.bodyparts.len(), 1);
}

#[test]
fn each_wall_ends_the_game() {
    let cases = [
        (pos(0, 4), Direction::Left, pos(-1, 4)),
        (pos(19, 4), Direction::Right, pos(20, 4)),
        (pos(4, 0), Direction::Up, pos(4, -1)),
        (pos(4, 19), Direction::Down, pos(4, 20)),
    ];
    for (start, dir, end) in cases {
        let mut g = scene(vec![start], pos(10, 10), dir);
        assert_eq!(g.tick(), Some(SwapScene::GameOver));
        assert_eq!(g.head_position, end);
    }
}

#[test]
fn reverse_key_is_ignored() {
    let mut g = scene(vec![pos(10, 10)], pos(0, 0), Direction::Up);
    g.handle_input(Keys { up: false, left: false, down: true, right: false });
    assert_eq!(g.next_direction, Direction::Up);
    assert_eq!(g.tick(), None);
    assert_eq!(g.direction, Direction::Up);
    assert_eq!(g.head_position, pos(10, 9));
}

#[test]
fn later_key_wins_within_a_frame() {
    let mut g = scene(vec![pos(10, 10)], pos(0, 0), Direction::Up);
    g.handle_input(Keys { up: true, left: true, down: false, right: true });
    assert_eq!(g.next_direction, Direction::Right);
    g.handle_input(Keys { up: false, left: true, down: false, right: false });
    assert_eq!(g.next_direction, Direction::Left);
    assert_eq!(g.direction, Direction::Up);
}

#[test]
fn turn_is_committed_at_tick() {
    let mut g = scene(vec![pos(10, 10)], pos(0, 0), Direction::Up);
    g.handle_input(Keys { up: false, left: true, down: false, right: false });
    assert_eq!(g.tick(), None);
    assert_eq!(g.direction, Direction::Left);
    assert_eq!(g.head_position, pos(9, 10));
}

#[test]
fn running_into_body_ends_the_game() {
    // A hook of five cells; turning left from heading down runs into it.
    let body = vec![pos(5, 5), pos(6, 5), pos(7, 5), pos(7, 6), pos(6, 6)];
    let mut g = scene(body, pos(0, 0), Direction::Left);
    g.handle_input(Keys { up: true, left: false, down: false, right: false });
    assert_eq!(g.tick(), Some(SwapScene::GameOver));
    assert_eq!(g.head_position, pos(6, 5));
}

#[test]
fn moving_into_the_tail_cell_is_allowed() {
    // A square of four cells: the head follows the tail.
    let body = vec![pos(5, 5), pos(6, 5), pos(6, 6), pos(5, 6)];
    let mut g = scene(body, pos(0, 0), Direction::Left);
    g.handle_input(Keys { up: true, left: false, down: false, right: false });
    assert_eq!(g.tick(), None);
    assert_eq!(g.bodyparts, vec![pos(6, 5), pos(6, 6), pos(5, 6), pos(5, 5)]);
}

#[test]
fn length_kept_without_fruit_and_grows_with_it() {
    let body = vec![pos(3, 3), pos(4, 3), pos(5, 3)];
    let mut g = scene(body, pos(7, 3), Direction::Right);
    assert_eq!(g.tick(), None);
    assert_eq!(g.bodyparts.len(), 3);
    assert_eq!(g.tick(), None);
    assert_eq!(g.bodyparts.len(), 4);
    assert!(!g.bodyparts.contains(&g.fruit_location));
    assert_eq!(g.tick(), None);
    assert_eq!(g.bodyparts.len(), 4);
}

#[test]
fn fruit_never_lands_on_body_over_many_meals() {
    for _ in 0..50 {
        let body: Vec<Position> = (0..15).map(|x| pos(x, 0)).collect();
        let mut g = scene(body, pos(15, 0), Direction::Right);
        assert_eq!(g.tick(), None);
        assert_eq!(g.bodyparts.len(), 16);
        assert!(g.fruit_location.in_grid());
        assert!(!g.bodyparts.contains(&g.fruit_location));
    }
}

#[test]
fn full_field_after_meal_ends_the_game() {
    // A snake that snakes through every cell but the last one, where the fruit is.
    let mut body = Vec::new();
    for y in 0..20 {
        for i in 0..20 {
            let x = if y % 2 == 0 { i } else { 19 - i };
            body.push(pos(x, y));
        }
    }
    let fruit = body.pop().unwrap();
    assert_eq!(fruit, pos(0, 19));
    let mut g = scene(body, fruit, Direction::Left);
    assert_eq!(g.tick(), Some(SwapScene::GameOver));
    assert_eq!(g.bodyparts.len(), 400);
}

#[test]
fn reset_restores_start() {
    let body = vec![pos(3, 3), pos(4, 3), pos(5, 3)];
    let mut g = scene(body, pos(7, 3), Direction::Right);
    g.last_tick_ms = 77;
    g.reset();
    assert_eq!(g.bodyparts, vec![pos(10, 10)]);
    assert_eq!(g.head_position, pos(10, 10));
    assert_eq!(g.direction, Direction::Up);
    assert_eq!(g.next_direction, Direction::Up);
    assert_eq!(g.last_tick_ms, 77);
    assert_ne!(g.fruit_location, pos(10, 10));
    assert!(g.fruit_location.in_grid());
}

#[test]
fn free_cells_in_row_major_order() {
    let all = free_cells(&Vec::new());
    assert_eq!(all.len(), GRID_CELLS);
    assert_eq!(all[0], pos(0, 0));
    assert_eq!(all[1], pos(1, 0));
    assert_eq!(all[20], pos(0, 1));
    assert_eq!(all[399], pos(19, 19));
    let some = free_cells(&vec![pos(0, 0), pos(2, 0), pos(30, 30)]);
    assert_eq!(some.len(), 398);
    assert_eq!(some[0], pos(1, 0));
    assert_eq!(some[1], pos(3, 0));
}

#[test]
fn free_cell_at_picks_by_index() {
    let occupied = vec![pos(0, 0), pos(1, 0)];
    assert_eq!(free_cell_at(&occupied, 0), Some(pos(2, 0)));
    assert_eq!(free_cell_at(&occupied, 18), Some(pos(0, 1)));
    assert_eq!(free_cell_at(&occupied, 397), Some(pos(19, 19)));
    assert_eq!(free_cell_at(&occupied, 398), None);
}

#[test]
fn random_free_cell_is_free() {
    let mut occupied: Vec<Position> = Vec::new();
    for y in 0..20 {
        for x in 0..20 {
            if (x, y) != (13, 17) {
                occupied.push(pos(x, y));
            }
        }
    }
    assert_eq!(random_free_cell(&occupied), Some(pos(13, 17)));
    occupied.push(pos(13, 17));
    assert_eq!(random_free_cell(&occupied), None);
    let few = vec![pos(0, 0), pos(5, 5)];
    for _ in 0..100 {
        let p = random_free_cell(&few).unwrap();
        assert!(p.in_grid());
        assert!(!few.contains(&p));
    }
}

#[test]
fn holds_cell_finds_members() {
    let cells = vec![pos(1, 2), pos(3, 4)];
    assert!(holds_cell(&cells, pos(3, 4)));
    assert!(!holds_cell(&cells, pos(4, 3)));
    assert!(!holds_cell(&Vec::new(), pos(0, 0)));
}

#[test]
fn position_step_and_opposite() {
    assert_eq!(pos(3, 3).step(Direction::Up), pos(3, 2));
    assert_eq!(pos(3, 3).step(Direction::Down), pos(3, 4));
    assert_eq!(pos(3, 3).step(Direction::Left), pos(2, 3));
    assert_eq!(pos(3, 3).step(Direction::Right), pos(4, 3));
    assert_eq!(Direction::Up.opposite(), Direction::Down);
    assert_eq!(Direction::Left.opposite(), Direction::Right);
    assert!(pos(0, 19).in_grid());
    assert!(!pos(20, 0).in_grid());
    assert!(!pos(0, -1).in_grid());
}

#[test]
fn button_hit_test_is_strict() {
    let b = Button::new(250, 100, "Start Game", SwapScene::Game);
    assert_eq!(b.label, "Start Game");
    assert!(b.is_mouse_over_button(251, 101));
    assert!(b.is_mouse_over_button(549, 199));
    assert!(!b.is_mouse_over_button(250, 150));
    assert!(!b.is_mouse_over_button(550, 150));
    assert!(!b.is_mouse_over_button(400, 200));
    assert!(!b.is_mouse_over_button(i32::MAX, i32::MAX));
    assert_eq!(b.label_baseline(), 162);
}

#[test]
fn menu_buttons() {
    let m = Menu::new();
    assert_eq!(m.update(pointer(400, 150, true)), Some(SwapScene::Game));
    assert_eq!(m.update(pointer(400, 350, true)), Some(SwapScene::Exit));
    assert_eq!(m.update(pointer(400, 150, false)), None);
    assert_eq!(m.update(pointer(400, 250, true)), None);
    let o = GameOver::new();
    assert_eq!(o.restart_button.label, "Restart Game");
    assert_eq!(o.update(pointer(300, 120, true)), Some(SwapScene::Game));
    assert_eq!(o.update(pointer(300, 320, true)), Some(SwapScene::Exit));
    assert_eq!(o.update(pointer(10, 10, true)), None);
}

fn frame(p: Pointer, keys: Keys, now_ms: u64) -> FrameInput {
    FrameInput { pointer: p, keys, now_ms }
}

#[test]
fn dispatcher_runs_menu_game_and_game_over() {
    let mut game = Game::new(0);
    assert_eq!(game.active, ActiveScene::Menu);
    let idle = pointer(0, 0, false);
    assert_eq!(game.update(frame(idle, no_keys(), 0)), None);
    assert_eq!(game.active, ActiveScene::Menu);
    assert_eq!(game.update(frame(pointer(400, 150, true), no_keys(), 0)), Some(SwapScene::Game));
    assert_eq!(game.active, ActiveScene::Playing);
    game.game_scene.fruit_location = pos(0, 19);
    let mut now = 0;
    let mut over = 0;
    for _ in 0..30 {
        now += TICK_SPEED_MS;
        if game.update(frame(idle, no_keys(), now)) == Some(SwapScene::GameOver) {
            over += 1;
        }
    }
    assert_eq!(over, 1);
    assert_eq!(game.active, ActiveScene::GameOver);
    assert_eq!(game.update(frame(pointer(400, 150, true), no_keys(), now)), Some(SwapScene::Game));
    assert_eq!(game.active, ActiveScene::Playing);
    assert_eq!(game.game_scene.head_position, pos(10, 10));
    assert_eq!(game.game_scene.bodyparts.len(), 1);
}

#[test]
fn exit_is_reported_and_scene_kept() {
    let mut game = Game::new(0);
    assert_eq!(game.update(frame(pointer(400, 350, true), no_keys(), 0)), Some(SwapScene::Exit));
    assert_eq!(game.active, ActiveScene::Menu);
    game.set_scene(ActiveScene::GameOver);
    assert_eq!(game.update(frame(pointer(400, 350, true), no_keys(), 0)), Some(SwapScene::Exit));
    assert_eq!(game.active, ActiveScene::GameOver);
}
