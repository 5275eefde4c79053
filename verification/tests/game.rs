use snake_sim::clock::TickClock;
use snake_sim::direction::{Direction, HeldKeys};
use snake_sim::game::Game;
use snake_sim::position::Position;
use snake_sim::snake::Snake;

const TICK: u64 = 150_000_000;
const SECOND: u64 = 1_000_000_000;

fn cells(game: &Game) -> Vec<Position> {
    let snake = game.snake();
    let mut out = Vec::new();
    for i in 0..snake.len() {
        out.push(snake.segment(i));
    }
    out
}

#[test]
fn new_game_is_the_spawned_snake_alone() {
    let game = Game::new();
    assert_eq!(cells(&game), vec![Position::new(3, 3), Position::new(3, 2)]);
    assert_eq!(game.snake().direction(), Direction::Up);
    assert!(game.foods().is_empty());
    assert_eq!(game.pending_growth(), 0);
    assert_eq!(game.clock(), TickClock::new());
}

#[test]
fn one_firing_with_no_keys_moves_the_snake_up() {
    let mut game = Game::new();
    assert!(game.fits_frame(TICK, HeldKeys::none()));
    game.frame_with(TICK, HeldKeys::none(), 0, 0);
    assert_eq!(cells(&game), vec![Position::new(3, 4), Position::new(3, 3)]);
    assert_eq!(game.snake().last_tail(), Some(Position::new(3, 2)));
    assert!(game.clock().movement_just_fired());
}

#[test]
fn nothing_moves_between_firings_but_the_head_turns() {
    let mut game = Game::new();
    let left = HeldKeys { left: true, up: false, right: false, down: false };
    game.frame_with(TICK - 1, left, 0, 0);
    assert_eq!(cells(&game), vec![Position::new(3, 3), Position::new(3, 2)]);
    assert_eq!(game.snake().direction(), Direction::Left);
    assert_eq!(game.snake().last_tail(), None);
    game.frame_with(1, HeldKeys::none(), 0, 0);
    assert_eq!(cells(&game), vec![Position::new(2, 3), Position::new(3, 3)]);
}

#[test]
fn eating_queues_one_signal_and_growth_appends_at_the_tail_mark() {
    let mut game = Game::with_state(Snake::spawn(), vec![Position::new(3, 4), Position::new(6, 6)]);
    game.tick(TICK);
    game.steer(HeldKeys::none());
    game.step();
    let mark = game.snake().last_tail();
    assert_eq!(mark, Some(Position::new(3, 2)));
    game.check_collision();
    assert_eq!(game.foods(), &vec![Position::new(6, 6)]);
    assert_eq!(game.pending_growth(), 1);
    assert_eq!(game.snake().len(), 2);
    game.apply_growth();
    assert_eq!(game.pending_growth(), 0);
    assert_eq!(
        cells(&game),
        vec![Position::new(3, 4), Position::new(3, 3), Position::new(3, 2)]
    );
    game.apply_growth();
    assert_eq!(game.snake().len(), 3);
}

#[test]
fn a_whole_frame_eats_and_grows() {
    let mut game = Game::with_state(Snake::spawn(), vec![Position::new(3, 4)]);
    game.frame_with(TICK, HeldKeys::none(), 0, 0);
    assert!(game.foods().is_empty());
    assert_eq!(game.pending_growth(), 0);
    assert_eq!(
        cells(&game),
        vec![Position::new(3, 4), Position::new(3, 3), Position::new(3, 2)]
    );
}

#[test]
fn food_is_not_eaten_between_firings() {
    let mut game = Game::with_state(Snake::spawn(), vec![Position::new(3, 3)]);
    game.frame_with(TICK - 1, HeldKeys::none(), 0, 0);
    assert_eq!(game.foods(), &vec![Position::new(3, 3)]);
    assert_eq!(game.pending_growth(), 0);
    assert_eq!(game.snake().len(), 2);
}

#[test]
fn stacked_food_grows_the_snake_one_segment_per_frame() {
    let stacked = vec![Position::new(3, 4), Position::new(3, 4), Position::new(3, 4)];
    let mut game = Game::with_state(Snake::spawn(), stacked);
    game.frame_with(TICK, HeldKeys::none(), 0, 0);
    assert!(game.foods().is_empty());
    assert_eq!(game.snake().len(), 3);
    assert_eq!(game.pending_growth(), 2);
    // The next frame does not fire, yet one more signal is handled.
    game.frame_with(1, HeldKeys::none(), 0, 0);
    assert_eq!(game.snake().len(), 4);
    assert_eq!(game.pending_growth(), 1);
    assert_eq!(game.snake().segment(3), Position::new(3, 2));
    game.frame_with(1, HeldKeys::none(), 0, 0);
    assert_eq!(game.snake().len(), 5);
    assert_eq!(game.pending_growth(), 0);
    game.frame_with(1, HeldKeys::none(), 0, 0);
    assert_eq!(game.snake().len(), 5);
}

#[test]
fn food_appears_when_its_timer_fires() {
    let mut game = Game::new();
    game.frame_with(SECOND - 1, HeldKeys::none(), 0x8000_0000, u32::MAX);
    assert!(game.foods().is_empty());
    game.frame_with(1, HeldKeys::none(), 0x8000_0000, u32::MAX);
    assert_eq!(game.foods(), &vec![Position::new(5, 9)]);
    game.frame_with(1, HeldKeys::none(), 0, 0);
    assert_eq!(game.foods().len(), 1);
    game.frame_with(SECOND, HeldKeys::none(), 0, 0);
    assert_eq!(game.foods(), &vec![Position::new(5, 9), Position::new(0, 0)]);
}

#[test]
fn maybe_spawn_at_waits_for_the_food_timer() {
    let mut game = Game::new();
    game.tick(SECOND / 2);
    game.maybe_spawn_at(0, 0);
    assert!(game.foods().is_empty());
    game.tick(SECOND / 2);
    game.maybe_spawn_at(u32::MAX, 0);
    assert_eq!(game.foods(), &vec![Position::new(9, 0)]);
}

#[test]
fn maybe_spawn_draws_a_cell_of_the_arena() {
    let mut game = Game::new();
    game.tick(SECOND - 1);
    game.maybe_spawn();
    assert!(game.foods().is_empty());
    game.tick(1);
    game.maybe_spawn();
    assert_eq!(game.foods().len(), 1);
    let cell = game.foods()[0];
    assert!(0 <= cell.x && cell.x < 10);
    assert!(0 <= cell.y && cell.y < 10);
}

#[test]
fn random_frames_put_food_in_the_arena() {
    let mut game = Game::new();
    let right = HeldKeys { left: false, up: false, right: true, down: false };
    for n in 1..=20usize {
        assert!(game.fits_frame(SECOND, right));
        game.frame(SECOND, right);
        assert!(game.foods().len() <= n);
        for cell in game.foods() {
            assert!(0 <= cell.x && cell.x < 10);
            assert!(0 <= cell.y && cell.y < 10);
        }
    }
    assert!(!game.foods().is_empty());
    assert!(game.snake().len() >= 2);
}

#[test]
fn a_frame_that_would_overflow_is_told_apart() {
    let snake = Snake::new(
        vec![Position::new(i32::MIN, 0), Position::new(i32::MIN + 1, 0)],
        Direction::Left,
    )
    .unwrap();
    let game = Game::with_state(snake, vec![]);
    assert!(!game.fits_frame(TICK, HeldKeys::none()));
    assert!(game.fits_frame(TICK - 1, HeldKeys::none()));
    let up = HeldKeys { left: false, up: true, right: false, down: false };
    assert!(game.fits_frame(TICK, up));
}
