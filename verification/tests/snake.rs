use snake_sim::direction::{Direction, HeldKeys};
use snake_sim::position::Position;
use snake_sim::snake::Snake;

fn cells(snake: &Snake) -> Vec<Position> {
    let mut out = Vec::new();
    for i in 0..snake.len() {
        out.push(snake.segment(i));
    }
    out
}

#[test]
fn step_moves_one_unit() {
    let p = Position::new(3, 3);
    assert_eq!(p.step(Direction::Left), Position::new(2, 3));
    assert_eq!(p.step(Direction::Right), Position::new(4, 3));
    assert_eq!(p.step(Direction::Up), Position::new(3, 4));
    assert_eq!(p.step(Direction::Down), Position::new(3, 2));
}

#[test]
fn step_fits_except_at_the_integer_limits() {
    assert!(Position::new(0, 0).fits_step(Direction::Left));
    assert!(!Position::new(i32::MIN, 0).fits_step(Direction::Left));
    assert!(Position::new(i32::MIN, 0).fits_step(Direction::Right));
    assert!(!Position::new(i32::MAX, 0).fits_step(Direction::Right));
    assert!(!Position::new(0, i32::MAX).fits_step(Direction::Up));
    assert!(!Position::new(0, i32::MIN).fits_step(Direction::Down));
    assert!(Position::new(0, i32::MIN).fits_step(Direction::Up));
}

#[test]
fn spawned_snake_has_head_and_one_segment() {
    let snake = Snake::spawn();
    assert_eq!(snake.len(), 2);
    assert_eq!(snake.head(), Position::new(3, 3));
    assert_eq!(snake.segment(1), Position::new(3, 2));
    assert_eq!(snake.direction(), Direction::Up);
    assert_eq!(snake.last_tail(), None);
}

#[test]
fn fewer_than_two_cells_make_no_snake() {
    assert!(Snake::new(vec![], Direction::Up).is_none());
    assert!(Snake::new(vec![Position::new(0, 0)], Direction::Up).is_none());
    let two = Snake::new(vec![Position::new(1, 0), Position::new(0, 0)], Direction::Right);
    assert!(two.is_some());
    let two = two.unwrap();
    assert_eq!(cells(&two), vec![Position::new(1, 0), Position::new(0, 0)]);
    assert_eq!(two.direction(), Direction::Right);
}

#[test]
fn head_facing_up_moves_up_and_body_takes_its_place() {
    let mut snake = Snake::spawn();
    snake.turn(HeldKeys::none());
    assert!(snake.fits_advance());
    snake.advance();
    assert_eq!(snake.head(), Position::new(3, 4));
    assert_eq!(snake.segment(1), Position::new(3, 3));
    assert_eq!(snake.len(), 2);
    assert_eq!(snake.last_tail(), Some(Position::new(3, 2)));
}

#[test]
fn every_segment_follows_the_one_ahead() {
    let before = vec![
        Position::new(5, 5),
        Position::new(5, 4),
        Position::new(4, 4),
        Position::new(4, 3),
        Position::new(3, 3),
    ];
    let mut snake = Snake::new(before.clone(), Direction::Right).unwrap();
    snake.advance();
    let after = cells(&snake);
    assert_eq!(after.len(), before.len());
    assert_eq!(after[0], Position::new(6, 5));
    for i in 1..after.len() {
        assert_eq!(after[i], before[i - 1]);
    }
    assert_eq!(snake.last_tail(), Some(Position::new(3, 3)));
    assert_eq!(snake.direction(), Direction::Right);
}

#[test]
fn advance_in_each_direction() {
    let start = vec![Position::new(0, 0), Position::new(9, 9)];
    let expected = [
        (Direction::Left, Position::new(-1, 0)),
        (Direction::Right, Position::new(1, 0)),
        (Direction::Up, Position::new(0, 1)),
        (Direction::Down, Position::new(0, -1)),
    ];
    for (d, head) in expected {
        let mut snake = Snake::new(start.clone(), d).unwrap();
        snake.advance();
        assert_eq!(cells(&snake), vec![head, Position::new(0, 0)]);
    }
}

#[test]
fn snake_may_leave_the_arena() {
    let mut snake = Snake::new(vec![Position::new(9, 9), Position::new(8, 9)], Direction::Right)
        .unwrap();
    snake.advance();
    assert_eq!(snake.head(), Position::new(10, 9));
}

#[test]
fn turn_changes_direction_but_not_cells() {
    let mut snake = Snake::spawn();
    snake.turn(HeldKeys { left: true, up: false, right: false, down: false });
    assert_eq!(snake.direction(), Direction::Left);
    assert_eq!(cells(&snake), vec![Position::new(3, 3), Position::new(3, 2)]);
    snake.turn(HeldKeys { left: false, up: false, right: true, down: false });
    assert_eq!(snake.direction(), Direction::Left);
}

#[test]
fn grow_appends_at_the_cell_the_tail_left() {
    let mut snake = Snake::spawn();
    snake.advance();
    let mark = snake.last_tail().unwrap();
    let before = cells(&snake);
    snake.grow();
    let after = cells(&snake);
    assert_eq!(after.len(), before.len() + 1);
    assert_eq!(after[after.len() - 1], mark);
    assert_eq!(mark, Position::new(3, 2));
    assert_eq!(&after[..before.len()], &before[..]);
    assert_eq!(snake.last_tail(), Some(mark));
}

#[test]
fn head_cannot_advance_past_the_integer_limit() {
    let snake = Snake::new(
        vec![Position::new(0, i32::MAX), Position::new(0, i32::MAX - 1)],
        Direction::Up,
    )
    .unwrap();
    assert!(!snake.fits_advance());
}
