use std::collections::VecDeque;

use oorandom::Rand32;
use viper::game::State;
use viper::grid::{Direction, Position, CELL_SIZE, GRID_HEIGHT, GRID_WIDTH};
use viper::snake::{Ate, Food, Segment, Snake};

fn cells(snake: &Snake) -> Vec<(i8, i8)> {
    snake.body.iter().map(|s| (s.pos.x, s.pos.y)).collect()
}

fn in_bounds(p: Position) -> bool {
    0 <= p.x && p.x < GRID_WIDTH && 0 <= p.y && p.y < GRID_HEIGHT
}

#[test]
fn next_moves_one_cell() {
    let p = Position::new(5, 7);
    assert_eq!(Position::next(p, Direction::Up), Position::new(5, 6));
    assert_eq!(Position::next(p, Direction::Down), Position::new(5, 8));
    assert_eq!(Position::next(p, Direction::Left), Position::new(4, 7));
    assert_eq!(Position::next(p, Direction::Right), Position::new(6, 7));
}

#[test]
fn position_from_pair() {
    assert_eq!(Position::from((3, 4)), Position::new(3, 4));
    let p: Position = (31, 0).into();
    assert_eq!((p.x, p.y), (31, 0));
}

#[test]
fn next_wraps_at_edges() {
    assert_eq!(Position::next(Position::new(0, 3), Direction::Left), Position::new(31, 3));
    assert_eq!(Position::next(Position::new(31, 3), Direction::Right), Position::new(0, 3));
    assert_eq!(Position::next(Position::new(4, 0), Direction::Up), Position::new(4, 31));
    assert_eq!(Position::next(Position::new(4, 31), Direction::Down), Position::new(4, 0));
}

#[test]
fn step_and_step_back_cancel() {
    let dirs = [Direction::Up, Direction::Down, Direction::Left, Direction::Right];
    for p in [Position::new(0, 0), Position::new(31, 31), Position::new(12, 0), Position::new(0, 20)] {
        for d in dirs {
            assert_eq!(Position::next(Position::next(p, d), d.inverse()), p);
        }
    }
}

#[test]
fn inverse_pairs_and_involution() {
    assert_eq!(Direction::Up.inverse(), Direction::Down);
    assert_eq!(Direction::Down.inverse(), Direction::Up);
    assert_eq!(Direction::Left.inverse(), Direction::Right);
    assert_eq!(Direction::Right.inverse(), Direction::Left);
    for d in [Direction::Up, Direction::Down, Direction::Left, Direction::Right] {
        assert_eq!(d.inverse().inverse(), d);
    }
}

#[test]
fn cell_rect_in_pixels() {
    assert_eq!(Position::new(3, 5).cell_rect(), (48, 80, CELL_SIZE, CELL_SIZE));
    assert_eq!(Position::new(0, 0).cell_rect(), (0, 0, 16, 16));
}

#[test]
fn random_position_in_bounds() {
    let mut rng = Rand32::new(7);
    for _ in 0..200 {
        let p = Position::random(&mut rng, GRID_WIDTH, GRID_HEIGHT);
        assert!(in_bounds(p));
    }
    let mut seen_nonzero = false;
    for _ in 0..50 {
        let p = Position::random(&mut rng, 3, 2);
        assert!(0 <= p.x && p.x < 3 && 0 <= p.y && p.y < 2);
        seen_nonzero |= p.x != 0 || p.y != 0;
    }
    assert!(seen_nonzero);
}

#[test]
fn new_snake_layout() {
    let s = Snake::new(Position::new(8, 16));
    assert_eq!(s.head.pos, Position::new(8, 16));
    assert_eq!(cells(&s), vec![(7, 16)]);
    assert_eq!(s.dir, Direction::Right);
    assert_eq!(s.prev_dir, Direction::Right);
    assert_eq!(s.next_dir, None);
    assert_eq!(s.ate, None);
    let edge = Snake::new(Position::new(0, 4));
    assert_eq!(cells(&edge), vec![(31, 4)]);
}

#[test]
fn eats_checks_head_against_food() {
    let s = Snake::new(Position::new(8, 16));
    assert!(s.eats(&Food::new(Position::new(8, 16))));
    assert!(!s.eats(&Food::new(Position::new(7, 16))));
    assert!(!s.eats_self());
}

#[test]
fn tick_without_food_keeps_length() {
    let mut s = Snake::new(Position::new(8, 16));
    let food = Food::new(Position::new(20, 3));
    s.update(&food);
    assert_eq!(s.head.pos, Position::new(9, 16));
    assert_eq!(cells(&s), vec![(8, 16)]);
    assert_eq!(s.ate, None);
}

#[test]
fn tick_onto_food_grows() {
    let mut s = Snake::new(Position::new(8, 16));
    let food = Food::new(Position::new(9, 16));
    s.update(&food);
    assert_eq!(s.head.pos, Position::new(9, 16));
    assert_eq!(cells(&s), vec![(8, 16), (7, 16)]);
    assert_eq!(s.ate, Some(Ate::Food));
}

#[test]
fn length_over_many_ticks() {
    let mut s = Snake::new(Position::new(8, 16));
    let away = Food::new(Position::new(0, 0));
    for _ in 0..10 {
        s.update(&away);
        assert_eq!(s.body.len(), 1);
    }
    assert_eq!(s.head.pos, Position::new(18, 16));
    let ahead = Food::new(Position::new(19, 16));
    s.update(&ahead);
    assert_eq!(s.body.len(), 2);
    s.update(&away);
    assert_eq!(s.body.len(), 2);
}

fn coiled_snake() -> Snake {
    // head at (5,5) moving Up into (5,4), which the body occupies
    let body: VecDeque<Segment> = [(4, 5), (4, 4), (5, 4), (6, 4)]
        .iter()
        .map(|&(x, y)| Segment::new(Position::new(x, y)))
        .collect();
    Snake {
        head: Segment::new(Position::new(5, 5)),
        dir: Direction::Up,
        body,
        ate: None,
        prev_dir: Direction::Up,
        next_dir: None,
    }
}

#[test]
fn self_collision_before_food() {
    let mut s = coiled_snake();
    s.update(&Food::new(Position::new(5, 4)));
    assert_eq!(s.ate, Some(Ate::Itself));
    assert_eq!(s.body.len(), 5);
}

#[test]
fn self_collision_detected() {
    let mut s = coiled_snake();
    s.update(&Food::new(Position::new(20, 20)));
    assert_eq!(s.head.pos, Position::new(5, 4));
    assert_eq!(s.ate, Some(Ate::Itself));
    assert!(s.eats_self());
}

#[test]
fn reversal_is_ignored() {
    let mut s = Snake::new(Position::new(8, 16));
    s.steer(Direction::Left);
    assert_eq!(s.dir, Direction::Right);
    assert_eq!(s.next_dir, None);
}

#[test]
fn turn_commits_at_once() {
    let mut s = Snake::new(Position::new(8, 16));
    s.steer(Direction::Up);
    assert_eq!(s.dir, Direction::Up);
    assert_eq!(s.next_dir, None);
}

#[test]
fn second_turn_is_buffered() {
    let mut s = Snake::new(Position::new(8, 16));
    s.steer(Direction::Up);
    s.steer(Direction::Right);
    assert_eq!(s.dir, Direction::Up);
    assert_eq!(s.next_dir, Some(Direction::Right));
    let food = Food::new(Position::new(0, 0));
    s.update(&food);
    assert_eq!(s.head.pos, Position::new(8, 15));
    assert_eq!(s.dir, Direction::Up);
    s.update(&food);
    assert_eq!(s.dir, Direction::Right);
    assert_eq!(s.next_dir, None);
    assert_eq!(s.head.pos, Position::new(9, 15));
}

#[test]
fn reversing_pending_turn_replaces_it() {
    let mut s = Snake::new(Position::new(8, 16));
    s.steer(Direction::Up);
    s.steer(Direction::Down);
    assert_eq!(s.dir, Direction::Down);
    assert_eq!(s.next_dir, None);
}

#[test]
fn new_state_layout() {
    let st = State::new(42);
    assert!(!st.game_over);
    assert_eq!(st.snake.head.pos, Position::new(8, 16));
    assert_eq!(cells(&st.snake), vec![(7, 16)]);
    assert!(in_bounds(st.food.pos));
}

#[test]
fn state_relocates_eaten_food() {
    let mut st = State::new(3);
    st.food.relocate(Position::new(9, 16));
    st.update();
    assert_eq!(st.snake.ate, Some(Ate::Food));
    assert_eq!(cells(&st.snake), vec![(8, 16), (7, 16)]);
    assert!(in_bounds(st.food.pos));
    assert!(!st.game_over);
}

#[test]
fn state_keeps_uneaten_food() {
    let mut st = State::new(3);
    st.food.relocate(Position::new(0, 0));
    st.update();
    assert_eq!(st.food.pos, Position::new(0, 0));
    assert_eq!(st.snake.head.pos, Position::new(9, 16));
}

#[test]
fn game_over_latches_and_freezes() {
    let mut st = State::new(5);
    st.snake = coiled_snake();
    st.food.relocate(Position::new(20, 20));
    st.update();
    assert_eq!(st.snake.ate, Some(Ate::Itself));
    assert!(st.game_over);
    let head = st.snake.head.pos;
    let body = cells(&st.snake);
    st.key_down(Direction::Left);
    st.update();
    st.update();
    assert!(st.game_over);
    assert_eq!(st.snake.head.pos, head);
    assert_eq!(cells(&st.snake), body);
    assert_eq!(st.food.pos, Position::new(20, 20));
}

#[test]
fn key_down_forwards_to_snake() {
    let mut st = State::new(9);
    st.key_down(Direction::Down);
    assert_eq!(st.snake.dir, Direction::Down);
    st.key_down(Direction::Left);
    assert_eq!(st.snake.dir, Direction::Down);
    assert_eq!(st.snake.next_dir, Some(Direction::Left));
}
