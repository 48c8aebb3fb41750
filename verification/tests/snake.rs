use snake::geometry::{Direction, Grid, Position};
use snake::snake::Snake;

fn snake_of(cells: &[(i16, i16)], direction: Direction) -> Snake {
    let segments: Vec<Position> = cells.iter().map(|&(x, y)| Position::new(x, y)).collect();
    Snake { length: segments.len(), segments, direction }
}

#[test]
fn default_snake_is_one_segment_heading_right() {
    let s = Snake::default();
    assert_eq!(s.length, 1);
    assert_eq!(s.segments, vec![Position::new(10, 10)]);
    assert_eq!(s.direction, Direction::Right);
}

#[test]
fn new_snake_starts_where_it_is_told() {
    let s = Snake::new(Position::new(3, 4));
    assert_eq!(s.length, 1);
    assert_eq!(s.segments, vec![Position::new(3, 4)]);
    assert_eq!(s.direction, Direction::Right);
}

#[test]
fn get_eat_is_the_cell_ahead() {
    assert_eq!(snake_of(&[(5, 5)], Direction::Up).get_eat(), Position::new(5, 4));
    assert_eq!(snake_of(&[(5, 5)], Direction::Down).get_eat(), Position::new(5, 6));
    assert_eq!(snake_of(&[(5, 5)], Direction::Left).get_eat(), Position::new(4, 5));
    assert_eq!(snake_of(&[(5, 5)], Direction::Right).get_eat(), Position::new(6, 5));
}

#[test]
fn advance_puts_the_head_in_front_and_drops_the_tail() {
    let mut s = snake_of(&[(5, 5), (4, 5), (3, 5)], Direction::Down);
    s.advance();
    assert_eq!(
        s.segments,
        vec![Position::new(5, 6), Position::new(5, 5), Position::new(4, 5)]
    );
    assert_eq!(s.length, 3);
    assert_eq!(s.direction, Direction::Down);
}

#[test]
fn advance_of_a_single_segment_moves_it() {
    let mut s = snake_of(&[(5, 5)], Direction::Left);
    s.advance();
    assert_eq!(s.segments, vec![Position::new(4, 5)]);
    assert_eq!(s.length, 1);
}

#[test]
fn grow_keeps_every_segment() {
    let mut s = snake_of(&[(5, 5), (4, 5), (3, 5)], Direction::Right);
    s.grow();
    assert_eq!(
        s.segments,
        vec![Position::new(6, 5), Position::new(5, 5), Position::new(4, 5), Position::new(3, 5)]
    );
    assert_eq!(s.length, 4);
    assert_eq!(s.length, s.segments.len());
}

#[test]
fn length_follows_segments_over_many_moves() {
    let mut s = Snake::default();
    for i in 0..10 {
        if i % 3 == 0 {
            s.grow();
        } else {
            s.advance();
        }
        assert_eq!(s.length, s.segments.len());
    }
    assert_eq!(s.length, 5);
    assert_eq!(s.segments[0], Position::new(20, 10));
}

#[test]
fn turn_takes_any_heading_but_the_reverse() {
    let mut s = snake_of(&[(5, 5)], Direction::Right);
    s.turn(Direction::Left);
    assert_eq!(s.direction, Direction::Right);
    s.turn(Direction::Up);
    assert_eq!(s.direction, Direction::Up);
    s.turn(Direction::Down);
    assert_eq!(s.direction, Direction::Up);
    s.turn(Direction::Up);
    assert_eq!(s.direction, Direction::Up);
    s.turn(Direction::Left);
    assert_eq!(s.direction, Direction::Left);
}

#[test]
fn self_intersect_sees_the_head_on_another_segment() {
    let s = snake_of(&[(5, 5), (4, 5), (4, 6), (5, 6), (5, 5)], Direction::Up);
    assert!(s.self_intersect());
}

#[test]
fn self_intersect_ignores_other_repeats_and_short_snakes() {
    assert!(!snake_of(&[(5, 5)], Direction::Up).self_intersect());
    assert!(!snake_of(&[(5, 5), (4, 5), (3, 5)], Direction::Up).self_intersect());
    assert!(!snake_of(&[(5, 5), (4, 5), (4, 5)], Direction::Up).self_intersect());
}

#[test]
fn snake_out_of_bounds_looks_at_the_head_only() {
    let grid = Grid::square(30);
    assert!(snake_of(&[(31, 15), (30, 15)], Direction::Right).out_of_bounds(grid));
    assert!(!snake_of(&[(30, 15), (31, 15)], Direction::Left).out_of_bounds(grid));
}
