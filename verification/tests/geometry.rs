use snake::geometry::{Direction, Grid, Position};

const ALL: [Direction; 4] = [Direction::Up, Direction::Down, Direction::Left, Direction::Right];

#[test]
fn opposite_pairs_up_with_down_and_left_with_right() {
    assert_eq!(Direction::Up.opposite(), Direction::Down);
    assert_eq!(Direction::Down.opposite(), Direction::Up);
    assert_eq!(Direction::Left.opposite(), Direction::Right);
    assert_eq!(Direction::Right.opposite(), Direction::Left);
}

#[test]
fn opposite_twice_is_the_identity() {
    for d in ALL {
        assert_eq!(d.opposite().opposite(), d);
        assert_ne!(d.opposite(), d);
    }
}

#[test]
fn step_moves_one_cell() {
    let p = Position::new(5, 7);
    assert_eq!(p.step(Direction::Up), Position::new(5, 6));
    assert_eq!(p.step(Direction::Down), Position::new(5, 8));
    assert_eq!(p.step(Direction::Left), Position::new(4, 7));
    assert_eq!(p.step(Direction::Right), Position::new(6, 7));
}

#[test]
fn step_reaches_the_ends_of_the_coordinate_range() {
    assert_eq!(Position::new(i16::MAX - 1, 0).step(Direction::Right), Position::new(i16::MAX, 0));
    assert_eq!(Position::new(0, i16::MIN + 1).step(Direction::Up), Position::new(0, i16::MIN));
}

#[test]
fn the_extent_itself_is_in_bounds() {
    let grid = Grid::square(30);
    assert!(!Position::new(0, 0).out_of_bounds(grid));
    assert!(!Position::new(30, 30).out_of_bounds(grid));
    assert!(!Position::new(30, 0).out_of_bounds(grid));
    assert!(!Position::new(0, 30).out_of_bounds(grid));
}

#[test]
fn past_the_extent_or_negative_is_out_of_bounds() {
    let grid = Grid::square(30);
    assert!(Position::new(31, 15).out_of_bounds(grid));
    assert!(Position::new(15, 31).out_of_bounds(grid));
    assert!(Position::new(-1, 15).out_of_bounds(grid));
    assert!(Position::new(15, -1).out_of_bounds(grid));
}

#[test]
fn bounds_follow_each_axis_of_an_oblong_grid() {
    let grid = Grid { width: 10, height: 20 };
    assert!(!Position::new(10, 20).out_of_bounds(grid));
    assert!(Position::new(11, 20).out_of_bounds(grid));
    assert!(Position::new(10, 21).out_of_bounds(grid));
    assert!(!Position::new(5, 15).out_of_bounds(grid));
}

#[test]
fn square_grid_has_equal_axes() {
    assert_eq!(Grid::square(30), Grid { width: 30, height: 30 });
}
