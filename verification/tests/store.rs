use snake::food::Food;
use snake::geometry::{Direction, Position};
use snake::snake::Snake;
use snake::store::EntityStore;
use snake::systems::{bound_system, input_system, snake_system, Input, Playing};
use snake::geometry::Grid;

fn food(x: i16, y: i16) -> Food {
    Food(Position::new(x, y))
}

fn store_with(start: (i16, i16), foods: &[(i16, i16)]) -> EntityStore {
    EntityStore {
        snake: Snake::new(Position::new(start.0, start.1)),
        foods: foods.iter().map(|&(x, y)| food(x, y)).collect(),
        doomed: vec![false; foods.len()],
        spawned: Vec::new(),
    }
}

#[test]
fn new_store_holds_one_food_and_nothing_pending() {
    let s = EntityStore::new(Snake::default(), food(20, 20));
    assert_eq!(s.foods, vec![food(20, 20)]);
    assert_eq!(s.doomed, vec![false]);
    assert!(s.spawned.is_empty());
    assert_eq!(s.snake.segments, vec![Position::new(10, 10)]);
}

#[test]
fn find_food_gives_the_first_live_food_on_the_cell() {
    let mut s = store_with((0, 0), &[(15, 15), (20, 20), (15, 15)]);
    assert_eq!(s.find_food(Position::new(15, 15)), Some(0));
    assert_eq!(s.find_food(Position::new(20, 20)), Some(1));
    assert_eq!(s.find_food(Position::new(20, 21)), None);
    s.delete(0);
    assert_eq!(s.find_food(Position::new(15, 15)), Some(2));
    s.delete(2);
    assert_eq!(s.find_food(Position::new(15, 15)), None);
}

#[test]
fn find_food_in_an_empty_store_finds_nothing() {
    let s = store_with((0, 0), &[]);
    assert_eq!(s.find_food(Position::new(0, 0)), None);
}

#[test]
fn deletion_and_creation_wait_for_the_commit() {
    let mut s = store_with((0, 0), &[(15, 15), (20, 20)]);
    s.delete(0);
    s.create(food(25, 25));
    assert_eq!(s.foods, vec![food(15, 15), food(20, 20)]);
    assert_eq!(s.doomed, vec![true, false]);
    assert_eq!(s.spawned, vec![food(25, 25)]);
    s.maintain();
    assert_eq!(s.foods, vec![food(20, 20), food(25, 25)]);
    assert_eq!(s.doomed, vec![false, false]);
    assert!(s.spawned.is_empty());
}

#[test]
fn commit_with_nothing_pending_changes_nothing() {
    let mut s = store_with((0, 0), &[(15, 15), (20, 20)]);
    s.maintain();
    assert_eq!(s.foods, vec![food(15, 15), food(20, 20)]);
    assert_eq!(s.doomed, vec![false, false]);
    assert!(s.spawned.is_empty());
}

#[test]
fn commit_keeps_the_order_of_what_stays_and_of_what_comes() {
    let mut s = store_with((0, 0), &[(15, 15), (16, 16), (17, 17), (18, 18)]);
    s.delete(1);
    s.delete(3);
    s.create(food(21, 21));
    s.create(food(22, 22));
    s.maintain();
    assert_eq!(s.foods, vec![food(15, 15), food(17, 17), food(21, 21), food(22, 22)]);
    assert_eq!(s.doomed, vec![false; 4]);
}

#[test]
fn snake_system_eats_food_on_the_cell_ahead() {
    let mut s = store_with((14, 15), &[(15, 15)]);
    snake_system(&mut s, food(20, 20));
    assert_eq!(s.snake.segments, vec![Position::new(15, 15), Position::new(14, 15)]);
    assert_eq!(s.snake.length, 2);
    assert_eq!(s.foods, vec![food(15, 15)]);
    assert_eq!(s.doomed, vec![true]);
    assert_eq!(s.spawned, vec![food(20, 20)]);
}

#[test]
fn snake_system_moves_on_where_no_food_lies_ahead() {
    let mut s = store_with((13, 15), &[(15, 15)]);
    snake_system(&mut s, food(20, 20));
    assert_eq!(s.snake.segments, vec![Position::new(14, 15)]);
    assert_eq!(s.snake.length, 1);
    assert_eq!(s.doomed, vec![false]);
    assert!(s.spawned.is_empty());
}

#[test]
fn food_is_not_eaten_twice_before_the_commit() {
    let mut s = store_with((14, 15), &[(15, 15)]);
    snake_system(&mut s, food(20, 20));
    s.snake = Snake::new(Position::new(14, 15));
    snake_system(&mut s, food(21, 21));
    assert_eq!(s.snake.segments, vec![Position::new(15, 15)]);
    assert_eq!(s.snake.length, 1);
    assert_eq!(s.doomed, vec![true]);
    assert_eq!(s.spawned, vec![food(20, 20)]);
    s.maintain();
    assert_eq!(s.foods, vec![food(20, 20)]);
}

#[test]
fn input_system_drops_a_reversal_and_takes_a_turn() {
    let mut s = store_with((5, 5), &[(15, 15)]);
    input_system(&mut s, &Input { direction: Direction::Left, pause: false });
    assert_eq!(s.snake.direction, Direction::Right);
    input_system(&mut s, &Input { direction: Direction::Down, pause: true });
    assert_eq!(s.snake.direction, Direction::Down);
}

#[test]
fn bound_system_tells_whether_the_snake_plays_on() {
    let grid = Grid::square(30);
    let mut s = store_with((30, 15), &[(15, 15)]);
    assert_eq!(bound_system(&s, grid), Playing(true));
    snake_system(&mut s, food(20, 20));
    assert_eq!(bound_system(&s, grid), Playing(false));
    s.snake = Snake {
        length: 5,
        segments: vec![
            Position::new(5, 5),
            Position::new(4, 5),
            Position::new(4, 6),
            Position::new(5, 6),
            Position::new(5, 5),
        ],
        direction: Direction::Up,
    };
    assert_eq!(bound_system(&s, grid), Playing(false));
}

#[test]
fn input_and_playing_start_at_right_unpaused_and_playing() {
    assert_eq!(Input::default(), Input { direction: Direction::Right, pause: false });
    assert_eq!(Playing::default(), Playing(true));
}
