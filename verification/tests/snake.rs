use snake_duel::geometry::Direction;
use snake_duel::geometry::Position;
use snake_duel::snake::Snake;
use snake_duel::snake::Terminated;

fn cells(points: &[(i32, i32)]) -> Vec<Position> {
    points.iter().map(|&(x, y)| Position::new(x, y)).collect()
}

#[test]
fn new_snake_has_three_cells_in_a_row_and_faces_right() {
    let snake = Snake::new(Position::new(5, 5));
    assert_eq!(snake.body(), cells(&[(5, 5), (4, 5), (3, 5)]));
    assert_eq!(snake.head(), Position::new(5, 5));
    assert_eq!(snake.len(), 3);
    assert_eq!(snake.direction(), Direction::Right);
}

#[test]
fn move_forward_puts_a_new_head_and_drops_the_tail() {
    let mut snake = Snake::new(Position::new(5, 5));
    assert_eq!(snake.move_forward(10, 10, false, &None), Ok(()));
    assert_eq!(snake.body(), cells(&[(6, 5), (5, 5), (4, 5)]));
}

#[test]
fn move_forward_follows_each_direction() {
    let mut snake = Snake::new(Position::new(5, 5));
    snake.change_direction(Direction::Up);
    assert_eq!(snake.move_forward(10, 10, false, &None), Ok(()));
    assert_eq!(snake.head(), Position::new(5, 4));
    snake.change_direction(Direction::Left);
    assert_eq!(snake.move_forward(10, 10, false, &None), Ok(()));
    assert_eq!(snake.head(), Position::new(4, 4));
    snake.change_direction(Direction::Down);
    assert_eq!(snake.move_forward(10, 10, false, &None), Ok(()));
    assert_eq!(snake.head(), Position::new(4, 5));
    assert_eq!(snake.body(), cells(&[(4, 5), (4, 4), (5, 4)]));
}

#[test]
fn move_forward_is_length_neutral() {
    let mut snake = Snake::new(Position::new(3, 3));
    for _ in 0..5 {
        assert_eq!(snake.move_forward(20, 20, false, &None), Ok(()));
        assert_eq!(snake.len(), 3);
    }
}

#[test]
fn leaving_a_walled_grid_terminates_and_keeps_the_body() {
    let mut snake = Snake::new(Position::new(9, 5));
    let before = snake.body();
    assert_eq!(snake.move_forward(10, 10, false, &None), Err(Terminated));
    assert_eq!(snake.body(), before);
    assert_eq!(snake.direction(), Direction::Right);
}

#[test]
fn leaving_through_each_wall_terminates() {
    let mut up = Snake::new(Position::new(5, 0));
    up.change_direction(Direction::Up);
    assert_eq!(up.move_forward(10, 10, false, &None), Err(Terminated));
    let mut down = Snake::new(Position::new(5, 9));
    down.change_direction(Direction::Down);
    assert_eq!(down.move_forward(10, 10, false, &None), Err(Terminated));
    let mut left = Snake::new(Position::new(0, 5));
    left.change_direction(Direction::Left);
    assert_eq!(left.move_forward(10, 10, false, &None), Err(Terminated));
    assert_eq!(left.body(), cells(&[(0, 5), (-1, 5), (-2, 5)]));
}

#[test]
fn wrapping_grid_carries_the_head_to_the_other_edge() {
    let mut snake = Snake::new(Position::new(9, 5));
    assert_eq!(snake.move_forward(10, 10, true, &None), Ok(()));
    assert_eq!(snake.body(), cells(&[(0, 5), (9, 5), (8, 5)]));
    let mut up = Snake::new(Position::new(4, 0));
    up.change_direction(Direction::Up);
    assert_eq!(up.move_forward(10, 10, true, &None), Ok(()));
    assert_eq!(up.head(), Position::new(4, 9));
}

#[test]
fn portal_carries_the_head_to_its_other_end() {
    let portals = Some((Position::new(6, 5), Position::new(1, 1)));
    let mut snake = Snake::new(Position::new(5, 5));
    assert_eq!(snake.move_forward(10, 10, false, &portals), Ok(()));
    assert_eq!(snake.body(), cells(&[(1, 1), (5, 5), (4, 5)]));
    let back = Some((Position::new(0, 0), Position::new(2, 1)));
    assert_eq!(snake.move_forward(10, 10, false, &back), Ok(()));
    assert_eq!(snake.head(), Position::new(0, 0));
}

#[test]
fn portal_end_outside_a_walled_grid_terminates() {
    let portals = Some((Position::new(6, 5), Position::new(40, 40)));
    let mut snake = Snake::new(Position::new(5, 5));
    assert_eq!(snake.move_forward(10, 10, false, &portals), Err(Terminated));
    assert_eq!(snake.body(), cells(&[(5, 5), (4, 5), (3, 5)]));
}

#[test]
fn grow_repeats_the_tail() {
    let mut snake = Snake::new(Position::new(5, 5));
    snake.grow();
    assert_eq!(snake.body(), cells(&[(5, 5), (4, 5), (3, 5), (3, 5)]));
}

#[test]
fn grow_then_move_is_one_cell_longer() {
    let mut snake = Snake::new(Position::new(5, 5));
    snake.grow();
    assert_eq!(snake.move_forward(10, 10, false, &None), Ok(()));
    assert_eq!(snake.len(), 4);
    assert_eq!(snake.body(), cells(&[(6, 5), (5, 5), (4, 5), (3, 5)]));
}

#[test]
fn change_direction_overwrites_even_with_the_reverse() {
    let mut snake = Snake::new(Position::new(5, 5));
    snake.change_direction(Direction::Left);
    assert_eq!(snake.direction(), Direction::Left);
    assert_eq!(snake.body(), cells(&[(5, 5), (4, 5), (3, 5)]));
}

#[test]
fn contains_finds_every_cell_of_the_body() {
    let snake = Snake::new(Position::new(5, 5));
    assert!(snake.contains(Position::new(5, 5)));
    assert!(snake.contains(Position::new(3, 5)));
    assert!(!snake.contains(Position::new(6, 5)));
    assert!(!snake.contains(Position::new(5, 4)));
}

#[test]
fn check_collision_is_false_for_a_straight_snake() {
    let snake = Snake::new(Position::new(5, 5));
    assert!(!snake.check_collision());
}

#[test]
fn check_collision_sees_the_head_on_the_body() {
    let mut snake = Snake::new(Position::new(5, 5));
    snake.grow();
    snake.grow();
    for d in [Direction::Down, Direction::Left, Direction::Up] {
        snake.change_direction(d);
        assert_eq!(snake.move_forward(10, 10, false, &None), Ok(()));
    }
    assert_eq!(snake.head(), Position::new(4, 5));
    assert_eq!(snake.body(), cells(&[(4, 5), (4, 6), (5, 6), (5, 5), (4, 5)]));
    assert!(snake.check_collision());
}

#[test]
fn check_collision_sees_a_reversal() {
    let mut snake = Snake::new(Position::new(5, 5));
    snake.change_direction(Direction::Left);
    assert_eq!(snake.move_forward(10, 10, false, &None), Ok(()));
    assert_eq!(snake.body(), cells(&[(4, 5), (5, 5), (4, 5)]));
    assert!(snake.check_collision());
}
