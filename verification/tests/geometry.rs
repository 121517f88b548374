use snake_duel::geometry::advance;
use snake_duel::geometry::apply_portal;
use snake_duel::geometry::resolve_bounds;
use snake_duel::geometry::wrap_coordinate;
use snake_duel::geometry::Direction;
use snake_duel::geometry::OutOfBounds;
use snake_duel::geometry::Position;

const DIRECTIONS: [Direction; 4] =
    [Direction::Up, Direction::Down, Direction::Left, Direction::Right];

#[test]
fn advance_moves_one_cell_in_each_direction() {
    let p = Position::new(3, 4);
    assert_eq!(advance(p, Direction::Up), Position::new(3, 3));
    assert_eq!(advance(p, Direction::Down), Position::new(3, 5));
    assert_eq!(advance(p, Direction::Left), Position::new(2, 4));
    assert_eq!(advance(p, Direction::Right), Position::new(4, 4));
}

#[test]
fn opposite_swaps_the_directions_in_pairs() {
    assert_eq!(Direction::Up.opposite(), Direction::Down);
    assert_eq!(Direction::Down.opposite(), Direction::Up);
    assert_eq!(Direction::Left.opposite(), Direction::Right);
    assert_eq!(Direction::Right.opposite(), Direction::Left);
}

#[test]
fn advance_then_opposite_returns_to_the_start() {
    for x in -3..4 {
        for y in -3..4 {
            for d in DIRECTIONS {
                let p = Position::new(x, y);
                assert_eq!(advance(advance(p, d), d.opposite()), p);
            }
        }
    }
}

#[test]
fn portal_swaps_its_two_ends() {
    let pair = Some((Position::new(1, 1), Position::new(7, 8)));
    assert_eq!(apply_portal(Position::new(1, 1), &pair), Position::new(7, 8));
    assert_eq!(apply_portal(Position::new(7, 8), &pair), Position::new(1, 1));
}

#[test]
fn portal_leaves_other_cells_alone() {
    let pair = Some((Position::new(1, 1), Position::new(7, 8)));
    for x in 0..10 {
        for y in 0..10 {
            let p = Position::new(x, y);
            if p != Position::new(1, 1) && p != Position::new(7, 8) {
                assert_eq!(apply_portal(p, &pair), p);
            }
        }
    }
}

#[test]
fn no_portal_moves_nothing() {
    assert_eq!(apply_portal(Position::new(1, 1), &None), Position::new(1, 1));
}

#[test]
fn portal_with_equal_ends_moves_nothing() {
    let pair = Some((Position::new(2, 2), Position::new(2, 2)));
    assert_eq!(apply_portal(Position::new(2, 2), &pair), Position::new(2, 2));
}

#[test]
fn wrap_coordinate_folds_both_signs() {
    assert_eq!(wrap_coordinate(-1, 10), 9);
    assert_eq!(wrap_coordinate(10, 10), 0);
    assert_eq!(wrap_coordinate(0, 10), 0);
    assert_eq!(wrap_coordinate(7, 10), 7);
    assert_eq!(wrap_coordinate(-25, 10), 5);
    assert_eq!(wrap_coordinate(-20, 10), 0);
    assert_eq!(wrap_coordinate(i32::MAX, 10), 7);
    assert_eq!(wrap_coordinate(i32::MIN, 10), 2);
    assert_eq!(wrap_coordinate(5, 1), 0);
}

#[test]
fn wrapping_grid_keeps_every_neighbour_on_the_grid() {
    for x in 0..6 {
        for y in 0..4 {
            for d in DIRECTIONS {
                let next = advance(Position::new(x, y), d);
                let cell = resolve_bounds(next, 6, 4, true).unwrap();
                assert!(0 <= cell.x && cell.x < 6);
                assert!(0 <= cell.y && cell.y < 4);
            }
        }
    }
}

#[test]
fn wrapping_grid_reenters_at_the_other_edge() {
    assert_eq!(resolve_bounds(Position::new(10, 5), 10, 10, true), Ok(Position::new(0, 5)));
    assert_eq!(resolve_bounds(Position::new(-1, 5), 10, 10, true), Ok(Position::new(9, 5)));
    assert_eq!(resolve_bounds(Position::new(3, -1), 10, 8, true), Ok(Position::new(3, 7)));
    assert_eq!(resolve_bounds(Position::new(3, 8), 10, 8, true), Ok(Position::new(3, 0)));
}

#[test]
fn walled_grid_keeps_cells_and_refuses_the_rest() {
    assert_eq!(resolve_bounds(Position::new(0, 0), 10, 10, false), Ok(Position::new(0, 0)));
    assert_eq!(resolve_bounds(Position::new(9, 9), 10, 10, false), Ok(Position::new(9, 9)));
    assert_eq!(resolve_bounds(Position::new(10, 5), 10, 10, false), Err(OutOfBounds));
    assert_eq!(resolve_bounds(Position::new(-1, 5), 10, 10, false), Err(OutOfBounds));
    assert_eq!(resolve_bounds(Position::new(5, 10), 10, 10, false), Err(OutOfBounds));
    assert_eq!(resolve_bounds(Position::new(5, -1), 10, 10, false), Err(OutOfBounds));
}
