use vstd::prelude::*;
use crate::geometry::Position;
use crate::snake::Snake;

verus! {

/// The signal that no cell of the grid is free to be taken.
#[derive(Clone, Copy, Debug, PartialEq, Eq, Structural)]
pub struct NoFreeCell;

/// How many random cells a placement tries before it searches the grid in
/// order.
pub const SAMPLE_BUDGET: u32 = 1024;

/// Whether `cell` is free: it lies on neither body and is not the cell to
/// avoid.
pub open spec fn is_free(
    cell: Position,
    body1: Seq<Position>,
    body2: Seq<Position>,
    avoid: Option<Position>,
) -> bool {
    !body1.contains(cell) && !body2.contains(cell) && avoid != Some(cell)
}

/// Whether the grid has a free cell at all.
pub open spec fn has_free_cell(
    body1: Seq<Position>,
    body2: Seq<Position>,
    avoid: Option<Position>,
    width: int,
    height: int,
) -> bool {
    exists|cell: Position| cell@.in_grid(width, height) && #[trigger] is_free(cell, body1, body2, avoid)
}

/// The order in which a grid is searched: row by row from the top, each row
/// from the left.
pub open spec fn comes_before(a: Position, b: Position) -> bool {
    a.y < b.y || (a.y == b.y && a.x < b.x)
}

/// The cell that two random draws stand for: each draw is reduced modulo the
/// size of the grid in its direction.
pub open spec fn drawn_cell(draw_x: u32, draw_y: u32, width: int, height: int) -> Position {
    Position { x: (draw_x as int % width) as i32, y: (draw_y as int % height) as i32 }
}

/// Draws a `u32` from `rand::random`. The value depends on the thread's
/// generator, so nothing is claimed of it.
#[verifier::external_body]
fn random_u32() -> u32 {
    rand::random::<u32>()
}

/// Turns two random draws into a cell of the grid.
pub fn cell_from_draws(draw_x: u32, draw_y: u32, grid_width: i32, grid_height: i32) -> (cell:
    Position)
    requires
        grid_width > 0,
        grid_height > 0,
    ensures
        cell == drawn_cell(draw_x, draw_y, grid_width as int, grid_height as int),
        cell@.in_grid(grid_width as int, grid_height as int),
{
    Position {
        x: (draw_x % (grid_width as u32)) as i32,
        y: (draw_y % (grid_height as u32)) as i32,
    }
}

/// A cell of the grid picked at random.
pub fn random_cell(grid_width: i32, grid_height: i32) -> (cell: Position)
    requires
        grid_width > 0,
        grid_height > 0,
    ensures
        cell@.in_grid(grid_width as int, grid_height as int),
{
    let draw_x = random_u32();
    let draw_y = random_u32();
    cell_from_draws(draw_x, draw_y, grid_width, grid_height)
}

/// Whether `cell` lies on neither snake and is not the cell to avoid.
pub fn cell_is_free(cell: Position, snake1: &Snake, snake2: &Snake, avoid: Option<Position>) -> (free:
    bool)
    ensures
        free == is_free(cell, snake1@.body, snake2@.body, avoid),
{
    let avoided = match avoid {
        Some(other) => other == cell,
        None => false,
    };
    !avoided && !snake1.contains(cell) && !snake2.contains(cell)
}

/// The first free cell of the grid in search order, or `None` when the grid
/// has no free cell.
pub fn first_free_cell(
    snake1: &Snake,
    snake2: &Snake,
    avoid: Option<Position>,
    grid_width: i32,
    grid_height: i32,
) -> (found: Option<Position>)
    requires
        grid_width > 0,
        grid_height > 0,
    ensures
        match found {
            Some(cell) => {
                &&& cell@.in_grid(grid_width as int, grid_height as int)
                &&& is_free(cell, snake1@.body, snake2@.body, avoid)
                &&& forall|other: Position|
                    other@.in_grid(grid_width as int, grid_height as int) && comes_before(
                        other,
                        cell,
                    ) ==> !#[trigger] is_free(other, snake1@.body, snake2@.body, avoid)
            },
            None => !has_free_cell(
                snake1@.body,
                snake2@.body,
                avoid,
                grid_width as int,
                grid_height as int,
            ),
        },
{
    let mut y: i32 = 0;
    while y < grid_height
        invariant
            0 <= y <= grid_height,
            grid_width > 0,
            forall|other: Position|
                other@.in_grid(grid_width as int, grid_height as int) && other.y < y
                    ==> !#[trigger] is_free(other, snake1@.body, snake2@.body, avoid),
        decreases grid_height - y,
    {
        let mut x: i32 = 0;
        while x < grid_width
            invariant
                0 <= x <= grid_width,
                0 <= y < grid_height,
                forall|other: Position|
                    other@.in_grid(grid_width as int, grid_height as int) && other.y < y
                        ==> !#[trigger] is_free(other, snake1@.body, snake2@.body, avoid),
                forall|other: Position|
                    other@.in_grid(grid_width as int, grid_height as int) && other.y == y
                        && other.x < x ==> !#[trigger] is_free(
                        other,
                        snake1@.body,
                        snake2@.body,
                        avoid,
                    ),
            decreases grid_width - x,
        {
            let cell = Position { x, y };
            if cell_is_free(cell, snake1, snake2, avoid) {
                return Some(cell);
            }
            x += 1;
        }
        y += 1;
    }
    None
}

/// Tries up to `SAMPLE_BUDGET` random cells and returns the first that is
/// free. On a grid whose cells are all free the first try cannot miss.
fn sample_free_cell(
    snake1: &Snake,
    snake2: &Snake,
    avoid: Option<Position>,
    grid_width: i32,
    grid_height: i32,
) -> (found: Option<Position>)
    requires
        grid_width > 0,
        grid_height > 0,
    ensures
        found matches Some(cell) ==> cell@.in_grid(grid_width as int, grid_height as int)
            && is_free(cell, snake1@.body, snake2@.body, avoid),
        grid_is_free(snake1@.body, snake2@.body, avoid, grid_width as int, grid_height as int)
            ==> found is Some,
{
    let mut left: u32 = SAMPLE_BUDGET;
    while left > 0
        invariant
            grid_width > 0,
            grid_height > 0,
            grid_is_free(snake1@.body, snake2@.body, avoid, grid_width as int, grid_height as int)
                ==> left == SAMPLE_BUDGET,
        decreases left,
    {
        let cell = random_cell(grid_width, grid_height);
        if cell_is_free(cell, snake1, snake2, avoid) {
            return Some(cell);
        }
        left -= 1;
    }
    None
}

/// A free cell of the grid. Random cells are tried first; when none of them is
/// free the grid is searched in order, so a free cell is found whenever there
/// is one.
pub fn find_free_cell(
    snake1: &Snake,
    snake2: &Snake,
    avoid: Option<Position>,
    grid_width: i32,
    grid_height: i32,
) -> (found: Option<Position>)
    requires
        grid_width > 0,
        grid_height > 0,
    ensures
        found is Some <==> has_free_cell(
            snake1@.body,
            snake2@.body,
            avoid,
            grid_width as int,
            grid_height as int,
        ),
        found matches Some(cell) ==> cell@.in_grid(grid_width as int, grid_height as int)
            && is_free(cell, snake1@.body, snake2@.body, avoid),
{
    match sample_free_cell(snake1, snake2, avoid, grid_width, grid_height) {
        Some(cell) => Some(cell),
        None => first_free_cell(snake1, snake2, avoid, grid_width, grid_height),
    }
}

/// The food: one cell that a snake eats by moving its head onto it.
#[derive(Clone, Copy, Debug, PartialEq, Eq, Structural)]
pub struct Food {
    pub position: Position,
}

impl Food {
    /// Food on the cell `(x, y)`.
    pub fn new(x: i32, y: i32) -> (food: Food)
        ensures
            food.position == (Position { x, y }),
    {
        Food { position: Position { x, y } }
    }

    /// Moves the food to a cell of the grid that lies on neither snake. When
    /// the snakes cover the whole grid the food stays where it is and the
    /// result is `NoFreeCell`.
    pub fn relocate(
        &mut self,
        snake1: &Snake,
        snake2: &Snake,
        grid_width: i32,
        grid_height: i32,
    ) -> (moved: Result<(), NoFreeCell>)
        requires
            grid_width > 0,
            grid_height > 0,
        ensures
            moved is Ok <==> has_free_cell(
                snake1@.body,
                snake2@.body,
                None,
                grid_width as int,
                grid_height as int,
            ),
            moved is Ok ==> final(self).position@.in_grid(grid_width as int, grid_height as int)
                && is_free(final(self).position, snake1@.body, snake2@.body, None),
            moved is Err ==> final(self).position == old(self).position,
    {
        match find_free_cell(snake1, snake2, None, grid_width, grid_height) {
            Some(cell) => {
                self.position = cell;
                Ok(())
            },
            None => Err(NoFreeCell),
        }
    }
}

/// A rock: one cell that ends the game for the snake whose head lands on it.
#[derive(Clone, Copy, Debug, PartialEq, Eq, Structural)]
pub struct Rock {
    pub position: Position,
}

impl Rock {
    /// A rock on a cell of the grid that lies on neither snake and not on the
    /// food, or `NoFreeCell` when the grid has no such cell.
    pub fn new_random(
        grid_width: i32,
        grid_height: i32,
        snake1: &Snake,
        snake2: &Snake,
        food: &Food,
    ) -> (placed: Result<Rock, NoFreeCell>)
        requires
            grid_width > 0,
            grid_height > 0,
        ensures
            placed is Ok <==> has_free_cell(
                snake1@.body,
                snake2@.body,
                Some(food.position),
                grid_width as int,
                grid_height as int,
            ),
            placed matches Ok(rock) ==> rock.position@.in_grid(
                grid_width as int,
                grid_height as int,
            ) && is_free(rock.position, snake1@.body, snake2@.body, Some(food.position)),
    {
        match find_free_cell(snake1, snake2, Some(food.position), grid_width, grid_height) {
            Some(cell) => Ok(Rock { position: cell }),
            None => Err(NoFreeCell),
        }
    }
}

/// Whether every cell of the grid is free.
pub open spec fn grid_is_free(
    body1: Seq<Position>,
    body2: Seq<Position>,
    avoid: Option<Position>,
    width: int,
    height: int,
) -> bool {
    forall|cell: Position|
        cell@.in_grid(width, height) ==> #[trigger] is_free(cell, body1, body2, avoid)
}

} // verus!
