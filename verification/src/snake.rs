use vstd::prelude::*;
use std::collections::VecDeque;
use crate::geometry::advance;
use crate::geometry::apply_portal;
use crate::geometry::portal_points;
use crate::geometry::resolve_bounds;
use crate::geometry::Direction;
use crate::geometry::OutOfBounds;
use crate::geometry::Point;
use crate::geometry::Position;

verus! {

/// The signal that a snake could not move because its next cell lies outside a
/// grid that does not wrap. The snake that gives it has lost.
#[derive(Clone, Copy, Debug, PartialEq, Eq, Structural)]
pub struct Terminated;

/// What a snake is: its cells from head to tail, and the way it faces.
pub struct SnakeView {
    pub body: Seq<Position>,
    pub direction: Direction,
}

/// A body that a snake can have: it has a head, and the head can take a step
/// in every direction without leaving the range of the coordinates.
pub open spec fn valid_body(body: Seq<Position>) -> bool {
    body.len() >= 1 && body[0]@.steppable()
}

/// The three cells of a new snake: the head on `start`, the rest in the same
/// row to its left.
pub open spec fn initial_body(start: Position) -> Seq<Position> {
    seq![
        start,
        Position { x: (start.x - 1) as i32, y: start.y },
        Position { x: (start.x - 2) as i32, y: start.y },
    ]
}

/// The body after a move onto `head`: the new head in front, the last cell gone.
pub open spec fn shifted(body: Seq<Position>, head: Position) -> Seq<Position> {
    seq![head] + body.drop_last()
}

/// The body after growing: the last cell once more at the end.
pub open spec fn grown(body: Seq<Position>) -> Seq<Position> {
    body.push(body.last())
}

/// Where the head of `snake` goes next: one step ahead, through the portal if
/// that cell is one of its ends, and then onto the grid.
pub open spec fn next_head(
    snake: SnakeView,
    width: int,
    height: int,
    wrap: bool,
    portals: Option<(Position, Position)>,
) -> Result<Point, OutOfBounds> {
    snake.body[0]@.advanced(snake.direction).through_portal(portal_points(portals)).resolved(
        width,
        height,
        wrap,
    )
}

/// The snake after it tried to move: on its next cell, or as it was when that
/// cell is out of bounds.
pub open spec fn after_move(
    snake: SnakeView,
    width: int,
    height: int,
    wrap: bool,
    portals: Option<(Position, Position)>,
) -> SnakeView {
    match next_head(snake, width, height, wrap, portals) {
        Ok(point) => SnakeView { body: shifted(snake.body, point.position()), ..snake },
        Err(_) => snake,
    }
}

/// Whether the head lies on a later cell of the body.
pub open spec fn bites_itself(body: Seq<Position>) -> bool {
    exists|i: int| 1 <= i < body.len() && #[trigger] body[i] == body[0]
}

/// A snake: its cells in order, head first, and its heading.
pub struct Snake {
    body: VecDeque<Position>,
    direction: Direction,
}

impl View for Snake {
    type V = SnakeView;

    closed spec fn view(&self) -> SnakeView {
        SnakeView { body: self.body@, direction: self.direction }
    }
}

impl Snake {
    /// The invariant of every snake that this library hands out.
    pub open spec fn wf(&self) -> bool {
        valid_body(self@.body)
    }

    /// A snake of three cells that faces right, with its head on `start_pos`.
    pub fn new(start_pos: Position) -> (snake: Snake)
        requires
            i32::MIN + 2 <= start_pos.x < i32::MAX,
            i32::MIN < start_pos.y < i32::MAX,
        ensures
            snake.wf(),
            snake@ == (SnakeView { body: initial_body(start_pos), direction: Direction::Right }),
    {
        let mut body: VecDeque<Position> = VecDeque::new();
        body.push_back(start_pos);
        body.push_back(Position { x: start_pos.x - 1, y: start_pos.y });
        body.push_back(Position { x: start_pos.x - 2, y: start_pos.y });
        assert(body@ =~= initial_body(start_pos));
        Snake { body, direction: Direction::Right }
    }

    /// The first cell of the body.
    pub fn head(&self) -> (head: Position)
        requires
            self.wf(),
        ensures
            head == self@.body[0],
    {
        self.body[0]
    }

    /// The number of cells.
    pub fn len(&self) -> (len: usize)
        ensures
            len == self@.body.len(),
    {
        self.body.len()
    }

    /// The way the snake faces.
    pub fn direction(&self) -> (direction: Direction)
        ensures
            direction == self@.direction,
    {
        self.direction
    }

    /// The cells from head to tail.
    pub fn body(&self) -> (cells: Vec<Position>)
        ensures
            cells@ == self@.body,
    {
        let mut cells: Vec<Position> = Vec::new();
        let mut i: usize = 0;
        while i < self.body.len()
            invariant
                i <= self.body@.len(),
                cells@ == self.body@.take(i as int),
            decreases self.body@.len() - i,
        {
            cells.push(self.body[i]);
            assert(self.body@.take(i + 1) =~= self.body@.take(i as int).push(self.body@[i as int]));
            i += 1;
        }
        assert(self.body@.take(i as int) =~= self.body@);
        cells
    }

    /// Whether `cell` is one of the snake's cells, the head included.
    pub fn contains(&self, cell: Position) -> (found: bool)
        ensures
            found == self@.body.contains(cell),
    {
        let mut i: usize = 0;
        while i < self.body.len()
            invariant
                i <= self.body@.len(),
                forall|j: int| 0 <= j < i ==> self.body@[j] != cell,
            decreases self.body@.len() - i,
        {
            if self.body[i] == cell {
                return true;
            }
            i += 1;
        }
        false
    }

    /// Moves one cell ahead. The new head is the cell in front of the old one,
    /// taken through the portal and brought onto the grid. If that cell is
    /// outside a grid that does not wrap, the snake stays as it is and the
    /// move is `Terminated`. Otherwise the new head goes in front and the last
    /// cell is dropped, so the length stays.
    pub fn move_forward(
        &mut self,
        grid_width: i32,
        grid_height: i32,
        wrap_around: bool,
        portals: &Option<(Position, Position)>,
    ) -> (moved: Result<(), Terminated>)
        requires
            old(self).wf(),
            grid_width > 0,
            grid_height > 0,
        ensures
            final(self).wf(),
            moved is Ok <==> next_head(
                old(self)@,
                grid_width as int,
                grid_height as int,
                wrap_around,
                *portals,
            ) is Ok,
            final(self)@ == after_move(
                old(self)@,
                grid_width as int,
                grid_height as int,
                wrap_around,
                *portals,
            ),
    {
        let head = self.body[0];
        let ahead = apply_portal(advance(head, self.direction), portals);
        match resolve_bounds(ahead, grid_width, grid_height, wrap_around) {
            Ok(new_head) => {
                self.body.push_front(new_head);
                self.body.pop_back();
                assert(new_head == new_head@.position());
                assert(self.body@ =~= shifted(old(self).body@, new_head));
                Ok(())
            },
            Err(_) => Err(Terminated),
        }
    }

    /// Adds one cell at the end, on the cell where the tail is.
    pub fn grow(&mut self)
        requires
            old(self).wf(),
        ensures
            final(self).wf(),
            final(self)@ == (SnakeView { body: grown(old(self)@.body), ..old(self)@ }),
    {
        let tail = self.body[self.body.len() - 1];
        self.body.push_back(tail);
    }

    /// Turns the snake to face `direction`, whatever it faced before.
    pub fn change_direction(&mut self, direction: Direction)
        ensures
            final(self)@ == (SnakeView { direction, ..old(self)@ }),
    {
        self.direction = direction;
    }

    /// Whether the head lies on another cell of the snake's own body.
    pub fn check_collision(&self) -> (hit: bool)
        requires
            self.wf(),
        ensures
            hit == bites_itself(self@.body),
    {
        let head = self.body[0];
        let mut i: usize = 1;
        while i < self.body.len()
            invariant
                1 <= i <= self.body@.len(),
                head == self.body@[0],
                forall|j: int| 1 <= j < i ==> self.body@[j] != head,
            decreases self.body@.len() - i,
        {
            if self.body[i] == head {
                return true;
            }
            i += 1;
        }
        false
    }
}

/// A snake whose next cell lies outside a grid that does not wrap cannot
/// move: the move is refused and the snake stays exactly as it was.
pub proof fn lemma_leaving_the_grid_terminates(
    snake: SnakeView,
    width: int,
    height: int,
    portals: Option<(Position, Position)>,
)
    requires
        !snake.body[0]@.advanced(snake.direction).through_portal(portal_points(portals)).in_grid(
            width,
            height,
        ),
    ensures
        next_head(snake, width, height, false, portals) is Err,
        after_move(snake, width, height, false, portals) == snake,
{
}

/// A move keeps the length of a snake, whether it succeeds or not, and a
/// snake that grows and then moves is one cell longer than it was.
pub proof fn lemma_grow_then_move_adds_one_cell(
    snake: SnakeView,
    width: int,
    height: int,
    wrap: bool,
    portals: Option<(Position, Position)>,
)
    requires
        snake.body.len() >= 1,
    ensures
        after_move(snake, width, height, wrap, portals).body.len() == snake.body.len(),
        after_move(
            SnakeView { body: grown(snake.body), ..snake },
            width,
            height,
            wrap,
            portals,
        ).body.len() == snake.body.len() + 1,
{
}

} // verus!
