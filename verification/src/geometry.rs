use vstd::prelude::*;
use vstd::arithmetic::div_mod::lemma_fundamental_div_mod;
use vstd::arithmetic::div_mod::lemma_fundamental_div_mod_converse;
use vstd::arithmetic::div_mod::lemma_mod_pos_bound;

verus! {

/// A point of the unbounded integer plane: the mathematical value that a
/// [`Position`] stands for.
pub struct Point {
    pub x: int,
    pub y: int,
}

/// One of the four headings a snake can have.
#[derive(Clone, Copy, Debug, PartialEq, Eq, Structural)]
pub enum Direction {
    Up,
    Down,
    Left,
    Right,
}

impl Direction {
    /// The heading that points the other way.
    #[verifier::allow_in_spec]
    pub fn opposite(self) -> Direction
        returns
            (match self {
                Direction::Up => Direction::Down,
                Direction::Down => Direction::Up,
                Direction::Left => Direction::Right,
                Direction::Right => Direction::Left,
            }),
    {
        match self {
            Direction::Up => Direction::Down,
            Direction::Down => Direction::Up,
            Direction::Left => Direction::Right,
            Direction::Right => Direction::Left,
        }
    }
}

/// A grid cell, addressed by column `x` and row `y`. Rows grow downwards.
#[derive(Clone, Copy, Debug, PartialEq, Eq, Structural)]
pub struct Position {
    pub x: i32,
    pub y: i32,
}

impl View for Position {
    type V = Point;

    open spec fn view(&self) -> Point {
        Point { x: self.x as int, y: self.y as int }
    }
}

/// The signal that a cell lies outside a grid that does not wrap.
#[derive(Clone, Copy, Debug, PartialEq, Eq, Structural)]
pub struct OutOfBounds;

/// The points of an optional portal pair.
pub open spec fn portal_points(portals: Option<(Position, Position)>) -> Option<(Point, Point)> {
    match portals {
        Some((a, b)) => Some((a@, b@)),
        None => None,
    }
}

impl Point {
    /// The neighbouring point one step away in `direction`.
    pub open spec fn advanced(self, direction: Direction) -> Point {
        match direction {
            Direction::Up => Point { x: self.x, y: self.y - 1 },
            Direction::Down => Point { x: self.x, y: self.y + 1 },
            Direction::Left => Point { x: self.x - 1, y: self.y },
            Direction::Right => Point { x: self.x + 1, y: self.y },
        }
    }

    /// Where a head that arrives at this point comes out: at the other end of
    /// the portal pair if the point is one of its ends, else at the point itself.
    /// The first end is tested first.
    pub open spec fn through_portal(self, portals: Option<(Point, Point)>) -> Point {
        match portals {
            Some((a, b)) => if self == a {
                b
            } else if self == b {
                a
            } else {
                self
            },
            None => self,
        }
    }

    /// Whether the point is a cell of the grid `[0, width) x [0, height)`.
    pub open spec fn in_grid(self, width: int, height: int) -> bool {
        0 <= self.x < width && 0 <= self.y < height
    }

    /// The cell that the point falls on when the grid wraps at its edges.
    pub open spec fn wrapped(self, width: int, height: int) -> Point {
        Point { x: (self.x + width) % width, y: (self.y + height) % height }
    }

    /// The cell that a head at this point ends up on, or `OutOfBounds` when the
    /// grid does not wrap and the point is outside it.
    pub open spec fn resolved(self, width: int, height: int, wrap: bool) -> Result<
        Point,
        OutOfBounds,
    > {
        if wrap {
            Ok(self.wrapped(width, height))
        } else if self.in_grid(width, height) {
            Ok(self)
        } else {
            Err(OutOfBounds)
        }
    }

    /// Whether both coordinates fit the machine integers of a [`Position`].
    pub open spec fn representable(self) -> bool {
        i32::MIN <= self.x <= i32::MAX && i32::MIN <= self.y <= i32::MAX
    }

    /// The position with these coordinates. It stands for the point itself
    /// when the point is representable.
    pub open spec fn position(self) -> Position {
        Position { x: self.x as i32, y: self.y as i32 }
    }

    /// Whether a step in any direction stays representable.
    pub open spec fn steppable(self) -> bool {
        i32::MIN < self.x < i32::MAX && i32::MIN < self.y < i32::MAX
    }
}

impl Position {
    /// The cell in column `x` and row `y`.
    pub fn new(x: i32, y: i32) -> (p: Position)
        ensures
            p == (Position { x, y }),
    {
        Position { x, y }
    }
}

/// Moves one cell in `direction`: up lowers `y`, down raises it, left lowers
/// `x`, right raises it.
pub fn advance(position: Position, direction: Direction) -> (next: Position)
    requires
        position@.advanced(direction).representable(),
    ensures
        next@ == position@.advanced(direction),
{
    match direction {
        Direction::Up => Position { x: position.x, y: position.y - 1 },
        Direction::Down => Position { x: position.x, y: position.y + 1 },
        Direction::Left => Position { x: position.x - 1, y: position.y },
        Direction::Right => Position { x: position.x + 1, y: position.y },
    }
}

/// Sends a position that is one end of the portal pair to the other end and
/// leaves every other position where it is.
pub fn apply_portal(position: Position, portals: &Option<(Position, Position)>) -> (out: Position)
    ensures
        out@ == position@.through_portal(portal_points(*portals)),
{
    match portals {
        Some((a, b)) => {
            if position == *a {
                *b
            } else if position == *b {
                *a
            } else {
                position
            }
        },
        None => position,
    }
}

/// Folds one coordinate into `[0, size)`, whatever its sign.
pub fn wrap_coordinate(value: i32, size: i32) -> (folded: i32)
    requires
        size > 0,
    ensures
        folded == (value + size) % (size as int),
        0 <= folded < size,
{
    let rem: i32 = value % size;
    let folded: i32 = if rem < 0 {
        rem + size
    } else {
        rem
    };
    proof {
        let v = value as int;
        let s = size as int;
        if v >= 0 {
            lemma_fundamental_div_mod(v, s);
            lemma_mod_pos_bound(v, s);
            assert(v + s == (v / s + 1) * s + v % s) by (nonlinear_arith)
                requires
                    v == s * (v / s) + v % s,
            ;
            lemma_fundamental_div_mod_converse(v + s, s, v / s + 1, v % s);
        } else {
            let k = (-v) / s;
            let t = (-v) % s;
            lemma_fundamental_div_mod(-v, s);
            lemma_mod_pos_bound(-v, s);
            assert(rem == -t);
            if t == 0 {
                assert(v + s == (1 - k) * s + 0) by (nonlinear_arith)
                    requires
                        -v == s * k + t,
                        t == 0,
                ;
                lemma_fundamental_div_mod_converse(v + s, s, 1 - k, 0);
            } else {
                assert(v + s == (-k) * s + (s - t)) by (nonlinear_arith)
                    requires
                        -v == s * k + t,
                ;
                lemma_fundamental_div_mod_converse(v + s, s, -k, s - t);
            }
        }
    }
    folded
}

/// Brings a position onto the grid. With `wrap` the position is folded into
/// the grid, so the result is always a cell. Without it a position on the grid
/// is returned as it is, and one outside it is `OutOfBounds`.
pub fn resolve_bounds(position: Position, width: i32, height: i32, wrap: bool) -> (r: Result<
    Position,
    OutOfBounds,
>)
    requires
        width > 0,
        height > 0,
    ensures
        match position@.resolved(width as int, height as int, wrap) {
            Ok(point) => r matches Ok(cell) && cell@ == point,
            Err(_) => r is Err,
        },
        r matches Ok(cell) ==> cell@.in_grid(width as int, height as int),
{
    if wrap {
        Ok(Position { x: wrap_coordinate(position.x, width), y: wrap_coordinate(position.y, height) })
    } else if position.x < 0 || position.x >= width || position.y < 0 || position.y >= height {
        Err(OutOfBounds)
    } else {
        Ok(position)
    }
}

/// A step followed by a step in the opposite direction leads back to the start.
pub proof fn lemma_advance_and_back(p: Point, d: Direction)
    ensures
        p.advanced(d).advanced(d.opposite()) == p,
{
}

/// On a grid that wraps, every point resolves to a cell of the grid; in
/// particular the neighbour of a cell does.
pub proof fn lemma_wrap_stays_on_grid(p: Point, d: Direction, width: int, height: int)
    requires
        width > 0,
        height > 0,
    ensures
        p.resolved(width, height, true) matches Ok(cell) && cell.in_grid(width, height),
        p.advanced(d).resolved(width, height, true) matches Ok(cell) && cell.in_grid(
            width,
            height,
        ),
{
}

/// A portal pair moves nothing but its two ends.
pub proof fn lemma_portal_keeps_other_points(p: Point, portals: Option<(Point, Point)>)
    requires
        portals matches Some((a, b)) ==> p != a && p != b,
    ensures
        p.through_portal(portals) == p,
{
}

} // verus!
