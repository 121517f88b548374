use vstd::prelude::*;
use vstd::pervasive::unreached;
use crate::geometry::Direction;
use crate::geometry::Position;
use crate::placement::has_free_cell;
use crate::placement::is_free;
use crate::placement::random_cell;
use crate::placement::Food;
use crate::placement::NoFreeCell;
use crate::placement::Rock;
use crate::snake::after_move;
use crate::snake::grown;
use crate::snake::initial_body;
use crate::snake::next_head;
use crate::snake::valid_body;
use crate::snake::Snake;
use crate::snake::SnakeView;

verus! {

/// How a game ended.
#[derive(Clone, Copy, Debug, PartialEq, Eq, Structural)]
pub enum Outcome {
    Player1Wins,
    Player2Wins,
    Draw,
}

/// One of the two players. Player one steers the first snake.
#[derive(Clone, Copy, Debug, PartialEq, Eq, Structural)]
pub enum Player {
    One,
    Two,
}

/// The time between two ticks, in milliseconds.
pub const TICK_INTERVAL_MS: u128 = 150;

/// What a game is at one moment.
pub struct GameView {
    pub snake1: SnakeView,
    pub snake2: SnakeView,
    pub food: Position,
    pub rocks: Seq<Rock>,
    pub portals: Option<(Position, Position)>,
    pub game_over: bool,
    pub winner: Option<Outcome>,
}

/// The verdict of the moves: a snake whose next cell is out of bounds loses.
/// The second snake is judged last, so its failure decides when both fail.
pub open spec fn bounds_verdict(game: GameView, width: int, height: int, wrap: bool) -> Option<
    Outcome,
> {
    if next_head(game.snake2, width, height, wrap, game.portals) is Err {
        Some(Outcome::Player1Wins)
    } else if next_head(game.snake1, width, height, wrap, game.portals) is Err {
        Some(Outcome::Player2Wins)
    } else {
        None
    }
}

/// The game after both snakes tried to move.
pub open spec fn after_moves(game: GameView, width: int, height: int, wrap: bool) -> GameView {
    let verdict = bounds_verdict(game, width, height, wrap);
    GameView {
        snake1: after_move(game.snake1, width, height, wrap, game.portals),
        snake2: after_move(game.snake2, width, height, wrap, game.portals),
        game_over: game.game_over || verdict is Some,
        winner: if verdict is Some {
            verdict
        } else {
            game.winner
        },
        ..game
    }
}

/// Whether the grid has a cell for the food, off both snakes.
pub open spec fn has_room(game: GameView, width: int, height: int) -> bool {
    has_free_cell(game.snake1.body, game.snake2.body, None, width, height)
}

/// Whether a head lies on the food, so that the food has to move.
pub open spec fn food_is_reached(game: GameView) -> bool {
    game.snake1.body[0] == game.food || game.snake2.body[0] == game.food
}

/// Whether the first snake eats: its head lies on the food.
pub open spec fn first_eats(game: GameView) -> bool {
    game.snake1.body[0] == game.food
}

/// Whether the second snake eats: its head lies on the food, and the first
/// snake has not just eaten that food and had it moved away.
pub open spec fn second_eats(game: GameView, width: int, height: int) -> bool {
    game.snake2.body[0] == game.food && !(first_eats(game) && has_room(game, width, height))
}

/// Where the food may be after the snakes were fed: on a free cell of the grid
/// if a head reached it and there is room, else where it was.
pub open spec fn food_settled(game: GameView, width: int, height: int, food: Position) -> bool {
    if food_is_reached(game) && has_room(game, width, height) {
        food@.in_grid(width, height) && is_free(food, game.snake1.body, game.snake2.body, None)
    } else {
        food == game.food
    }
}

/// The game after the snakes were fed, with the food on `food`.
pub open spec fn after_feeding(game: GameView, width: int, height: int, food: Position) -> GameView {
    GameView {
        snake1: if first_eats(game) {
            SnakeView { body: grown(game.snake1.body), ..game.snake1 }
        } else {
            game.snake1
        },
        snake2: if second_eats(game, width, height) {
            SnakeView { body: grown(game.snake2.body), ..game.snake2 }
        } else {
            game.snake2
        },
        food,
        ..game
    }
}

/// The verdict between the snakes. Three tests are made in turn, and each one
/// that holds replaces the verdict before it: the first head on the second
/// snake lets player one win, the second head on the first snake lets player
/// two win, and two heads on one cell are a draw.
pub open spec fn snake_verdict(body1: Seq<Position>, body2: Seq<Position>) -> Option<Outcome> {
    if body1[0] == body2[0] {
        Some(Outcome::Draw)
    } else if body1.contains(body2[0]) {
        Some(Outcome::Player2Wins)
    } else if body2.contains(body1[0]) {
        Some(Outcome::Player1Wins)
    } else {
        None
    }
}

/// The verdict of the rocks. The rocks are tested in order, each first for the
/// first head, which lets player two win, then for the second head, which
/// lets player one win; the last test that holds decides.
pub open spec fn rock_verdict(head1: Position, head2: Position, rocks: Seq<Rock>) -> Option<
    Outcome,
>
    decreases rocks.len(),
{
    if rocks.len() == 0 {
        None
    } else if rocks.last().position == head2 {
        Some(Outcome::Player1Wins)
    } else if rocks.last().position == head1 {
        Some(Outcome::Player2Wins)
    } else {
        rock_verdict(head1, head2, rocks.drop_last())
    }
}

/// The verdict of all collisions: that of the rocks if there is one, else that
/// between the snakes.
pub open spec fn collision_verdict(
    body1: Seq<Position>,
    body2: Seq<Position>,
    rocks: Seq<Rock>,
) -> Option<Outcome> {
    match rock_verdict(body1[0], body2[0], rocks) {
        Some(outcome) => Some(outcome),
        None => snake_verdict(body1, body2),
    }
}

/// The game after its collisions were judged: over, with the verdict as the
/// winner, if there is a verdict, else as it was.
pub open spec fn after_collisions(game: GameView) -> GameView {
    match collision_verdict(game.snake1.body, game.snake2.body, game.rocks) {
        Some(outcome) => GameView { game_over: true, winner: Some(outcome), ..game },
        None => game,
    }
}

/// The game one tick later, with the food on `food`. A game that is over stays
/// as it is. Otherwise both snakes try to move, then they are fed, and then,
/// unless a move has ended the game, the collisions are judged.
pub open spec fn after_tick(
    game: GameView,
    width: int,
    height: int,
    wrap: bool,
    food: Position,
) -> GameView {
    if game.game_over {
        game
    } else {
        let moved = after_moves(game, width, height, wrap);
        let fed = after_feeding(moved, width, height, food);
        if moved.game_over {
            fed
        } else {
            after_collisions(fed)
        }
    }
}

/// Whether a snake that faces `current` may be told to face `requested`:
/// every turn but the one straight back.
pub fn turn_allowed(current: Direction, requested: Direction) -> (allowed: bool)
    ensures
        allowed == (requested != current.opposite()),
{
    match (current, requested) {
        (Direction::Up, Direction::Down) => false,
        (Direction::Down, Direction::Up) => false,
        (Direction::Left, Direction::Right) => false,
        (Direction::Right, Direction::Left) => false,
        _ => true,
    }
}

/// Whether the next tick is due: more than `TICK_INTERVAL_MS` have passed
/// since the last one.
pub fn tick_due(elapsed_ms: u128) -> (due: bool)
    ensures
        due == (elapsed_ms > TICK_INTERVAL_MS),
{
    elapsed_ms > TICK_INTERVAL_MS
}

/// A game of two snakes on one grid.
pub struct GameState {
    snake1: Snake,
    snake2: Snake,
    food: Food,
    rocks: Vec<Rock>,
    portal_positions: Option<(Position, Position)>,
    game_over: bool,
    winner: Option<Outcome>,
}

impl View for GameState {
    type V = GameView;

    closed spec fn view(&self) -> GameView {
        GameView {
            snake1: self.snake1@,
            snake2: self.snake2@,
            food: self.food.position,
            rocks: self.rocks@,
            portals: self.portal_positions,
            game_over: self.game_over,
            winner: self.winner,
        }
    }
}

impl GameState {
    /// The invariant of every game: both snakes are valid, and the game is
    /// over exactly when it has a winner.
    pub open spec fn wf(&self) -> bool {
        &&& valid_body(self@.snake1.body)
        &&& valid_body(self@.snake2.body)
        &&& self@.game_over <==> self@.winner is Some
    }

    /// A new game on a grid of the given size: the first snake with its head
    /// on `(5, 5)`, the second on `(15, 15)`, the food on `(10, 10)`,
    /// `num_rocks` rocks on random cells of the grid off the snakes and the
    /// food, and, if asked for, a portal pair on two random cells of the grid.
    pub fn new(grid_width: i32, grid_height: i32, enable_portals: bool, num_rocks: usize) -> (game:
        GameState)
        requires
            grid_width > 0,
            grid_height > 0,
        ensures
            game.wf(),
            game@.snake1 == (SnakeView {
                body: initial_body(Position { x: 5, y: 5 }),
                direction: Direction::Right,
            }),
            game@.snake2 == (SnakeView {
                body: initial_body(Position { x: 15, y: 15 }),
                direction: Direction::Right,
            }),
            game@.food == (Position { x: 10, y: 10 }),
            game@.rocks.len() == num_rocks,
            forall|i: int|
                0 <= i < game@.rocks.len() ==> {
                    &&& (#[trigger] game@.rocks[i]).position@.in_grid(
                        grid_width as int,
                        grid_height as int,
                    )
                    &&& is_free(
                        game@.rocks[i].position,
                        game@.snake1.body,
                        game@.snake2.body,
                        Some(game@.food),
                    )
                },
            enable_portals ==> (game@.portals matches Some((a, b)) && a@.in_grid(
                grid_width as int,
                grid_height as int,
            ) && b@.in_grid(grid_width as int, grid_height as int)),
            !enable_portals ==> game@.portals is None,
            !game@.game_over,
            game@.winner is None,
    {
        let snake1 = Snake::new(Position { x: 5, y: 5 });
        let snake2 = Snake::new(Position { x: 15, y: 15 });
        let food = Food::new(10, 10);
        proof {
            let corner = Position { x: 0, y: 0 };
            assert(corner@.in_grid(grid_width as int, grid_height as int));
            assert(is_free(corner, snake1@.body, snake2@.body, Some(food.position)));
        }
        let mut rocks: Vec<Rock> = Vec::new();
        while rocks.len() < num_rocks
            invariant
                grid_width > 0,
                grid_height > 0,
                rocks@.len() <= num_rocks,
                has_free_cell(
                    snake1@.body,
                    snake2@.body,
                    Some(food.position),
                    grid_width as int,
                    grid_height as int,
                ),
                forall|i: int|
                    0 <= i < rocks@.len() ==> {
                        &&& (#[trigger] rocks@[i]).position@.in_grid(
                            grid_width as int,
                            grid_height as int,
                        )
                        &&& is_free(
                            rocks@[i].position,
                            snake1@.body,
                            snake2@.body,
                            Some(food.position),
                        )
                    },
            decreases num_rocks - rocks@.len(),
        {
            let rock = match Rock::new_random(grid_width, grid_height, &snake1, &snake2, &food) {
                Ok(rock) => rock,
                Err(_) => unreached(),
            };
            rocks.push(rock);
        }
        let portal_positions = if enable_portals {
            let portal_a = random_cell(grid_width, grid_height);
            let portal_b = random_cell(grid_width, grid_height);
            Some((portal_a, portal_b))
        } else {
            None
        };
        GameState { snake1, snake2, food, rocks, portal_positions, game_over: false, winner: None }
    }

    /// A game that has just begun, made of the given parts.
    pub fn from_parts(
        snake1: Snake,
        snake2: Snake,
        food: Food,
        rocks: Vec<Rock>,
        portals: Option<(Position, Position)>,
    ) -> (game: GameState)
        requires
            snake1.wf(),
            snake2.wf(),
        ensures
            game.wf(),
            game@ == (GameView {
                snake1: snake1@,
                snake2: snake2@,
                food: food.position,
                rocks: rocks@,
                portals,
                game_over: false,
                winner: None,
            }),
    {
        GameState {
            snake1,
            snake2,
            food,
            rocks,
            portal_positions: portals,
            game_over: false,
            winner: None,
        }
    }

    /// The first snake.
    pub fn snake1(&self) -> (snake: &Snake)
        ensures
            snake@ == self@.snake1,
    {
        &self.snake1
    }

    /// The second snake.
    pub fn snake2(&self) -> (snake: &Snake)
        ensures
            snake@ == self@.snake2,
    {
        &self.snake2
    }

    /// The cell of the food.
    pub fn food(&self) -> (food: Position)
        ensures
            food == self@.food,
    {
        self.food.position
    }

    /// The rocks, in the order in which they are judged.
    pub fn rocks(&self) -> (rocks: &Vec<Rock>)
        ensures
            rocks@ == self@.rocks,
    {
        &self.rocks
    }

    /// The two ends of the portal, if the game has one.
    pub fn portals(&self) -> (portals: Option<(Position, Position)>)
        ensures
            portals == self@.portals,
    {
        self.portal_positions
    }

    /// Whether the game is over.
    pub fn is_over(&self) -> (over: bool)
        ensures
            over == self@.game_over,
    {
        self.game_over
    }

    /// How the game ended, once it is over.
    pub fn winner(&self) -> (winner: Option<Outcome>)
        ensures
            winner == self@.winner,
    {
        self.winner
    }

    /// Turns the snake of `player` to face `direction`, whatever it faced
    /// before.
    pub fn change_direction(&mut self, player: Player, direction: Direction)
        ensures
            final(self).wf() == old(self).wf(),
            final(self)@ == (match player {
                Player::One => GameView {
                    snake1: SnakeView { direction, ..old(self)@.snake1 },
                    ..old(self)@
                },
                Player::Two => GameView {
                    snake2: SnakeView { direction, ..old(self)@.snake2 },
                    ..old(self)@
                },
            }),
    {
        match player {
            Player::One => self.snake1.change_direction(direction),
            Player::Two => self.snake2.change_direction(direction),
        }
    }

    /// Takes a command of `player`: the snake turns to face `requested`
    /// unless that is straight back from where it faces, in which case it
    /// keeps its heading. Returns whether the snake took the command.
    pub fn steer(&mut self, player: Player, requested: Direction) -> (taken: bool)
        ensures
            final(self).wf() == old(self).wf(),
            taken == (requested != (match player {
                Player::One => old(self)@.snake1.direction,
                Player::Two => old(self)@.snake2.direction,
            }).opposite()),
            final(self)@ == (if !taken {
                old(self)@
            } else {
                match player {
                    Player::One => GameView {
                        snake1: SnakeView { direction: requested, ..old(self)@.snake1 },
                        ..old(self)@
                    },
                    Player::Two => GameView {
                        snake2: SnakeView { direction: requested, ..old(self)@.snake2 },
                        ..old(self)@
                    },
                }
            }),
    {
        let current = match player {
            Player::One => self.snake1.direction(),
            Player::Two => self.snake2.direction(),
        };
        if turn_allowed(current, requested) {
            self.change_direction(player, requested);
            true
        } else {
            false
        }
    }

    /// Lets both snakes try to move, the first one first. A snake whose next
    /// cell is out of bounds stays where it is and loses the game.
    fn move_snakes(&mut self, grid_width: i32, grid_height: i32, wrap_around: bool)
        requires
            old(self).wf(),
            grid_width > 0,
            grid_height > 0,
        ensures
            final(self).wf(),
            final(self)@ == after_moves(
                old(self)@,
                grid_width as int,
                grid_height as int,
                wrap_around,
            ),
    {
        if self.snake1.move_forward(
            grid_width,
            grid_height,
            wrap_around,
            &self.portal_positions,
        ).is_err() {
            self.game_over = true;
            self.winner = Some(Outcome::Player2Wins);
        }
        if self.snake2.move_forward(
            grid_width,
            grid_height,
            wrap_around,
            &self.portal_positions,
        ).is_err() {
            self.game_over = true;
            self.winner = Some(Outcome::Player1Wins);
        }
    }

    /// Feeds the snakes, the first one first: a snake whose head lies on the
    /// food grows, and the food moves to a free cell. When the snakes cover
    /// the grid the food stays and the result is `NoFreeCell`.
    fn feed(&mut self, grid_width: i32, grid_height: i32) -> (fed: Result<(), NoFreeCell>)
        requires
            old(self).wf(),
            grid_width > 0,
            grid_height > 0,
        ensures
            final(self).wf(),
            final(self)@ == after_feeding(
                old(self)@,
                grid_width as int,
                grid_height as int,
                final(self)@.food,
            ),
            food_settled(old(self)@, grid_width as int, grid_height as int, final(self)@.food),
            fed is Err <==> food_is_reached(old(self)@) && !has_room(
                old(self)@,
                grid_width as int,
                grid_height as int,
            ),
    {
        let mut fed: Result<(), NoFreeCell> = Ok(());
        if self.snake1.head() == self.food.position {
            self.snake1.grow();
            proof {
                lemma_growing_keeps_room(
                    old(self)@.snake1.body,
                    old(self)@.snake2.body,
                    grid_width as int,
                    grid_height as int,
                );
            }
            fed = self.food.relocate(&self.snake1, &self.snake2, grid_width, grid_height);
        }
        if self.snake2.head() == self.food.position {
            self.snake2.grow();
            proof {
                lemma_growing_keeps_room(
                    old(self)@.snake1.body,
                    old(self)@.snake2.body,
                    grid_width as int,
                    grid_height as int,
                );
            }
            fed = self.food.relocate(&self.snake1, &self.snake2, grid_width, grid_height);
        }
        fed
    }

    /// Judges the collisions of the heads with the snakes and with the rocks.
    /// Every test is made, and the last one that holds gives the verdict; if
    /// any holds the game is over.
    pub fn check_snake_collisions(&mut self)
        requires
            old(self).wf(),
        ensures
            final(self).wf(),
            final(self)@ == after_collisions(old(self)@),
    {
        let head1 = self.snake1.head();
        let head2 = self.snake2.head();
        let mut verdict: Option<Outcome> = None;
        if self.snake2.contains(head1) {
            verdict = Some(Outcome::Player1Wins);
        }
        if self.snake1.contains(head2) {
            verdict = Some(Outcome::Player2Wins);
        }
        if head1 == head2 {
            verdict = Some(Outcome::Draw);
        }
        let mut i: usize = 0;
        while i < self.rocks.len()
            invariant
                i <= self.rocks@.len(),
                head1 == self.snake1@.body[0],
                head2 == self.snake2@.body[0],
                verdict == collision_verdict(
                    self.snake1@.body,
                    self.snake2@.body,
                    self.rocks@.take(i as int),
                ),
            decreases self.rocks@.len() - i,
        {
            let rock = self.rocks[i].position;
            if head1 == rock {
                verdict = Some(Outcome::Player2Wins);
            }
            if head2 == rock {
                verdict = Some(Outcome::Player1Wins);
            }
            proof {
                let seen = self.rocks@.take(i + 1);
                assert(seen.last() == self.rocks@[i as int]);
                assert(seen.drop_last() =~= self.rocks@.take(i as int));
            }
            i += 1;
        }
        assert(self.rocks@.take(i as int) =~= self.rocks@);
        match verdict {
            Some(outcome) => {
                self.game_over = true;
                self.winner = Some(outcome);
            },
            None => {},
        }
    }

    /// Plays one tick. A game that is over is left as it is. Otherwise both
    /// snakes try to move, then they are fed, and then, unless a move has
    /// just ended the game, the collisions are judged. The result is
    /// `NoFreeCell` when a head reached the food and no cell was left to move
    /// the food to.
    pub fn tick(&mut self, grid_width: i32, grid_height: i32, wrap_around: bool) -> (played:
        Result<(), NoFreeCell>)
        requires
            old(self).wf(),
            grid_width > 0,
            grid_height > 0,
        ensures
            final(self).wf(),
            final(self)@ == after_tick(
                old(self)@,
                grid_width as int,
                grid_height as int,
                wrap_around,
                final(self)@.food,
            ),
            !old(self)@.game_over ==> food_settled(
                after_moves(old(self)@, grid_width as int, grid_height as int, wrap_around),
                grid_width as int,
                grid_height as int,
                final(self)@.food,
            ),
            played is Err <==> {
                let moved = after_moves(
                    old(self)@,
                    grid_width as int,
                    grid_height as int,
                    wrap_around,
                );
                &&& !old(self)@.game_over
                &&& food_is_reached(moved)
                &&& !has_room(moved, grid_width as int, grid_height as int)
            },
            old(self)@.game_over ==> final(self)@.game_over,
    {
        if self.game_over {
            return Ok(());
        }
        self.move_snakes(grid_width, grid_height, wrap_around);
        let ended_by_move = self.game_over;
        let played = self.feed(grid_width, grid_height);
        if !ended_by_move {
            self.check_snake_collisions();
        }
        played
    }
}

/// A game that is over is never open again: a tick leaves it exactly as it
/// is, and judging its collisions can change the winner but not reopen it.
pub proof fn lemma_game_over_is_final(
    game: GameView,
    width: int,
    height: int,
    wrap: bool,
    food: Position,
)
    requires
        game.game_over,
    ensures
        after_tick(game, width, height, wrap, food) == game,
        after_moves(game, width, height, wrap).game_over,
        after_feeding(game, width, height, food).game_over,
        after_collisions(game).game_over,
{
}

/// A tick keeps the rocks and the portal pair of a game.
pub proof fn lemma_tick_keeps_the_board(
    game: GameView,
    width: int,
    height: int,
    wrap: bool,
    food: Position,
)
    ensures
        after_tick(game, width, height, wrap, food).rocks == game.rocks,
        after_tick(game, width, height, wrap, food).portals == game.portals,
{
}

/// Growing changes which cells a body has by nothing: a grown body covers a
/// cell exactly when the body did.
pub proof fn lemma_growing_keeps_cells(body: Seq<Position>, cell: Position)
    requires
        body.len() >= 1,
    ensures
        grown(body).contains(cell) == body.contains(cell),
{
    if body.contains(cell) {
        let i = choose|i: int| 0 <= i < body.len() && body[i] == cell;
        assert(grown(body)[i] == cell);
    }
    if grown(body).contains(cell) {
        let i = choose|i: int| 0 <= i < grown(body).len() && grown(body)[i] == cell;
        if i == body.len() {
            assert(body[body.len() - 1] == cell);
        } else {
            assert(body[i] == cell);
        }
    }
}

/// Growing a snake leaves the free cells of the grid as they are.
pub proof fn lemma_growing_keeps_room(
    body1: Seq<Position>,
    body2: Seq<Position>,
    width: int,
    height: int,
)
    requires
        body1.len() >= 1,
        body2.len() >= 1,
    ensures
        forall|cell: Position| #[trigger]
            is_free(cell, grown(body1), body2, None) == is_free(cell, body1, body2, None),
        forall|cell: Position| #[trigger]
            is_free(cell, body1, grown(body2), None) == is_free(cell, body1, body2, None),
        forall|cell: Position| #[trigger]
            is_free(cell, grown(body1), grown(body2), None) == is_free(cell, body1, body2, None),
        has_free_cell(grown(body1), body2, None, width, height) == has_free_cell(
            body1,
            body2,
            None,
            width,
            height,
        ),
        has_free_cell(body1, grown(body2), None, width, height) == has_free_cell(
            body1,
            body2,
            None,
            width,
            height,
        ),
        has_free_cell(grown(body1), grown(body2), None, width, height) == has_free_cell(
            body1,
            body2,
            None,
            width,
            height,
        ),
{
    assert forall|cell: Position|
        grown(body1).contains(cell) == body1.contains(cell) && grown(body2).contains(cell)
            == body2.contains(cell) by {
        lemma_growing_keeps_cells(body1, cell);
        lemma_growing_keeps_cells(body2, cell);
    }
    lemma_same_cells_same_room(grown(body1), body2, body1, body2, width, height);
    lemma_same_cells_same_room(body1, grown(body2), body1, body2, width, height);
    lemma_same_cells_same_room(grown(body1), grown(body2), body1, body2, width, height);
}

/// Two pairs of bodies that cover the same cells leave the same room on a grid.
proof fn lemma_same_cells_same_room(
    a1: Seq<Position>,
    a2: Seq<Position>,
    b1: Seq<Position>,
    b2: Seq<Position>,
    width: int,
    height: int,
)
    requires
        forall|cell: Position|
            a1.contains(cell) == b1.contains(cell) && a2.contains(cell) == b2.contains(cell),
    ensures
        has_free_cell(a1, a2, None, width, height) == has_free_cell(b1, b2, None, width, height),
{
    if has_free_cell(a1, a2, None, width, height) {
        let cell = choose|cell: Position|
            cell@.in_grid(width, height) && #[trigger] is_free(cell, a1, a2, None);
        assert(is_free(cell, b1, b2, None));
    }
    if has_free_cell(b1, b2, None, width, height) {
        let cell = choose|cell: Position|
            cell@.in_grid(width, height) && #[trigger] is_free(cell, b1, b2, None);
        assert(is_free(cell, a1, a2, None));
    }
}

} // verus!
