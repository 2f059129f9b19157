//! The simulation core: game state and the tick transition.

use rand::RngExt;
use vstd::prelude::*;

use crate::config;
use crate::point::{distinct_cells, in_grid, Point};

verus! {

/// Lifecycle of one game session.
#[derive(Clone, Copy, Debug, PartialEq, Eq, Structural)]
pub enum GameState {
    Playing,
    Paused,
    Over,
}

/// Direction the snake moves on the next tick.
#[derive(Clone, Copy, Debug, PartialEq, Eq, Structural)]
pub enum PlayerDirection {
    Up,
    Down,
    Right,
    Left,
}

/// The direction that points exactly the other way.
pub open spec fn opposite(d: PlayerDirection) -> PlayerDirection {
    match d {
        PlayerDirection::Up => PlayerDirection::Down,
        PlayerDirection::Down => PlayerDirection::Up,
        PlayerDirection::Right => PlayerDirection::Left,
        PlayerDirection::Left => PlayerDirection::Right,
    }
}

/// Horizontal component of the unit step in direction `d`.
pub open spec fn dir_dx(d: PlayerDirection) -> int {
    match d {
        PlayerDirection::Right => 1,
        PlayerDirection::Left => -1,
        _ => 0,
    }
}

/// Vertical component of the unit step in direction `d`.
pub open spec fn dir_dy(d: PlayerDirection) -> int {
    match d {
        PlayerDirection::Down => 1,
        PlayerDirection::Up => -1,
        _ => 0,
    }
}

/// Relies on rand::rng and rand::RngExt::random_range: the drawn value lies
/// in the half-open range handed to the call, which is non-empty by the
/// precondition (random_range panics on an empty range).
#[verifier::external_body]
fn random_in_range(bound: i32) -> (r: i32)
    requires
        0 < bound,
    ensures
        0 <= r < bound,
{
    rand::rng().random_range(0..bound)
}

/// Full state of one game session: snake body (head first), current
/// direction, food cell, and lifecycle state.
pub struct GameContext {
    pub player_position: Vec<Point>,
    pub player_direction: PlayerDirection,
    pub food: Point,
    pub state: GameState,
}

impl GameContext {
    /// The snake's head: the first cell of the body.
    pub open spec fn head(self) -> Point {
        self.player_position@[0]
    }

    /// x coordinate the head would move to on the next tick.
    pub open spec fn next_x(self) -> int {
        self.head().0 + dir_dx(self.player_direction)
    }

    /// y coordinate the head would move to on the next tick.
    pub open spec fn next_y(self) -> int {
        self.head().1 + dir_dy(self.player_direction)
    }

    /// Whether the cell the head would move to lies on the playing field.
    pub open spec fn next_in_grid(self) -> bool {
        &&& 0 <= self.next_x() < config::GRID_X_SIZE
        &&& 0 <= self.next_y() < config::GRID_Y_SIZE
    }

    /// The cell the head moves to on the next tick. Meaningful only when
    /// `next_in_grid()` holds, so that the coordinates fit their type.
    pub open spec fn next_head(self) -> Point {
        Point(self.next_x() as i32, self.next_y() as i32)
    }

    /// Well-formedness: the snake is non-empty and on the playing field, the
    /// food is on the playing field, and while the game is not over no two
    /// snake cells coincide.
    pub open spec fn wf(self) -> bool {
        &&& self.player_position@.len() >= 1
        &&& (forall|i: int|
            0 <= i < self.player_position@.len() ==> in_grid(#[trigger] self.player_position@[i]))
        &&& in_grid(self.food)
        &&& (!(self.state is Over) ==> distinct_cells(self.player_position@))
    }

    /// The canonical initial session: a three-cell snake heading right,
    /// paused, with the food at its fixed starting cell.
    pub fn new() -> (r: GameContext)
        ensures
            r.player_position@ == seq![Point(3, 4), Point(2, 4), Point(1, 4)],
            r.player_direction is Right,
            r.food == (Point(3, 6)),
            r.state is Paused,
            r.wf(),
    {
        let mut body: Vec<Point> = Vec::new();
        body.push(Point(3, 4));
        body.push(Point(2, 4));
        body.push(Point(1, 4));
        proof {
            assert(body@ =~= seq![Point(3, 4), Point(2, 4), Point(1, 4)]);
        }
        GameContext {
            player_position: body,
            player_direction: PlayerDirection::Right,
            state: GameState::Paused,
            food: Point(3, 6),
        }
    }

    /// One simulation tick: move the head one cell in the current direction.
    /// Leaving the grid ends the game with the body unchanged; reaching the
    /// food grows the body by one and respawns the food; otherwise the tail
    /// is dropped. Moving onto a remaining body cell ends the game, with the
    /// colliding head kept as part of the body. A no-op unless playing.
    pub fn next_tick(&mut self)
        requires
            old(self).wf(),
        ensures
            final(self).wf(),
            final(self).player_direction == old(self).player_direction,
            !(old(self).state is Playing) ==> ({
                &&& final(self).player_position@ == old(self).player_position@
                &&& final(self).food == old(self).food
                &&& final(self).state == old(self).state
            }),
            (old(self).state is Playing && !old(self).next_in_grid()) ==> ({
                &&& final(self).state is Over
                &&& final(self).player_position@ == old(self).player_position@
                &&& final(self).food == old(self).food
            }),
            (old(self).state is Playing && old(self).next_in_grid()) ==> ({
                let nh = old(self).next_head();
                let rest = if nh == old(self).food {
                    old(self).player_position@
                } else {
                    old(self).player_position@.drop_last()
                };
                &&& final(self).player_position@ == seq![nh] + rest
                &&& final(self).state == (if rest.contains(nh) {
                    GameState::Over
                } else {
                    GameState::Playing
                })
                &&& (nh == old(self).food ==> in_grid(final(self).food)
                    && final(self).player_position@.len() == old(self).player_position@.len() + 1)
                &&& (nh != old(self).food ==> final(self).food == old(self).food
                    && final(self).player_position@.len() == old(self).player_position@.len())
            }),
    {
        match self.state {
            GameState::Paused | GameState::Over => {
                return;
            },
            GameState::Playing => {},
        }
        assert(in_grid(self.player_position@[0]));
        let head: Point = self.player_position[0];
        let (nx, ny): (i32, i32) = match self.player_direction {
            PlayerDirection::Up => (head.0, head.1 - 1),
            PlayerDirection::Down => (head.0, head.1 + 1),
            PlayerDirection::Right => (head.0 + 1, head.1),
            PlayerDirection::Left => (head.0 - 1, head.1),
        };
        if nx < 0 || nx >= config::GRID_X_SIZE || ny < 0 || ny >= config::GRID_Y_SIZE {
            self.state = GameState::Over;
            return;
        }
        let nh = Point(nx, ny);
        proof {
            assert(nh == old(self).next_head());
        }
        let ate: bool = nh == self.food;
        if ate {
            self.food = Point(
                random_in_range(config::GRID_X_SIZE),
                random_in_range(config::GRID_Y_SIZE),
            );
        } else {
            self.player_position.pop();
        }
        let ghost rest = self.player_position@;
        proof {
            assert(forall|j: int|
                0 <= j < rest.len() ==> rest[j] == old(self).player_position@[j]);
        }
        let mut hit: bool = false;
        let mut i: usize = 0;
        while i < self.player_position.len()
            invariant
                i <= rest.len(),
                self.player_position@ == rest,
                self.state == old(self).state,
                self.player_direction == old(self).player_direction,
                ate ==> in_grid(self.food),
                !ate ==> self.food == old(self).food,
                hit <==> exists|k: int| 0 <= k < i && rest[k] == nh,
            decreases rest.len() - i,
        {
            if self.player_position[i] == nh {
                hit = true;
            }
            i += 1;
        }
        proof {
            assert(hit <==> rest.contains(nh));
        }
        self.player_position.insert(0, nh);
        if hit {
            self.state = GameState::Over;
        }
        proof {
            assert(self.player_position@ =~= seq![nh] + rest);
            assert forall|j: int| 0 <= j < self.player_position@.len() implies in_grid(
                #[trigger] self.player_position@[j],
            ) by {
                if j > 0 {
                    assert(self.player_position@[j] == rest[j - 1]);
                    assert(rest[j - 1] == old(self).player_position@[j - 1]);
                }
            }
            if !hit {
                assert(distinct_cells(old(self).player_position@));
                assert forall|p: int, q: int|
                    0 <= p < q < self.player_position@.len() implies self.player_position@[p]
                    != self.player_position@[q] by {
                    if p == 0 {
                        assert(self.player_position@[q] == rest[q - 1]);
                        if rest[q - 1] == nh {
                            assert(rest.contains(nh));
                        }
                    } else {
                        assert(self.player_position@[p] == old(self).player_position@[p - 1]);
                        assert(self.player_position@[q] == old(self).player_position@[q - 1]);
                    }
                }
            }
        }
    }

    /// Point the snake up for the next tick; a no-op unless playing, and a
    /// no-op while the snake moves down (no instant reversal into the neck).
    pub fn move_up(&mut self)
        ensures
            final(self).player_position@ == old(self).player_position@,
            final(self).food == old(self).food,
            final(self).state == old(self).state,
            (old(self).state is Playing && old(self).player_direction != opposite(
                PlayerDirection::Up,
            )) ==> final(self).player_direction is Up,
            !(old(self).state is Playing && old(self).player_direction != opposite(
                PlayerDirection::Up,
            )) ==> final(self).player_direction == old(self).player_direction,
    {
        match self.state {
            GameState::Playing => {
                if !(self.player_direction == PlayerDirection::Down) {
                    self.player_direction = PlayerDirection::Up;
                }
            },
            _ => {},
        }
    }

    /// Point the snake down for the next tick; a no-op unless playing, and a
    /// no-op while the snake moves up (no instant reversal into the neck).
    pub fn move_down(&mut self)
        ensures
            final(self).player_position@ == old(self).player_position@,
            final(self).food == old(self).food,
            final(self).state == old(self).state,
            (old(self).state is Playing && old(self).player_direction != opposite(
                PlayerDirection::Down,
            )) ==> final(self).player_direction is Down,
            !(old(self).state is Playing && old(self).player_direction != opposite(
                PlayerDirection::Down,
            )) ==> final(self).player_direction == old(self).player_direction,
    {
        match self.state {
            GameState::Playing => {
                if !(self.player_direction == PlayerDirection::Up) {
                    self.player_direction = PlayerDirection::Down;
                }
            },
            _ => {},
        }
    }

    /// Point the snake right for the next tick; a no-op unless playing, and a
    /// no-op while the snake moves left (no instant reversal into the neck).
    pub fn move_right(&mut self)
        ensures
            final(self).player_position@ == old(self).player_position@,
            final(self).food == old(self).food,
            final(self).state == old(self).state,
            (old(self).state is Playing && old(self).player_direction != opposite(
                PlayerDirection::Right,
            )) ==> final(self).player_direction is Right,
            !(old(self).state is Playing && old(self).player_direction != opposite(
                PlayerDirection::Right,
            )) ==> final(self).player_direction == old(self).player_direction,
    {
        match self.state {
            GameState::Playing => {
                if !(self.player_direction == PlayerDirection::Left) {
                    self.player_direction = PlayerDirection::Right;
                }
            },
            _ => {},
        }
    }

    /// Point the snake left for the next tick; a no-op unless playing, and a
    /// no-op while the snake moves right (no instant reversal into the neck).
    pub fn move_left(&mut self)
        ensures
            final(self).player_position@ == old(self).player_position@,
            final(self).food == old(self).food,
            final(self).state == old(self).state,
            (old(self).state is Playing && old(self).player_direction != opposite(
                PlayerDirection::Left,
            )) ==> final(self).player_direction is Left,
            !(old(self).state is Playing && old(self).player_direction != opposite(
                PlayerDirection::Left,
            )) ==> final(self).player_direction == old(self).player_direction,
    {
        match self.state {
            GameState::Playing => {
                if !(self.player_direction == PlayerDirection::Right) {
                    self.player_direction = PlayerDirection::Left;
                }
            },
            _ => {},
        }
    }

    /// Flip between playing and paused; a silent no-op once the game is over.
    pub fn toggle_pause(&mut self)
        ensures
            final(self).player_position@ == old(self).player_position@,
            final(self).player_direction == old(self).player_direction,
            final(self).food == old(self).food,
            final(self).state == (match old(self).state {
                GameState::Paused => GameState::Playing,
                GameState::Playing => GameState::Paused,
                GameState::Over => GameState::Over,
            }),
    {
        self.state = match self.state {
            GameState::Paused => GameState::Playing,
            GameState::Playing => GameState::Paused,
            GameState::Over => GameState::Over,
        };
    }

    /// End the session unconditionally, whatever the current state.
    pub fn over(&mut self)
        ensures
            final(self).player_position@ == old(self).player_position@,
            final(self).player_direction == old(self).player_direction,
            final(self).food == old(self).food,
            final(self).state is Over,
    {
        self.state = GameState::Over;
    }
}

} // verus!
