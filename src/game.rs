//! The state of a game and what one tick does to it.
use vstd::prelude::*;
use rand::Rng;
use crate::grid::{Direction, Point, is_wall, next_head, next_head_spec};
use crate::input::{Key, steer, steer_spec};

verus! {

/// Food columns are drawn from `FOOD_X_START..FOOD_X_END`.
pub const FOOD_X_START: u16 = 1;
pub const FOOD_X_END: u16 = 50;
/// Food rows are drawn from `FOOD_Y_START..FOOD_Y_END`.
pub const FOOD_Y_START: u16 = 1;
pub const FOOD_Y_END: u16 = 20;

/// A cell where fresh food may be placed.
pub open spec fn in_food_range(p: Point) -> bool {
    &&& FOOD_X_START <= p.x < FOOD_X_END
    &&& FOOD_Y_START <= p.y < FOOD_Y_END
}

/// Relies on `rand::rng` and `Rng::random_range`: a value drawn from
/// `lo..hi`, which must not be empty.
#[verifier::external_body]
fn random_in(lo: u16, hi: u16) -> (r: u16)
    requires
        lo < hi,
    ensures
        lo <= r < hi,
{
    rand::rng().random_range(lo..hi)
}

/// A new food cell, drawn uniformly from the food range. It may lie on the
/// snake.
pub fn spawn_food() -> (p: Point)
    ensures
        in_food_range(p),
{
    let x = random_in(FOOD_X_START, FOOD_X_END);
    let y = random_in(FOOD_Y_START, FOOD_Y_END);
    Point { x, y }
}

/// What a tick did.
#[derive(Clone, Copy, Debug, PartialEq, Eq, Structural)]
pub enum Tick {
    /// The snake moved one cell and kept its length.
    Moved,
    /// The snake moved onto the food, grew by one segment, and new food was
    /// placed.
    Grew,
    /// The next cell is on the wall: the game is over, and the snake stays
    /// where it was.
    HitWall,
}

/// Everything a running game keeps between ticks. The snake is head first;
/// its segments are not checked against each other, so it may cross itself.
pub struct Game {
    pub snake: Vec<Point>,
    pub direction: Direction,
    pub food: Point,
}

impl Game {
    /// A game can be played only while its snake has a head.
    pub open spec fn wf(&self) -> bool {
        self.snake@.len() > 0
    }

    /// The cell the head moves to on a tick whose poll found `key`.
    pub open spec fn candidate(&self, key: Option<Key>) -> Point {
        next_head_spec(self.snake@[0], steer_spec(self.direction, key))
    }

    /// `next` is this game after a tick whose poll found `key`, which
    /// reported `t`, and on which `fresh` is the food placed if the snake
    /// eats. The heading follows the poll. A candidate head on the wall ends
    /// the game with snake and food unchanged. Otherwise the candidate
    /// becomes the head; on the food the snake keeps its tail and `fresh`
    /// becomes the food, elsewhere the tail is dropped.
    pub open spec fn advanced(&self, next: &Game, key: Option<Key>, fresh: Point, t: Tick) -> bool {
        let c = self.candidate(key);
        &&& next.direction == steer_spec(self.direction, key)
        &&& is_wall(c) ==> {
            &&& t == Tick::HitWall
            &&& next.snake@ == self.snake@
            &&& next.food == self.food
        }
        &&& !is_wall(c) && c == self.food ==> {
            &&& t == Tick::Grew
            &&& next.snake@ == seq![c] + self.snake@
            &&& next.food == fresh
        }
        &&& !is_wall(c) && c != self.food ==> {
            &&& t == Tick::Moved
            &&& next.snake@ == seq![c] + self.snake@.drop_last()
            &&& next.food == self.food
        }
    }

    /// The opening position: a two-segment snake at (10, 10) heading right,
    /// with food at (15, 10).
    pub fn new() -> (g: Game)
        ensures
            g.wf(),
            g.snake@ == seq![Point { x: 10, y: 10 }, Point { x: 9, y: 10 }],
            g.direction == Direction::Right,
            g.food == (Point { x: 15, y: 10 }),
    {
        Game {
            snake: vec![Point { x: 10, y: 10 }, Point { x: 9, y: 10 }],
            direction: Direction::Right,
            food: Point { x: 15, y: 10 },
        }
    }

    /// The snake's head.
    pub fn head(&self) -> (r: Point)
        requires
            self.wf(),
        ensures
            r == self.snake@[0],
    {
        self.snake[0]
    }

    /// Plays one tick whose poll found `key`, with `fresh` as the food to
    /// place if the snake eats.
    pub fn advance(&mut self, key: Option<Key>, fresh: Point) -> (t: Tick)
        requires
            old(self).wf(),
        ensures
            final(self).wf(),
            old(self).advanced(&*final(self), key, fresh, t),
            t == Tick::HitWall <==> is_wall(old(self).candidate(key)),
            t == Tick::HitWall ==> final(self).snake@ == old(self).snake@,
            t != Tick::HitWall ==> (final(self).snake@.len() == old(self).snake@.len() + 1
                <==> old(self).candidate(key) == old(self).food),
            t != Tick::HitWall && old(self).candidate(key) != old(self).food
                ==> final(self).snake@.len() == old(self).snake@.len(),
    {
        self.direction = steer(self.direction, key);
        let c = next_head(self.head(), &self.direction);
        if c.x == 0 || c.y == 0 {
            return Tick::HitWall;
        }
        self.snake.insert(0, c);
        if c == self.food {
            self.food = fresh;
            assert(self.snake@ == seq![c] + old(self).snake@);
            Tick::Grew
        } else {
            self.snake.pop();
            assert(self.snake@ == seq![c] + old(self).snake@.drop_last());
            Tick::Moved
        }
    }

    /// Plays one tick whose poll found `key`. Where the snake eats, new food
    /// is drawn at random from the food range.
    pub fn tick(&mut self, key: Option<Key>) -> (t: Tick)
        requires
            old(self).wf(),
        ensures
            final(self).wf(),
            old(self).advanced(&*final(self), key, final(self).food, t),
            t == Tick::HitWall <==> is_wall(old(self).candidate(key)),
            t == Tick::Grew ==> in_food_range(final(self).food),
    {
        let d = steer(self.direction, key);
        let c = next_head(self.head(), &d);
        let fresh = if c == self.food {
            spawn_food()
        } else {
            self.food
        };
        self.advance(key, fresh)
    }
}

} // verus!
