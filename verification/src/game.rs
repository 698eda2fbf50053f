//! The game state: snake, food, grid, timing and the running / game-over /
//! restart lifecycle.
//!
//! One discrete simulation step fires per elapsed-time budget: the projected
//! next head cell is checked against the walls and the snake's own body
//! before the move is committed; a rejected step transitions to game-over
//! instead of moving. Eating is detected against the new head position after
//! the move, grows the snake by the cell the move just vacated, and scores
//! one point. After a fixed grace period in game-over, the game restarts
//! from the canonical start layout.

use vstd::prelude::*;
use rand::Rng;
use crate::snake::{Brick, Direction, Snake, opposite_spec};

verus! {

/// Milliseconds of accumulated time after which a simulation step fires.
pub const TICK_MS: u64 = 100;

/// Milliseconds to wait in game-over before the automatic restart.
pub const RESTART_MS: u64 = 2000;

/// x coordinate of the tail cell of the canonical start layout.
pub const START_X: i32 = 3;

/// y coordinate of the canonical start layout.
pub const START_Y: i32 = 2;

/// x coordinate of the fixed initial food cell.
pub const FOOD_START_X: i32 = 5;

/// y coordinate of the fixed initial food cell.
pub const FOOD_START_Y: i32 = 7;

/// How many random cells food placement samples before falling back to a
/// deterministic sweep of the interior.
pub const FOOD_SAMPLE_TRIES: u32 = 64;

/// A raw input symbol: the eight keys the game understands, and a catch-all
/// for every other key, which is ignored.
#[derive(Copy, Clone, PartialEq, Eq, Structural, Debug)]
pub enum Key {
    Up,
    Down,
    Left,
    Right,
    W,
    A,
    S,
    D,
    Other,
}

/// The direction a key resolves to: arrows and WASD map to the four
/// directions, anything else to nothing.
pub open spec fn dir_of_key(k: Key) -> Option<Direction> {
    match k {
        Key::Up => Some(Direction::Up),
        Key::Down => Some(Direction::Down),
        Key::Left => Some(Direction::Left),
        Key::Right => Some(Direction::Right),
        Key::W => Some(Direction::Up),
        Key::A => Some(Direction::Left),
        Key::S => Some(Direction::Down),
        Key::D => Some(Direction::Right),
        Key::Other => None,
    }
}

/// The body cells of a freshly built snake: three cells in a row at the
/// canonical start, head (the front) at (5, 2), heading Right.
pub open spec fn start_body() -> Seq<Brick> {
    seq![
        Brick { x: 5, y: 2 },
        Brick { x: 4, y: 2 },
        Brick { x: 3, y: 2 },
    ]
}

/// The whole game state: the snake, the food cell and its presence flag,
/// the grid dimensions, the game-over flag, the elapsed-time accumulator
/// (milliseconds) and the score.
pub struct Game {
    pub snake: Snake,
    pub food: bool,
    pub food_x: i32,
    pub food_y: i32,
    pub width: i32,
    pub height: i32,
    pub game_over: bool,
    pub wait: u64,
    pub score: u64,
}

/// `g` with its accumulator replaced by `w` and everything else unchanged.
pub open spec fn with_wait(g: Game, w: u64) -> Game {
    Game {
        snake: g.snake,
        food: g.food,
        food_x: g.food_x,
        food_y: g.food_y,
        width: g.width,
        height: g.height,
        game_over: g.game_over,
        wait: w,
        score: g.score,
    }
}

/// The accumulator after `delta` more milliseconds; it saturates at the top
/// of its range rather than wrapping.
pub open spec fn wait_after(w: u64, delta: u64) -> u64 {
    if w + delta <= u64::MAX {
        (w + delta) as u64
    } else {
        u64::MAX
    }
}

/// `post` is `pre` with food replaced where needed: unchanged if food was
/// already there or no interior cell is free, else some freshly chosen food
/// cell strictly inside the border and off the snake's body (tail
/// excluded), with every other field unchanged.
pub open spec fn food_refreshed(pre: Game, post: Game) -> bool {
    if pre.food {
        post == pre
    } else if !pre.has_free_interior_cell() {
        post == pre
    } else {
        &&& post.food
        &&& 1 <= post.food_x <= pre.width - 2
        &&& 1 <= post.food_y <= pre.height - 2
        &&& !pre.snake.hits_body_except_tail(post.food_x as int, post.food_y as int)
        &&& post.snake == pre.snake
        &&& post.width == pre.width
        &&& post.height == pre.height
        &&& post.game_over == pre.game_over
        &&& post.wait == pre.wait
        &&& post.score == pre.score
    }
}

/// `post` is the canonical fresh round built over `pre`'s grid: the start
/// snake, no food yet (the next update's placement path provides it), zeroed
/// timer and score, game not over.
pub open spec fn is_restart_of(pre: Game, post: Game) -> bool {
    &&& post.width == pre.width
    &&& post.height == pre.height
    &&& post.snake.direction == Direction::Right
    &&& post.snake.body@ == start_body()
    &&& post.snake.tail is None
    &&& post.food == false
    &&& post.game_over == false
    &&& post.wait == 0
    &&& post.score == 0
}

impl Game {
    /// The state invariant: a well-formed snake whose head lies strictly
    /// inside the border, a grid large enough for the start layout, food
    /// (when present) strictly inside the border, and a score equal to the
    /// number of cells grown since the start layout.
    pub open spec fn wf(self) -> bool {
        &&& self.snake.wf()
        &&& 7 <= self.width
        &&& 4 <= self.height
        &&& 1 <= self.snake.head_spec().x <= self.width - 2
        &&& 1 <= self.snake.head_spec().y <= self.height - 2
        &&& (self.food ==> 1 <= self.food_x <= self.width - 2 && 1 <= self.food_y
            <= self.height - 2)
        &&& self.score == self.snake.body@.len() - 3
    }

    /// The head cell the snake would move to.
    pub open spec fn next_x(self, dir: Option<Direction>) -> int {
        self.snake.next_head_x(dir)
    }

    /// The head cell the snake would move to.
    pub open spec fn next_y(self, dir: Option<Direction>) -> int {
        self.snake.next_head_y(dir)
    }

    /// A step is allowed when the projected next head neither collides with
    /// the body (tail excluded: it vacates its cell the same tick) nor lies
    /// on or outside the border.
    pub open spec fn step_allowed(self, dir: Option<Direction>) -> bool {
        &&& !self.snake.hits_body_except_tail(self.next_x(dir), self.next_y(dir))
        &&& 0 < self.next_x(dir) < self.width - 1
        &&& 0 < self.next_y(dir) < self.height - 1
    }

    /// Some cell strictly inside the border misses the snake's body (tail
    /// excluded), so food can be placed there.
    pub open spec fn has_free_interior_cell(self) -> bool {
        exists|x: int, y: int|
            1 <= x <= self.width - 2 && 1 <= y <= self.height - 2
                && !self.snake.hits_body_except_tail(x, y)
    }

    /// An allowed step lands the new head exactly on present food.
    pub open spec fn eats(self, dir: Option<Direction>) -> bool {
        &&& self.step_allowed(dir)
        &&& self.food
        &&& self.next_x(dir) == self.food_x
        &&& self.next_y(dir) == self.food_y
    }
}

/// The current head cell sits on present food (evaluated after a move).
pub open spec fn head_on_food(g: Game) -> bool {
    &&& g.food
    &&& g.food_x == g.snake.head_spec().x
    &&& g.food_y == g.snake.head_spec().y
}

/// The full effect of one discrete simulation step from `pre` with override
/// `dir`. If the step is allowed, the snake advances (head pinned to the
/// projected cell, tail vacated and recorded), and on an eat the vacated
/// cell is re-appended, the food consumed and the score raised by one; a
/// rejected step only sets the game-over flag. Either way the accumulator
/// resets to zero.
pub open spec fn stepped(pre: Game, post: Game, dir: Option<Direction>) -> bool {
    &&& post.width == pre.width
    &&& post.height == pre.height
    &&& post.wait == 0
    &&& if pre.step_allowed(dir) {
        &&& post.game_over == pre.game_over
        &&& post.snake.direction == pre.snake.moving_dir_spec(dir)
        &&& post.snake.body@[0].x as int == pre.next_x(dir)
        &&& post.snake.body@[0].y as int == pre.next_y(dir)
        &&& post.snake.tail == Some(pre.snake.body@.last())
        &&& if pre.eats(dir) {
            &&& post.snake.body@ == seq![post.snake.body@[0]] + pre.snake.body@
            &&& post.food == false
            &&& post.food_x == pre.food_x
            &&& post.food_y == pre.food_y
            &&& post.score == pre.score + 1
        } else {
            &&& post.snake.body@ == seq![post.snake.body@[0]] + pre.snake.body@.drop_last()
            &&& post.food == pre.food
            &&& post.food_x == pre.food_x
            &&& post.food_y == pre.food_y
            &&& post.score == pre.score
        }
    } else {
        &&& post.game_over == true
        &&& post.snake == pre.snake
        &&& post.food == pre.food
        &&& post.food_x == pre.food_x
        &&& post.food_y == pre.food_y
        &&& post.score == pre.score
    }
}

/// The full effect of delivering key `k`: ignored entirely in game-over,
/// ignored when the key resolves to no direction or to the exact opposite
/// of the current heading, and otherwise one forced simulation step with
/// the resolved direction as override.
pub open spec fn key_applied(pre: Game, post: Game, k: Key) -> bool {
    if pre.game_over {
        post == pre
    } else {
        match dir_of_key(k) {
            None => post == pre,
            Some(d) => if d == opposite_spec(pre.snake.direction) {
                post == pre
            } else {
                stepped(pre, post, Some(d))
            },
        }
    }
}

/// The full effect of one frame worth `delta` milliseconds: the accumulator
/// grows (saturating); in game-over nothing else happens until the grace
/// period has passed, upon which the round restarts; otherwise absent food
/// is replaced first (at some freshly chosen cell, hence the existential)
/// and a simulation step fires if the accumulator exceeds the tick period.
pub open spec fn update_applied(pre: Game, post: Game, delta: u64) -> bool {
    let w = wait_after(pre.wait, delta);
    if pre.game_over {
        if w > RESTART_MS {
            is_restart_of(pre, post)
        } else {
            post == with_wait(pre, w)
        }
    } else {
        exists|mid: Game|
            {
                &&& #[trigger] food_refreshed(with_wait(pre, w), mid)
                &&& if w > TICK_MS {
                    stepped(mid, post, None)
                } else {
                    post == mid
                }
            }
    }
}

/// Relies on rand::Rng::gen_range on rand::thread_rng: for a non-empty
/// half-open integer range, the sampled value lies in the range (it panics
/// only on an empty range, which the precondition excludes).
#[verifier::external_body]
fn random_in_range(low: i32, high: i32) -> (r: i32)
    requires
        low < high,
    ensures
        low <= r < high,
{
    rand::thread_rng().gen_range(low..high)
}

impl Game {
    /// A fresh session on a `width` by `height` grid: the canonical start
    /// snake, the fixed initial food cell, game running, zero score, and
    /// the elapsed-time accumulator starting at zero. The grid must be
    /// large enough to hold the start snake and the initial food strictly
    /// inside the border.
    pub fn new(width: i32, height: i32) -> (g: Game)
        requires
            7 <= width,
            9 <= height,
        ensures
            g.wf(),
            g.width == width,
            g.height == height,
            g.snake.direction == Direction::Right,
            g.snake.body@ == start_body(),
            g.snake.tail is None,
            g.food == true,
            g.food_x == FOOD_START_X,
            g.food_y == FOOD_START_Y,
            g.game_over == false,
            g.wait == 0,
            g.score == 0,
    {
        Game {
            snake: Snake::new(START_X, START_Y),
            food: true,
            food_x: FOOD_START_X,
            food_y: FOOD_START_Y,
            width,
            height,
            game_over: false,
            wait: 0,
            score: 0,
        }
    }

    /// Whether the projected next head cell keeps the snake alive; see
    /// `step_allowed`.
    fn check_alive(&self, dir: Option<Direction>) -> (r: bool)
        requires
            self.wf(),
        ensures
            r == self.step_allowed(dir),
    {
        let (next_x, next_y) = self.snake.next_head(dir);

        if self.snake.overlap_tail(next_x, next_y) {
            return false;
        }

        next_x > 0 && next_y > 0 && next_x < self.width - 1 && next_y < self.height - 1
    }

    /// If the (just moved) head sits on present food: consume the food,
    /// grow the snake by the cell the move vacated, and score one point.
    fn check_eat(&mut self)
        requires
            old(self).snake.wf(),
            old(self).snake.tail is Some,
            old(self).score == old(self).snake.body@.len() - 3,
        ensures
            final(self).snake.wf(),
            final(self).width == old(self).width,
            final(self).height == old(self).height,
            final(self).game_over == old(self).game_over,
            final(self).wait == old(self).wait,
            final(self).food_x == old(self).food_x,
            final(self).food_y == old(self).food_y,
            final(self).snake.direction == old(self).snake.direction,
            head_on_food(*old(self)) ==> {
                &&& final(self).food == false
                &&& final(self).snake.body@ == old(self).snake.body@.push(old(self).snake.tail->0)
                &&& final(self).snake.body@.len() == old(self).snake.body@.len() + 1
                &&& final(self).snake.body@.last() == old(self).snake.tail->0
                &&& final(self).snake.tail == old(self).snake.tail
                &&& final(self).score == old(self).score + 1
            },
            !head_on_food(*old(self)) ==> *final(self) == *old(self),
    {
        if self.food {
            let (head_x, head_y) = self.snake.head_position();
            if self.food_x == head_x && self.food_y == head_y {
                self.food = false;
                self.snake.add_tail();
                let len: usize = self.snake.body.len();
                proof {
                    // The grown body fits in a vector, and the score stays
                    // three below the body length, so the counter has room.
                    assert(self.score < u64::MAX) by {
                        assert(self.score == len - 4);
                    }
                }
                self.score = self.score + 1;
            }
        }
    }

    /// One discrete simulation step with override `dir`: commit the move if
    /// it is allowed (then detect eating against the new head), else
    /// transition to game-over; reset the accumulator either way. Beyond
    /// the full `stepped` relation, the clauses below spell out that a
    /// surviving head stays strictly inside the border, that a rejected
    /// step moves nothing, and what an eat changes.
    fn update_snake(&mut self, dir: Option<Direction>)
        requires
            old(self).wf(),
            !old(self).game_over,
        ensures
            final(self).wf(),
            stepped(*old(self), *final(self), dir),
            !final(self).game_over ==> 1 <= final(self).snake.head_spec().x <= final(self).width
                - 2,
            !final(self).game_over ==> 1 <= final(self).snake.head_spec().y <= final(self).height
                - 2,
            !old(self).step_allowed(dir) ==> {
                &&& final(self).game_over
                &&& final(self).snake == old(self).snake
                &&& final(self).food == old(self).food
                &&& final(self).score == old(self).score
                &&& final(self).wait == 0
            },
            old(self).eats(dir) ==> {
                &&& final(self).snake.body@.len() == old(self).snake.body@.len() + 1
                &&& final(self).snake.body@.last() == old(self).snake.body@.last()
                &&& final(self).score == old(self).score + 1
                &&& final(self).food == false
            },
    {
        if self.check_alive(dir) {
            self.snake.forward(dir);
            self.check_eat();
            proof {
                if old(self).eats(dir) {
                    assert(old(self).snake.body@.drop_last().push(old(self).snake.body@.last())
                        =~= old(self).snake.body@);
                    assert(self.snake.body@ =~= seq![self.snake.body@[0]]
                        + old(self).snake.body@);
                }
            }
        } else {
            self.game_over = true;
        }
        self.wait = 0;
    }

    /// Deliver a key press; see `key_applied` for the full effect. A key
    /// that resolves to no direction, or to the exact opposite of the
    /// current heading, is silently dropped; otherwise it forces one step.
    pub fn key(&mut self, k: Key)
        requires
            old(self).wf(),
        ensures
            final(self).wf(),
            key_applied(*old(self), *final(self), k),
    {
        if self.game_over {
            return;
        }

        let dir = match k {
            Key::Up => Some(Direction::Up),
            Key::Down => Some(Direction::Down),
            Key::Left => Some(Direction::Left),
            Key::Right => Some(Direction::Right),
            Key::W => Some(Direction::Up),
            Key::A => Some(Direction::Left),
            Key::S => Some(Direction::Down),
            Key::D => Some(Direction::Right),
            Key::Other => None,
        };

        match dir {
            Some(d) => {
                if d == self.snake.head_direction().opposite() {
                    return;
                }
                self.update_snake(Some(d));
            },
            None => (),
        }
    }

    /// One frame worth `delta_ms` milliseconds; see `update_applied` for
    /// the full effect.
    pub fn update(&mut self, delta_ms: u64)
        requires
            old(self).wf(),
        ensures
            final(self).wf(),
            update_applied(*old(self), *final(self), delta_ms),
    {
        let room: u64 = u64::MAX - self.wait;
        if delta_ms <= room {
            self.wait = self.wait + delta_ms;
        } else {
            self.wait = u64::MAX;
        }

        if self.game_over {
            if self.wait > RESTART_MS {
                self.restart();
            }
            return;
        }

        if !self.food {
            self.add_food();
        }

        let ghost mid = *self;
        proof {
            assert(food_refreshed(
                with_wait(*old(self), wait_after(old(self).wait, delta_ms)),
                mid,
            ));
        }

        if self.wait > TICK_MS {
            self.update_snake(None);
        }
    }

    /// Choose a new food cell: sample uniformly inside the border,
    /// rejecting cells on the snake's body (tail excluded); if the bounded
    /// sampling budget runs out, sweep the interior for the first free cell
    /// instead. Only the food is changed. In the pathological case where
    /// the snake covers the whole interior, nothing is placed and the state
    /// is left as it was.
    pub fn add_food(&mut self)
        requires
            old(self).wf(),
        ensures
            final(self).wf(),
            old(self).has_free_interior_cell() ==> {
                &&& final(self).food
                &&& 1 <= final(self).food_x <= old(self).width - 2
                &&& 1 <= final(self).food_y <= old(self).height - 2
                &&& !old(self).snake.hits_body_except_tail(
                    final(self).food_x as int,
                    final(self).food_y as int,
                )
            },
            !old(self).has_free_interior_cell() ==> *final(self) == *old(self),
            final(self).snake == old(self).snake,
            final(self).width == old(self).width,
            final(self).height == old(self).height,
            final(self).game_over == old(self).game_over,
            final(self).wait == old(self).wait,
            final(self).score == old(self).score,
    {
        let mut tries: u32 = 0;
        while tries < FOOD_SAMPLE_TRIES
            invariant
                self.wf(),
                *self == *old(self),
            decreases FOOD_SAMPLE_TRIES - tries,
        {
            let new_x: i32 = random_in_range(1, self.width - 1);
            let new_y: i32 = random_in_range(1, self.height - 1);
            if !self.snake.overlap_tail(new_x, new_y) {
                self.food_x = new_x;
                self.food_y = new_y;
                self.food = true;
                return;
            }
            tries = tries + 1;
        }

        let mut x: i32 = 1;
        while x <= self.width - 2
            invariant
                self.wf(),
                *self == *old(self),
                1 <= x <= self.width - 1,
                forall|a: int, b: int|
                    1 <= a < x && 1 <= b <= self.height - 2
                        ==> self.snake.hits_body_except_tail(a, b),
            decreases self.width - x,
        {
            let mut y: i32 = 1;
            while y <= self.height - 2
                invariant
                    self.wf(),
                    *self == *old(self),
                    1 <= x <= self.width - 2,
                    1 <= y <= self.height - 1,
                    forall|a: int, b: int|
                        1 <= a < x && 1 <= b <= self.height - 2
                            ==> self.snake.hits_body_except_tail(a, b),
                    forall|b: int|
                        1 <= b < y ==> self.snake.hits_body_except_tail(x as int, b),
                decreases self.height - y,
            {
                if !self.snake.overlap_tail(x, y) {
                    self.food_x = x;
                    self.food_y = y;
                    self.food = true;
                    return;
                }
                y = y + 1;
            }
            proof {
                assert(forall|a: int, b: int|
                    1 <= a < x + 1 && 1 <= b <= self.height - 2
                        ==> self.snake.hits_body_except_tail(a, b));
            }
            x = x + 1;
        }

        proof {
            assert(!self.has_free_interior_cell());
        }
    }

    /// Start a fresh round on the same grid: rebuild the snake at the
    /// canonical start, drop the food (the next update places a new one),
    /// and zero the accumulator, the game-over flag and the score.
    pub fn restart(&mut self)
        requires
            old(self).wf(),
        ensures
            final(self).wf(),
            is_restart_of(*old(self), *final(self)),
    {
        self.snake = Snake::new(START_X, START_Y);
        self.food = false;
        self.wait = 0;
        self.game_over = false;
        self.score = 0;
    }

    /// Runtime check of the state invariant, for unverified callers that
    /// assemble a state by hand.
    pub fn is_well_formed(&self) -> (r: bool)
        ensures
            r == self.wf(),
    {
        let len: usize = self.snake.body.len();
        if len < 3 {
            return false;
        }
        if self.width < 7 || self.height < 4 {
            return false;
        }
        let (head_x, head_y) = self.snake.head_position();
        if !(1 <= head_x && head_x <= self.width - 2 && 1 <= head_y && head_y <= self.height
            - 2) {
            return false;
        }
        if self.food {
            if !(1 <= self.food_x && self.food_x <= self.width - 2 && 1 <= self.food_y
                && self.food_y <= self.height - 2) {
                return false;
            }
        }
        self.score == (len as u64) - 3
    }
}

/// A read-only description of what to paint, in grid coordinates: the
/// snake's body cells (head first), the food cell and its presence flag,
/// the grid dimensions and the game-over flag.
pub struct RenderView {
    pub body: Vec<Brick>,
    pub food: bool,
    pub food_x: i32,
    pub food_y: i32,
    pub width: i32,
    pub height: i32,
    pub game_over: bool,
}

impl Game {
    /// The current visual state, for the external rendering collaborator.
    /// Purely a query: nothing is mutated.
    pub fn describe_for_rendering(&self) -> (v: RenderView)
        ensures
            v.body@ == self.snake.body@,
            v.food == self.food,
            v.food_x == self.food_x,
            v.food_y == self.food_y,
            v.width == self.width,
            v.height == self.height,
            v.game_over == self.game_over,
    {
        let mut body: Vec<Brick> = Vec::new();
        let mut i: usize = 0;
        while i < self.snake.body.len()
            invariant
                i <= self.snake.body@.len(),
                body@ == self.snake.body@.subrange(0, i as int),
            decreases self.snake.body@.len() - i,
        {
            body.push(self.snake.body[i]);
            proof {
                assert(body@ =~= self.snake.body@.subrange(0, i + 1));
            }
            i += 1;
        }
        proof {
            assert(body@ =~= self.snake.body@);
        }
        RenderView {
            body,
            food: self.food,
            food_x: self.food_x,
            food_y: self.food_y,
            width: self.width,
            height: self.height,
            game_over: self.game_over,
        }
    }
}

/// Law: a committed step never leaves the border. For every step taken from
/// a live, well-formed state, either the game is still running and the new
/// head lies strictly inside the border, or the step was rejected: the game
/// is over and the snake did not move.
pub proof fn lemma_step_keeps_head_inside(pre: Game, post: Game, dir: Option<Direction>)
    requires
        pre.wf(),
        !pre.game_over,
        stepped(pre, post, dir),
    ensures
        !post.game_over ==> 1 <= post.snake.head_spec().x <= post.width - 2,
        !post.game_over ==> 1 <= post.snake.head_spec().y <= post.height - 2,
        post.game_over ==> post.snake == pre.snake,
{
}

/// Law: a reversal input is never applied. If the key resolves to the exact
/// opposite of the current heading, then after delivering the key and after
/// the following timed step (or an uneventful frame) the heading is what it
/// was before.
pub proof fn lemma_reversal_never_applied(pre: Game, mid: Game, post: Game, k: Key)
    requires
        pre.wf(),
        !pre.game_over,
        dir_of_key(k) == Some(opposite_spec(pre.snake.direction)),
        key_applied(pre, mid, k),
        stepped(mid, post, None) || post == mid,
    ensures
        mid.snake.direction == pre.snake.direction,
        post.snake.direction == pre.snake.direction,
{
}

/// Law: eating grows the snake by exactly one cell and the score by exactly
/// one, the food is consumed, and the cell appended at the back equals the
/// cell the immediately preceding move popped off the back.
pub proof fn lemma_eat_grows_by_popped_tail(pre: Game, post: Game, dir: Option<Direction>)
    requires
        pre.wf(),
        !pre.game_over,
        pre.eats(dir),
        stepped(pre, post, dir),
    ensures
        post.snake.body@.len() == pre.snake.body@.len() + 1,
        post.score == pre.score + 1,
        post.food == false,
        post.snake.tail == Some(pre.snake.body@.last()),
        post.snake.body@.last() == pre.snake.body@.last(),
{
}

} // verus!
