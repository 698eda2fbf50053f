//! The snake: an ordered body of grid cells and a current heading.
//!
//! The body is kept head-first: `body[0]` is the head, the last element is
//! the tail. The snake computes its next head position, advances, grows by
//! re-appending the most recently vacated tail cell, and answers
//! self-collision queries. Validity of a move (walls, self-collision) is the
//! caller's concern; see the game module.

use vstd::prelude::*;

verus! {

/// One of the four headings the snake can move in.
#[derive(Copy, Clone, PartialEq, Eq, Structural, Debug)]
pub enum Direction {
    Up,
    Down,
    Left,
    Right,
}

/// The 180-degree reversal of a heading (Up <-> Down, Left <-> Right).
pub open spec fn opposite_spec(d: Direction) -> Direction {
    match d {
        Direction::Up => Direction::Down,
        Direction::Down => Direction::Up,
        Direction::Left => Direction::Right,
        Direction::Right => Direction::Left,
    }
}

impl Direction {
    /// The heading pointing the opposite way; used to reject illegal
    /// 180-degree reversals of the snake.
    pub fn opposite(&self) -> (r: Direction)
        ensures
            r == opposite_spec(*self),
    {
        match *self {
            Direction::Up => Direction::Down,
            Direction::Down => Direction::Up,
            Direction::Left => Direction::Right,
            Direction::Right => Direction::Left,
        }
    }
}

/// One grid cell, identified by its (x, y) coordinates.
#[derive(Copy, Clone, PartialEq, Eq, Structural, Debug)]
pub struct Brick {
    pub x: i32,
    pub y: i32,
}

/// The snake: current heading, body cells head-first, and the most recently
/// vacated tail cell (kept so a grow event can re-append it).
pub struct Snake {
    pub direction: Direction,
    pub body: Vec<Brick>,
    pub tail: Option<Brick>,
}

impl Snake {
    /// The body always holds at least the three cells it is built with.
    pub open spec fn wf(self) -> bool {
        self.body@.len() >= 3
    }

    /// The head cell: the front of the body.
    pub open spec fn head_spec(self) -> Brick {
        self.body@[0]
    }

    /// The head's coordinates leave room for a one-cell move in any
    /// direction without leaving the machine integer range.
    pub open spec fn head_in_move_range(self) -> bool {
        &&& i32::MIN < self.head_spec().x < i32::MAX
        &&& i32::MIN < self.head_spec().y < i32::MAX
    }

    /// The direction a move would use: the override if one is given, else
    /// the current heading.
    pub open spec fn moving_dir_spec(self, dir: Option<Direction>) -> Direction {
        match dir {
            Some(d) => d,
            None => self.direction,
        }
    }

    /// The x coordinate the head would move to.
    pub open spec fn next_head_x(self, dir: Option<Direction>) -> int {
        match self.moving_dir_spec(dir) {
            Direction::Left => self.head_spec().x - 1,
            Direction::Right => self.head_spec().x + 1,
            _ => self.head_spec().x as int,
        }
    }

    /// The y coordinate the head would move to.
    pub open spec fn next_head_y(self, dir: Option<Direction>) -> int {
        match self.moving_dir_spec(dir) {
            Direction::Up => self.head_spec().y - 1,
            Direction::Down => self.head_spec().y + 1,
            _ => self.head_spec().y as int,
        }
    }

    /// Whether (x, y) coincides with any body cell except the last one.
    /// The tail cell is excluded because it vacates its cell on the same
    /// tick this query is used for.
    pub open spec fn hits_body_except_tail(self, x: int, y: int) -> bool {
        exists|i: int|
            0 <= i < self.body@.len() - 1 && self.body@[i].x == x && self.body@[i].y == y
    }

    /// A fresh snake: three cells in a horizontal row with the head at
    /// (x + 2, y), heading Right, no vacated tail cell yet.
    pub fn new(x: i32, y: i32) -> (s: Snake)
        requires
            x <= i32::MAX - 2,
        ensures
            s.wf(),
            s.direction == Direction::Right,
            s.body@ == seq![
                Brick { x: (x + 2) as i32, y },
                Brick { x: (x + 1) as i32, y },
                Brick { x, y },
            ],
            s.tail is None,
    {
        let mut body: Vec<Brick> = Vec::new();
        body.push(Brick { x: x + 2, y });
        body.push(Brick { x: x + 1, y });
        body.push(Brick { x, y });
        proof {
            assert(body@ =~= seq![
                Brick { x: (x + 2) as i32, y },
                Brick { x: (x + 1) as i32, y },
                Brick { x, y },
            ]);
        }
        Snake { direction: Direction::Right, body, tail: None }
    }

    /// The coordinates of the head cell.
    pub fn head_position(&self) -> (r: (i32, i32))
        requires
            self.wf(),
        ensures
            r.0 == self.head_spec().x,
            r.1 == self.head_spec().y,
    {
        let head = self.body[0];
        (head.x, head.y)
    }

    /// The current heading.
    pub fn head_direction(&self) -> (r: Direction)
        ensures
            r == self.direction,
    {
        self.direction
    }

    /// Where the head would move, using the override if given, without
    /// mutating anything. Used for look-ahead collision checks.
    pub fn next_head(&self, dir: Option<Direction>) -> (r: (i32, i32))
        requires
            self.wf(),
            self.head_in_move_range(),
        ensures
            r.0 as int == self.next_head_x(dir),
            r.1 as int == self.next_head_y(dir),
    {
        let (head_x, head_y) = self.head_position();
        let moving_dir = match dir {
            Some(d) => d,
            None => self.direction,
        };
        match moving_dir {
            Direction::Up => (head_x, head_y - 1),
            Direction::Down => (head_x, head_y + 1),
            Direction::Left => (head_x - 1, head_y),
            Direction::Right => (head_x + 1, head_y),
        }
    }

    /// Advance one cell: the override (if given) becomes the heading, the
    /// new head cell is pushed to the front, the tail cell is popped off the
    /// back and recorded for a possible grow event. The caller is
    /// responsible for having rejected illegal moves beforehand.
    pub fn forward(&mut self, dir: Option<Direction>)
        requires
            old(self).wf(),
            old(self).head_in_move_range(),
        ensures
            final(self).wf(),
            final(self).direction == old(self).moving_dir_spec(dir),
            final(self).body@.len() == old(self).body@.len(),
            final(self).body@[0].x as int == old(self).next_head_x(dir),
            final(self).body@[0].y as int == old(self).next_head_y(dir),
            final(self).body@ == seq![final(self).body@[0]] + old(self).body@.drop_last(),
            final(self).tail == Some(old(self).body@.last()),
    {
        match dir {
            Some(d) => self.direction = d,
            None => (),
        }

        let (current_x, current_y) = self.head_position();

        let new_brick = match self.direction {
            Direction::Up => Brick { x: current_x, y: current_y - 1 },
            Direction::Down => Brick { x: current_x, y: current_y + 1 },
            Direction::Left => Brick { x: current_x - 1, y: current_y },
            Direction::Right => Brick { x: current_x + 1, y: current_y },
        };

        self.body.insert(0, new_brick);
        let removed_brick = self.body.pop();
        match removed_brick {
            Some(b) => self.tail = Some(b),
            None => (),
        }
        proof {
            assert(self.body@ =~= seq![self.body@[0]] + old(self).body@.drop_last());
        }
    }

    /// Grow by one cell: re-append the most recently vacated tail cell.
    /// Requires a preceding `forward` (the source of that cell).
    pub fn add_tail(&mut self)
        requires
            old(self).wf(),
            old(self).tail is Some,
        ensures
            final(self).wf(),
            final(self).direction == old(self).direction,
            final(self).body@ == old(self).body@.push(old(self).tail->0),
            final(self).tail == old(self).tail,
    {
        let brick = match self.tail {
            Some(b) => b,
            // Growing without a preceding forward is an engine bug: fail
            // loudly rather than grow toward an undefined cell.
            None => unreached(),
        };
        self.body.push(brick);
    }

    /// Whether (x, y) matches any body cell except the last one; see
    /// `hits_body_except_tail`. Used both for self-collision against the
    /// projected next head and for rejecting food placements.
    pub fn overlap_tail(&self, x: i32, y: i32) -> (r: bool)
        requires
            self.wf(),
        ensures
            r == self.hits_body_except_tail(x as int, y as int),
    {
        let end: usize = self.body.len() - 1;
        let mut i: usize = 0;
        while i < end
            invariant
                self.wf(),
                end == self.body@.len() - 1,
                i <= end,
                forall|j: int|
                    0 <= j < i ==> !(self.body@[j].x == x && self.body@[j].y == y),
            decreases end - i,
        {
            let b = self.body[i];
            if x == b.x && y == b.y {
                return true;
            }
            i += 1;
        }
        false
    }
}

} // verus!
