use vstd::prelude::*;

verus! {

/// One grid cell, x then y, in grid units.
pub type Point = (i16, i16);

/// Tick interval a fresh player starts with, in milliseconds.
pub const START_SPEED_MS: u32 = 300;

/// Heading of the player entity.
#[derive(PartialEq, Eq, Structural, Clone, Copy, Debug)]
pub enum Direction {
    Up,
    Down,
    Left,
    Right,
}

impl Direction {
    /// The unit step one tick of movement takes in this direction.
    pub open spec fn delta(self) -> (int, int) {
        match self {
            Direction::Down => (0int, 1int),
            Direction::Up => (0int, -1int),
            Direction::Right => (1int, 0int),
            Direction::Left => (-1int, 0int),
        }
    }

    pub open spec fn spec_opposite(self) -> Direction {
        match self {
            Direction::Down => Direction::Up,
            Direction::Up => Direction::Down,
            Direction::Right => Direction::Left,
            Direction::Left => Direction::Right,
        }
    }

    /// The direction exactly opposite to this one.
    #[verifier::when_used_as_spec(spec_opposite)]
    pub fn opposite(self) -> (r: Direction)
        ensures
            r == self.spec_opposite(),
    {
        match self {
            Direction::Down => Direction::Up,
            Direction::Up => Direction::Down,
            Direction::Right => Direction::Left,
            Direction::Left => Direction::Right,
        }
    }

    /// The unit delta vector of a direction, as a grid point.
    pub fn from_direction(dir: &Direction) -> (r: Point)
        ensures
            r.0 == dir.delta().0,
            r.1 == dir.delta().1,
    {
        match dir {
            Direction::Down => (0, 1),
            Direction::Up => (0, -1),
            Direction::Right => (1, 0),
            Direction::Left => (-1, 0),
        }
    }
}

/// The heading a request leaves the player with: a request for the exact
/// opposite of the current heading is ignored.
pub open spec fn new_heading(cur: Direction, req: Direction) -> Direction {
    if req == cur.spec_opposite() {
        cur
    } else {
        req
    }
}

/// Requesting the exact opposite of the current heading is a no-op:
/// the heading stays as it was.
pub proof fn lemma_reverse_request_is_noop(d: Direction)
    ensures
        new_heading(d, d.spec_opposite()) == d,
{
}

/// The player-controlled entity: a head cell, a heading, a tick interval,
/// and the trail of cells its body occupies.
pub struct Player {
    pub position: Point,
    pub direction: Direction,
    /// Tick interval in milliseconds; smaller means faster.
    pub speed: u32,
    /// Cells the body occupies, the one most recently vacated by the head first.
    pub body: Vec<Point>,
}

impl Player {
    /// The configuration a player is created with and reset to:
    /// at the origin, heading Down, at the starting speed, with no body.
    pub open spec fn is_initial(self) -> bool {
        &&& self.position == (0i16, 0i16)
        &&& self.direction == Direction::Down
        &&& self.speed == START_SPEED_MS
        &&& self.body@ == Seq::<Point>::empty()
    }

    pub fn new() -> (p: Player)
        ensures
            p.is_initial(),
    {
        Player {
            position: (0, 0),
            direction: Direction::Down,
            speed: START_SPEED_MS,
            body: Vec::new(),
        }
    }

    pub fn reset(&mut self)
        ensures
            final(self).is_initial(),
    {
        self.position = (0, 0);
        self.direction = Direction::Down;
        self.speed = START_SPEED_MS;
        self.body = Vec::new();
    }

    /// Whether the head occupies the given cell.
    pub fn intersects(&self, other: &Point) -> (r: bool)
        ensures
            r == (self.position == *other),
    {
        self.position.0 == other.0 && self.position.1 == other.1
    }

    /// Whether the head occupies a cell of the body.
    pub fn self_collides(&self) -> (r: bool)
        ensures
            r == self.body@.contains(self.position),
    {
        let mut i: usize = 0;
        let mut hit: bool = false;
        while i < self.body.len()
            invariant
                i <= self.body@.len(),
                hit == (exists|j: int| 0 <= j < i && self.body@[j] == self.position),
            decreases self.body@.len() - i,
        {
            if self.body[i].0 == self.position.0 && self.body[i].1 == self.position.1 {
                assert(self.body@[i as int] == self.position);
                hit = true;
            }
            i += 1;
        }
        hit
    }

    /// Sets the heading to `d`, unless `d` is the exact opposite of the
    /// current heading, in which case nothing changes.
    pub fn set_direction(&mut self, d: Direction)
        ensures
            final(self).direction == new_heading(old(self).direction, d),
            final(self).position == old(self).position,
            final(self).speed == old(self).speed,
            final(self).body@ == old(self).body@,
    {
        if d != self.direction.opposite() {
            self.direction = d;
        }
    }

    /// One step of movement: the head's cell joins the front of the body and
    /// the head moves one cell along the current heading. The body is not
    /// truncated here; growth or sliding is the caller's choice, made by
    /// following up with `shrink` or not.
    pub fn advance(&mut self)
        requires
            i16::MIN < old(self).position.0 < i16::MAX,
            i16::MIN < old(self).position.1 < i16::MAX,
        ensures
            final(self).position.0 == old(self).position.0 + old(self).direction.delta().0,
            final(self).position.1 == old(self).position.1 + old(self).direction.delta().1,
            final(self).body@ == seq![old(self).position] + old(self).body@,
            final(self).body@.len() == old(self).body@.len() + 1,
            final(self).direction == old(self).direction,
            final(self).speed == old(self).speed,
    {
        self.body.insert(0, self.position);
        let d = Direction::from_direction(&self.direction);
        self.position = (self.position.0 + d.0, self.position.1 + d.1);
    }

    /// Drops the oldest body segment, if any: together with `advance` this
    /// models movement without growth.
    pub fn shrink(&mut self)
        ensures
            final(self).body@ == old(self).body@.take(
                if old(self).body@.len() == 0 { 0int } else { old(self).body@.len() - 1 },
            ),
            final(self).position == old(self).position,
            final(self).direction == old(self).direction,
            final(self).speed == old(self).speed,
    {
        self.body.pop();
        proof {
            if old(self).body@.len() == 0 {
                assert(self.body@ =~= old(self).body@.take(0));
            } else {
                assert(self.body@ =~= old(self).body@.take(old(self).body@.len() - 1));
            }
        }
    }
}

} // verus!
