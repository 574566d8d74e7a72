use vstd::prelude::*;

use crate::player::{new_heading, Direction, Player, Point, START_SPEED_MS};

verus! {

/// Side length of the square grid, in cells; coordinates range over [0, SQUARES).
pub const SQUARES: i16 = 16;

/// Points awarded for each piece of food consumed.
pub const FOOD_POINTS: u32 = 100;

/// Whether a run is in progress or has ended.
#[derive(PartialEq, Eq, Structural, Clone, Copy, Debug)]
pub enum State {
    Running,
    GameOver,
}

/// Whether a cell lies on the grid.
pub open spec fn in_grid(p: Point) -> bool {
    &&& 0 <= p.0 < SQUARES
    &&& 0 <= p.1 < SQUARES
}

/// The whole game: score, run state, the player entity, and the food cell.
pub struct GameState {
    pub score: u32,
    pub state: State,
    pub player: Player,
    pub fruit: Point,
}

impl GameState {
    /// Well-formedness between ticks: the food lies on the grid, the speed
    /// never exceeds its starting value, and while the run is in progress
    /// the head lies on the grid and off the body.
    pub open spec fn wf(self) -> bool {
        &&& in_grid(self.fruit)
        &&& self.player.speed <= START_SPEED_MS
        &&& self.state == State::Running ==> {
            &&& in_grid(self.player.position)
            &&& !self.player.body@.contains(self.player.position)
        }
    }

    /// The cell the head moves to on the next tick.
    pub open spec fn next_head(self) -> (int, int) {
        (
            self.player.position.0 + self.player.direction.delta().0,
            self.player.position.1 + self.player.direction.delta().1,
        )
    }

    /// Whether the next tick's head lands on the food.
    pub open spec fn pickup(self) -> bool {
        self.next_head() == (self.fruit.0 as int, self.fruit.1 as int)
    }

    pub fn new() -> (g: GameState)
        ensures
            g.score == 0,
            g.state == State::Running,
            g.player.is_initial(),
            in_grid(g.fruit),
            g.wf(),
    {
        GameState {
            score: 0,
            state: State::Running,
            player: Player::new(),
            fruit: random_cell_pair(),
        }
    }

    /// The restart protocol: score back to 0, player back to its initial
    /// configuration, food re-sampled, and the run in progress again.
    pub fn reset(&mut self)
        ensures
            final(self).score == 0,
            final(self).state == State::Running,
            final(self).player.is_initial(),
            in_grid(final(self).fruit),
            final(self).wf(),
    {
        self.score = 0;
        self.state = State::Running;
        self.player.reset();
        self.fruit = random_cell_pair();
    }

    /// Applies a buffered input direction to the player, subject to the
    /// no-reversal rule.
    pub fn set_direction(&mut self, d: Direction)
        ensures
            final(self).player.direction == new_heading(old(self).player.direction, d),
            final(self).player.position == old(self).player.position,
            final(self).player.speed == old(self).player.speed,
            final(self).player.body@ == old(self).player.body@,
            final(self).score == old(self).score,
            final(self).state == old(self).state,
            final(self).fruit == old(self).fruit,
            old(self).wf() ==> final(self).wf(),
    {
        self.player.set_direction(d);
    }

    /// Whether the head has left the grid.
    pub fn player_out_of_bounds(&self) -> (r: bool)
        ensures
            r == !in_grid(self.player.position),
    {
        self.player.position.0 < 0 || self.player.position.1 < 0
            || self.player.position.0 >= SQUARES || self.player.position.1 >= SQUARES
    }

    /// One fixed-timestep tick of the running game:
    /// the player advances one cell; if the new head lands on the food, the
    /// food is re-sampled, the score rises by `FOOD_POINTS` and the tick
    /// interval shrinks to 9/10 of its value (net growth by one segment);
    /// otherwise the body slides (no growth, score and speed unchanged).
    /// The run ends if the new head lies off the grid or on the updated body.
    pub fn tick(&mut self)
        requires
            old(self).wf(),
            old(self).state == State::Running,
            old(self).score <= u32::MAX - FOOD_POINTS,
        ensures
            final(self).player.position.0 == old(self).next_head().0,
            final(self).player.position.1 == old(self).next_head().1,
            final(self).player.direction == old(self).player.direction,
            old(self).pickup() ==> {
                &&& final(self).score == old(self).score + FOOD_POINTS
                &&& final(self).player.speed == old(self).player.speed * 9 / 10
                &&& final(self).player.body@ == seq![old(self).player.position]
                    + old(self).player.body@
                &&& in_grid(final(self).fruit)
            },
            !old(self).pickup() ==> {
                &&& final(self).score == old(self).score
                &&& final(self).player.speed == old(self).player.speed
                &&& final(self).fruit == old(self).fruit
                &&& final(self).player.body@ == (seq![old(self).player.position]
                    + old(self).player.body@).drop_last()
                &&& final(self).player.body@.len() == old(self).player.body@.len()
            },
            final(self).state == (if !in_grid(final(self).player.position)
                || final(self).player.body@.contains(final(self).player.position) {
                State::GameOver
            } else {
                State::Running
            }),
            !in_grid(final(self).player.position) ==> final(self).state == State::GameOver,
            final(self).player.body@.contains(final(self).player.position) ==> final(self).state
                == State::GameOver,
            final(self).wf(),
    {
        self.player.advance();
        if self.player.intersects(&self.fruit) {
            self.fruit = random_cell_pair();
            self.score = self.score + FOOD_POINTS;
            self.player.speed = self.player.speed * 9 / 10;
        } else {
            self.player.shrink();
            proof {
                assert(self.player.body@ =~= (seq![old(self).player.position]
                    + old(self).player.body@).drop_last());
            }
        }
        if self.player_out_of_bounds() {
            self.state = State::GameOver;
        }
        if self.player.self_collides() {
            self.state = State::GameOver;
        }
    }
}

/// While the run is in progress, the head never rests on a body cell: a
/// well-formed running state cannot hold its head coordinate in its body.
pub proof fn lemma_running_head_off_body(g: GameState)
    requires
        g.wf(),
        g.state == State::Running,
    ensures
        !g.player.body@.contains(g.player.position),
{
}

/// Relies on macroquad::rand::gen_range (quad_rand 0.2's gen_range): for the
/// bounds 0 and 16 its result is `(16.0 * r) as i16` with `r` drawn from
/// [0, 1) in exact f64 steps of 2^-32, which truncates to a value in [0, 16).
#[verifier::external_body]
fn random_cell() -> (r: i16)
    ensures
        0 <= r < SQUARES,
{
    macroquad::rand::gen_range(0, SQUARES)
}

/// A uniformly sampled grid cell: one independent draw per axis.
fn random_cell_pair() -> (p: Point)
    ensures
        in_grid(p),
{
    (random_cell(), random_cell())
}

} // verus!
