//! The ball: how it flies, bounces and speeds up.

use crate::fixed::{
    in_range, lemma_magnitude_of_product, lemma_product_keeps_sign, magnitude, product, saturated,
    scaled, Fixed,
};
use crate::geometry::{Point, Position2D, Vector, Velocity2D};
use crate::player::{Player, PlayerView};
use crate::random::{random_bool, random_in_range};
use vstd::prelude::*;

verus! {

/// Defines how much the velocity of the ball should increase with each frame:
/// the raw value of the factor 1.003.
pub const VELOCITY_INCREASE: i64 = 1_003_000;

/// Raw value of the slowest horizontal speed of a serve: 10 field units per second.
pub const SERVE_SLOWEST: i64 = 10_000_000;

/// Raw value of the bound that the horizontal speed of a serve stays under.
pub const SERVE_FASTEST: i64 = 20_000_000;

/// Raw value of the bound that the vertical speed of a serve stays under.
pub const SERVE_STEEPEST: i64 = 6_000_000;

/// Whether `v` is a velocity that a serve may have: horizontally at least
/// [`SERVE_SLOWEST`] and under [`SERVE_FASTEST`] to either side, vertically
/// from minus [`SERVE_STEEPEST`] up to, but not including, [`SERVE_STEEPEST`].
pub open spec fn is_serve(v: Vector) -> bool {
    &&& (SERVE_SLOWEST <= v.vx < SERVE_FASTEST || -SERVE_FASTEST <= v.vx < -SERVE_SLOWEST)
    &&& -SERVE_STEEPEST <= v.vy < SERVE_STEEPEST
}

/// The raw value of a speed after one tick's increase.
pub open spec fn escalated(v: int) -> int {
    product(v, VELOCITY_INCREASE as int)
}

/// The square of the speed that the velocity `v` has.
pub open spec fn speed_squared(v: Vector) -> int {
    v.vx * v.vx + v.vy * v.vy
}

/// Model of a [`Ball`].
pub struct BallView {
    pub position: Point,
    pub velocity: Vector,
}

impl BallView {
    /// Where the ball would be after a time step `dt` at its present velocity.
    pub open spec fn next_position(self, dt: int) -> Point {
        Point {
            x: saturated(self.position.x + product(self.velocity.vx, dt)),
            y: saturated(self.position.y + product(self.velocity.vy, dt)),
        }
    }

    /// Whether the next position lies on or beyond the bottom or the top wall.
    pub open spec fn wall_ahead(self, max_height: int, dt: int) -> bool {
        self.next_position(dt).y <= 0 || self.next_position(dt).y >= max_height
    }

    /// The ball with its horizontal speed turned round.
    pub open spec fn turned_back(self) -> BallView {
        BallView { velocity: Vector { vx: -self.velocity.vx, ..self.velocity }, ..self }
    }

    /// The ball with its vertical speed turned round.
    pub open spec fn turned_over(self) -> BallView {
        BallView { velocity: Vector { vy: -self.velocity.vy, ..self.velocity }, ..self }
    }

    /// The ball after the wall check: turned over where a wall is ahead.
    pub open spec fn after_wall(self, max_height: int, dt: int) -> BallView {
        if self.wall_ahead(max_height, dt) {
            self.turned_over()
        } else {
            self
        }
    }

    /// The point where the line of flight crosses the column `x == column`.
    pub open spec fn crossing(self, column: int) -> Point
        recommends
            self.velocity.vx != 0,
    {
        Point {
            x: column,
            y: saturated(
                self.position.y + scaled(
                    self.velocity.vy,
                    saturated(column - self.position.x),
                    self.velocity.vx,
                ),
            ),
        }
    }

    /// Whether the ball, flying left, is sent back by the left paddle: it
    /// reaches the paddle's column within the step, and the paddle covers
    /// the point where it does. A ball with no horizontal speed meets no paddle.
    pub open spec fn meets_player1(self, player1: PlayerView, dt: int) -> bool {
        &&& self.velocity.vx != 0
        &&& self.crossing(player1.position.x).x >= self.next_position(dt).x
        &&& player1.covers(self.crossing(player1.position.x))
    }

    /// Whether the ball, flying right, is sent back by the right paddle.
    pub open spec fn meets_player2(self, player2: PlayerView, dt: int) -> bool {
        &&& self.velocity.vx != 0
        &&& self.crossing(player2.position.x).x <= self.next_position(dt).x
        &&& player2.covers(self.crossing(player2.position.x))
    }

    /// The ball after the paddle check: turned back where the paddle that it
    /// flies toward sends it back.
    pub open spec fn after_paddles(self, player1: PlayerView, player2: PlayerView, dt: int)
        -> BallView {
        if self.velocity.vx <= 0 {
            if self.meets_player1(player1, dt) {
                self.turned_back()
            } else {
                self
            }
        } else {
            if self.meets_player2(player2, dt) {
                self.turned_back()
            } else {
                self
            }
        }
    }

    /// The ball moved on by a time step `dt` and sped up.
    pub open spec fn launched(self, dt: int) -> BallView {
        BallView {
            position: self.next_position(dt),
            velocity: Vector {
                vx: escalated(self.velocity.vx),
                vy: escalated(self.velocity.vy),
            },
        }
    }

    /// The ball after one tick: wall check, paddle check, the move with the
    /// velocity that the checks left, and the increase in speed.
    pub open spec fn advanced(
        self,
        max_height: int,
        player1: PlayerView,
        player2: PlayerView,
        dt: int,
    ) -> BallView {
        self.after_wall(max_height, dt).after_paddles(player1, player2, dt).launched(dt)
    }
}

/// This struct represents the ball used in the pong game.
pub struct Ball {
    position: Position2D,
    velocity: Velocity2D,
}

impl View for Ball {
    type V = BallView;

    closed spec fn view(&self) -> BallView {
        BallView { position: self.position@, velocity: self.velocity@ }
    }
}

impl Ball {
    /// Constructs a new `Ball` with a random velocity.
    ///
    /// # Arguments
    /// * `position` - The starting `Position2D` of the ball.
    ///
    /// # Returns
    /// A new `Ball` instance.
    pub fn new(position: Position2D) -> (ball: Ball)
        ensures
            ball@.position == position@,
            is_serve(ball@.velocity),
    {
        Ball { position, velocity: Self::random_ball_velocity() }
    }

    /// Constructs a new `Ball` with the velocity given.
    pub fn with_velocity(position: Position2D, velocity: Velocity2D) -> (ball: Ball)
        ensures
            ball@ == (BallView { position: position@, velocity: velocity@ }),
    {
        Ball { position, velocity }
    }

    pub fn get_position(&self) -> (position: Position2D)
        ensures
            position@ == self@.position,
    {
        self.position
    }

    pub fn get_velocity(&self) -> (velocity: Velocity2D)
        ensures
            velocity@ == self@.velocity,
    {
        self.velocity
    }

    /// Updates the ball's position based on its velocity, collision with walls or players, and time passed.
    ///
    /// # Arguments
    /// * `max_height` - The maximum height of the game field to handle vertical wall collisions.
    /// * `player1` - A reference to the first player's `Player` instance for potential collision detection.
    /// * `player2` - A reference to the second player's `Player` instance for potential collision detection.
    /// * `dt` - The time since the last update, in seconds.
    ///
    /// # Remarks
    /// This method updates the `position` of the ball and handles collision logic with the walls and players.
    /// The steps, in this order: a wall ahead turns the vertical speed
    /// round; the paddle that the ball flies toward turns the horizontal
    /// speed round where it meets the ball; the ball moves with the velocity
    /// that this left; both components of the velocity grow by
    /// [`VELOCITY_INCREASE`]. A ball with no horizontal speed at all flies
    /// toward no paddle, and the paddle check is skipped for it.
    pub fn update_position(
        &mut self,
        max_height: Fixed,
        player1: &Player,
        player2: &Player,
        dt: Fixed,
    )
        ensures
            final(self)@ == old(self)@.advanced(max_height@, player1@, player2@, dt@),
    {
        self.update_if_collision_with_wall(max_height, dt);

        if self.velocity.vx.raw() <= 0 {
            self.update_if_collision_with_player1(player1, dt);
        } else {
            self.update_if_collision_with_player2(player2, dt);
        }

        self.position = self.calc_next_position(dt);
        self.velocity.vx = self.velocity.vx.times(Fixed::from_raw(VELOCITY_INCREASE));
        self.velocity.vy = self.velocity.vy.times(Fixed::from_raw(VELOCITY_INCREASE));
    }

    fn update_if_collision_with_wall(&mut self, max_height: Fixed, dt: Fixed)
        ensures
            final(self)@ == old(self)@.after_wall(max_height@, dt@),
    {
        let next_position = self.calc_next_position(dt);
        if next_position.y.raw() <= 0 || next_position.y.raw() >= max_height.raw() {
            self.velocity.vy = self.velocity.vy.negated();
        }
    }

    fn update_if_collision_with_player1(&mut self, player1: &Player, dt: Fixed)
        ensures
            final(self)@ == if old(self)@.meets_player1(player1@, dt@) {
                old(self)@.turned_back()
            } else {
                old(self)@
            },
    {
        if let Some(possible_collision_point) = self.calculate_collision_point_with_player(
            player1,
        ) {
            let next_position = self.calc_next_position(dt);

            if possible_collision_point.x.raw() >= next_position.x.raw() && player1.collides_with(
                possible_collision_point,
            ) {
                self.velocity.vx = self.velocity.vx.negated();
            }
        }
    }

    fn update_if_collision_with_player2(&mut self, player2: &Player, dt: Fixed)
        ensures
            final(self)@ == if old(self)@.meets_player2(player2@, dt@) {
                old(self)@.turned_back()
            } else {
                old(self)@
            },
    {
        if let Some(possible_collision_point) = self.calculate_collision_point_with_player(
            player2,
        ) {
            let next_position = self.calc_next_position(dt);

            if possible_collision_point.x.raw() <= next_position.x.raw() && player2.collides_with(
                possible_collision_point,
            ) {
                self.velocity.vx = self.velocity.vx.negated();
            }
        }
    }

    /// The point where the line of flight crosses the column of the player,
    /// or nothing for a ball without horizontal speed, whose line of flight
    /// crosses no column.
    fn calculate_collision_point_with_player(&self, player: &Player) -> (point: Option<Position2D>)
        ensures
            self@.velocity.vx == 0 ==> point.is_none(),
            self@.velocity.vx != 0 ==> point.is_some() && point.unwrap()@ == self@.crossing(
                player@.position.x,
            ),
    {
        if self.velocity.vx.raw() == 0 {
            return None;
        }
        let column = player.position().x;
        let run = column.minus(self.position.x);
        let rise = self.velocity.vy.scaled_by(run, self.velocity.vx);
        Some(Position2D::new(column, self.position.y.plus(rise)))
    }

    fn calc_next_position(&self, dt: Fixed) -> (next: Position2D)
        ensures
            next@ == self@.next_position(dt@),
    {
        let next_position_x = self.position.x.plus(self.velocity.vx.times(dt));
        let next_position_y = self.position.y.plus(self.velocity.vy.times(dt));
        Position2D::new(next_position_x, next_position_y)
    }

    /// Generates a random velocity for the ball when it is initialized or reset.
    ///
    /// # Returns
    /// A `Velocity2D` representing a random velocity within a specified range.
    pub fn random_ball_velocity() -> (velocity: Velocity2D)
        ensures
            is_serve(velocity@),
    {
        let vx = match random_bool() {
            true => random_in_range(SERVE_SLOWEST, SERVE_FASTEST),
            false => random_in_range(-SERVE_FASTEST, -SERVE_SLOWEST),
        };
        let vy = random_in_range(-SERVE_STEEPEST, SERVE_STEEPEST);
        Velocity2D::new(Fixed::from_raw(vx), Fixed::from_raw(vy))
    }
}

/// The increase in speed keeps the sign of a speed, treats both directions
/// alike, and never lowers the magnitude.
pub proof fn lemma_escalated_keeps_direction(v: int)
    requires
        in_range(v),
    ensures
        escalated(-v) == -escalated(v),
        magnitude(escalated(v)) == escalated(magnitude(v)),
        magnitude(escalated(v)) >= magnitude(v),
        v > 0 ==> escalated(v) > 0,
        v < 0 ==> escalated(v) < 0,
        v == 0 ==> escalated(v) == 0,
{
    lemma_magnitude_of_product(v, VELOCITY_INCREASE as int);
    lemma_magnitude_of_product(-v, VELOCITY_INCREASE as int);
    let m = magnitude(v);
    assert((m * 1_003_000) / 1_000_000 >= m);
}

/// The ball never slows down: in every tick the magnitude of each component
/// of its velocity grows by the factor [`VELOCITY_INCREASE`], rounded toward
/// zero and stopped at the bound of the number range, whether the ball
/// bounced or not. So neither magnitude drops, and the speed does not either.
pub proof fn lemma_ball_never_slows(
    ball: BallView,
    max_height: int,
    player1: PlayerView,
    player2: PlayerView,
    dt: int,
)
    requires
        in_range(ball.velocity.vx),
        in_range(ball.velocity.vy),
    ensures
        ({
            let after = ball.advanced(max_height, player1, player2, dt);
            &&& magnitude(after.velocity.vx) == escalated(magnitude(ball.velocity.vx))
            &&& magnitude(after.velocity.vy) == escalated(magnitude(ball.velocity.vy))
            &&& magnitude(after.velocity.vx) >= magnitude(ball.velocity.vx)
            &&& magnitude(after.velocity.vy) >= magnitude(ball.velocity.vy)
            &&& speed_squared(after.velocity) >= speed_squared(ball.velocity)
        }),
{
    let after = ball.advanced(max_height, player1, player2, dt);
    lemma_escalated_keeps_direction(ball.velocity.vx);
    lemma_escalated_keeps_direction(-ball.velocity.vx);
    lemma_escalated_keeps_direction(ball.velocity.vy);
    lemma_escalated_keeps_direction(-ball.velocity.vy);
    lemma_square_grows_with_magnitude(ball.velocity.vx, after.velocity.vx);
    lemma_square_grows_with_magnitude(ball.velocity.vy, after.velocity.vy);
}

/// Of two numbers, the one of greater magnitude has the greater square.
proof fn lemma_square_grows_with_magnitude(a: int, b: int)
    requires
        magnitude(a) <= magnitude(b),
    ensures
        a * a <= b * b,
{
    assert(a * a <= b * b) by (nonlinear_arith)
        requires
            (if a < 0 { -a } else { a }) <= (if b < 0 { -b } else { b }),
    ;
}

/// Without a bounce the velocity keeps its direction: a ball with no wall
/// ahead leaves the tick with its vertical speed increased, and a ball that
/// meets no paddle with its horizontal speed increased.
pub proof fn lemma_free_flight_keeps_direction(
    ball: BallView,
    max_height: int,
    player1: PlayerView,
    player2: PlayerView,
    dt: int,
)
    ensures
        ({
            let after = ball.advanced(max_height, player1, player2, dt);
            let checked = ball.after_wall(max_height, dt);
            &&& !ball.wall_ahead(max_height, dt) ==> after.velocity.vy == escalated(
                ball.velocity.vy,
            )
            &&& !checked.meets_player1(player1, dt) && !checked.meets_player2(player2, dt)
                ==> after.velocity.vx == escalated(ball.velocity.vx)
        }),
{
}

/// Wall bounce: a ball whose next position lies on or beyond the bottom or
/// the top wall leaves the tick with its vertical speed turned round, so a
/// ball that fell rises and a ball that rose falls.
pub proof fn lemma_wall_turns_ball_over(
    ball: BallView,
    max_height: int,
    player1: PlayerView,
    player2: PlayerView,
    dt: int,
)
    requires
        in_range(ball.velocity.vy),
        ball.wall_ahead(max_height, dt),
    ensures
        ({
            let after = ball.advanced(max_height, player1, player2, dt);
            &&& after.velocity.vy == -escalated(ball.velocity.vy)
            &&& ball.velocity.vy < 0 ==> after.velocity.vy > 0
            &&& ball.velocity.vy > 0 ==> after.velocity.vy < 0
        }),
{
    lemma_escalated_keeps_direction(ball.velocity.vy);
}

/// Paddle bounce on the left: a ball that flies left and, after the wall
/// check, is met by the left paddle leaves the tick flying right; one whose
/// line of flight crosses the paddle's column in a cell that the paddle does
/// not cover flies on to the left.
pub proof fn lemma_player1_turns_ball_back(
    ball: BallView,
    max_height: int,
    player1: PlayerView,
    player2: PlayerView,
    dt: int,
)
    requires
        in_range(ball.velocity.vx),
        ball.velocity.vx < 0,
    ensures
        ({
            let after = ball.advanced(max_height, player1, player2, dt);
            let checked = ball.after_wall(max_height, dt);
            &&& checked.meets_player1(player1, dt) ==> after.velocity.vx == -escalated(
                ball.velocity.vx,
            ) && after.velocity.vx > 0
            &&& !player1.covers(checked.crossing(player1.position.x)) ==> after.velocity.vx
                == escalated(ball.velocity.vx) && after.velocity.vx < 0
        }),
{
    lemma_escalated_keeps_direction(ball.velocity.vx);
}

/// Paddle bounce on the right: a ball that flies right and, after the wall
/// check, is met by the right paddle leaves the tick flying left; one whose
/// line of flight crosses the paddle's column in a cell that the paddle does
/// not cover flies on to the right.
pub proof fn lemma_player2_turns_ball_back(
    ball: BallView,
    max_height: int,
    player1: PlayerView,
    player2: PlayerView,
    dt: int,
)
    requires
        in_range(ball.velocity.vx),
        ball.velocity.vx > 0,
    ensures
        ({
            let after = ball.advanced(max_height, player1, player2, dt);
            let checked = ball.after_wall(max_height, dt);
            &&& checked.meets_player2(player2, dt) ==> after.velocity.vx == -escalated(
                ball.velocity.vx,
            ) && after.velocity.vx < 0
            &&& !player2.covers(checked.crossing(player2.position.x)) ==> after.velocity.vx
                == escalated(ball.velocity.vx) && after.velocity.vx > 0
        }),
{
    lemma_escalated_keeps_direction(ball.velocity.vx);
}

/// The ball cannot pass through a paddle, however fast it flies: a ball that
/// flies left from no further left than the left paddle, on a line that
/// crosses the paddle's column in a cell that the paddle covers, does not
/// end the tick behind the paddle.
pub proof fn lemma_ball_cannot_pass_player1(
    ball: BallView,
    max_height: int,
    player1: PlayerView,
    player2: PlayerView,
    dt: int,
)
    requires
        in_range(ball.position.x),
        in_range(ball.velocity.vx),
        in_range(player1.position.x),
        dt >= 0,
        ball.velocity.vx < 0,
        ball.position.x >= player1.position.x,
        player1.covers(ball.after_wall(max_height, dt).crossing(player1.position.x)),
    ensures
        ball.advanced(max_height, player1, player2, dt).position.x >= player1.position.x,
{
    lemma_product_keeps_sign(ball.velocity.vx, dt);
    lemma_product_keeps_sign(-ball.velocity.vx, dt);
}

/// The mirror image of [`lemma_ball_cannot_pass_player1`]: a ball that flies
/// right from no further right than the right paddle, on a line that crosses
/// the paddle's column in a cell that the paddle covers, does not end the
/// tick behind the paddle.
pub proof fn lemma_ball_cannot_pass_player2(
    ball: BallView,
    max_height: int,
    player1: PlayerView,
    player2: PlayerView,
    dt: int,
)
    requires
        in_range(ball.position.x),
        in_range(ball.velocity.vx),
        in_range(player2.position.x),
        dt >= 0,
        ball.velocity.vx > 0,
        ball.position.x <= player2.position.x,
        player2.covers(ball.after_wall(max_height, dt).crossing(player2.position.x)),
    ensures
        ball.advanced(max_height, player1, player2, dt).position.x <= player2.position.x,
{
    lemma_product_keeps_sign(ball.velocity.vx, dt);
    lemma_product_keeps_sign(-ball.velocity.vx, dt);
}

} // verus!
