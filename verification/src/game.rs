//! The state of a game and its step from one tick to the next.

use crate::ball::{
    escalated, is_serve, lemma_ball_never_slows, lemma_escalated_keeps_direction, speed_squared,
    Ball, BallView,
};
use crate::fixed::{
    in_range, lemma_product_keeps_sign, magnitude, quotient, whole, Fixed, LIMIT, SCALE,
};
use crate::geometry::{Point, Position2D, Vector, Velocity2D};
use crate::input::{is_held, Key};
use crate::player::{lemma_paddle_keeps_its_column, Player, PlayerView, PADDLE_SPEED};
use vstd::prelude::*;

verus! {

/// The key that serves the ball anew.
pub open spec fn reset_key() -> Key {
    Key::Char('r')
}

/// The key that moves the left paddle up.
pub open spec fn player1_key_up() -> Key {
    Key::Char('w')
}

/// The key that moves the left paddle down.
pub open spec fn player1_key_down() -> Key {
    Key::Char('s')
}

/// Model of a [`GameState`].
pub struct GameView {
    pub width: nat,
    pub height: nat,
    pub player1_score: nat,
    pub player2_score: nat,
    pub player1: PlayerView,
    pub player2: PlayerView,
    pub ball: BallView,
}

impl GameView {
    /// Where the left paddle stands at a serve: at the left edge, at half height.
    pub open spec fn home_of_player1(width: nat, height: nat) -> Point {
        Point { x: 0, y: quotient(whole(height), 2) }
    }

    /// Where the right paddle stands at a serve: at the right edge, at half height.
    pub open spec fn home_of_player2(width: nat, height: nat) -> Point {
        Point { x: whole(width), y: quotient(whole(height), 2) }
    }

    /// Where the ball lies at a serve: in the middle of the field.
    pub open spec fn home_of_ball(width: nat, height: nat) -> Point {
        Point { x: quotient(whole(width), 2), y: quotient(whole(height), 2) }
    }

    /// A new game: nothing scored, everything at home, the ball served with `serve`.
    pub open spec fn kickoff(
        width: nat,
        height: nat,
        extend_up: nat,
        extend_down: nat,
        serve: Vector,
    ) -> GameView {
        GameView {
            width,
            height,
            player1_score: 0,
            player2_score: 0,
            player1: PlayerView {
                extend_up,
                extend_down,
                key_up: player1_key_up(),
                key_down: player1_key_down(),
                position: Self::home_of_player1(width, height),
                velocity: Vector { vx: 0, vy: PADDLE_SPEED as int },
            },
            player2: PlayerView {
                extend_up,
                extend_down,
                key_up: Key::Up,
                key_down: Key::Down,
                position: Self::home_of_player2(width, height),
                velocity: Vector { vx: 0, vy: PADDLE_SPEED as int },
            },
            ball: BallView { position: Self::home_of_ball(width, height), velocity: serve },
        }
    }

    /// The game with paddles and ball back at home and the ball served with
    /// `serve`. The score stays.
    pub open spec fn served(self, serve: Vector) -> GameView {
        GameView {
            player1: PlayerView {
                position: Self::home_of_player1(self.width, self.height),
                ..self.player1
            },
            player2: PlayerView {
                position: Self::home_of_player2(self.width, self.height),
                ..self.player2
            },
            ball: BallView {
                position: Self::home_of_ball(self.width, self.height),
                velocity: serve,
            },
            ..self
        }
    }

    /// The game after the left paddle, then the right paddle, then the ball
    /// have moved by a time step `dt`; the ball meets the paddles where they
    /// stand after their move.
    pub open spec fn moved(self, keys: Seq<Key>, dt: int) -> GameView {
        let max_height = whole(self.height);
        let player1 = self.player1.moved(max_height, keys, dt);
        let player2 = self.player2.moved(max_height, keys, dt);
        GameView {
            player1,
            player2,
            ball: self.ball.advanced(max_height, player1, player2, dt),
            ..self
        }
    }

    /// Whether the ball, flying left or not at all sideways, is behind the left paddle.
    pub open spec fn player2_scores(self) -> bool {
        self.ball.velocity.vx <= 0 && self.ball.position.x < self.player1.position.x
    }

    /// Whether the ball, flying right, is behind the right paddle.
    pub open spec fn player1_scores(self) -> bool {
        self.ball.velocity.vx > 0 && self.ball.position.x > self.player2.position.x
    }

    /// The game with the point counted, if a side scores.
    pub open spec fn counted(self) -> GameView {
        if self.player2_scores() {
            GameView { player2_score: self.player2_score + 1, ..self }
        } else if self.player1_scores() {
            GameView { player1_score: self.player1_score + 1, ..self }
        } else {
            self
        }
    }

    /// The game after a tick, but for the serve that may be due: untouched
    /// while the reset key is held, else moved and the point counted.
    pub open spec fn played(self, keys: Seq<Key>, dt: int) -> GameView {
        if keys.contains(reset_key()) {
            self
        } else {
            self.moved(keys, dt).counted()
        }
    }

    /// Whether the tick ends with a serve: the reset key is held, or a side scores.
    pub open spec fn serve_due(self, keys: Seq<Key>, dt: int) -> bool {
        ||| keys.contains(reset_key())
        ||| self.moved(keys, dt).player2_scores()
        ||| self.moved(keys, dt).player1_scores()
    }

    /// Whether both paddles are within their reach of the field when they
    /// stand at home: no lower than their floor, no higher than their ceiling.
    pub open spec fn paddles_fit(self) -> bool {
        let max_height = whole(self.height);
        let home1 = Self::home_of_player1(self.width, self.height);
        let home2 = Self::home_of_player2(self.width, self.height);
        &&& self.player1.floor() <= home1.y <= self.player1.ceiling(max_height)
        &&& self.player2.floor() <= home2.y <= self.player2.ceiling(max_height)
    }

    /// The game after one tick with the keys `keys` held down, where a serve,
    /// if one is due, has the velocity `serve`.
    pub open spec fn stepped(self, keys: Seq<Key>, dt: int, serve: Vector) -> GameView {
        if self.serve_due(keys, dt) {
            self.played(keys, dt).served(serve)
        } else {
            self.played(keys, dt)
        }
    }
}

/// The `GameState` struct holds the entire state the pong game.
pub struct GameState {
    width: usize,
    height: usize,
    player1_score: usize,
    player2_score: usize,
    player1: Player,
    player2: Player,
    ball: Ball,
}

impl View for GameState {
    type V = GameView;

    closed spec fn view(&self) -> GameView {
        GameView {
            width: self.width as nat,
            height: self.height as nat,
            player1_score: self.player1_score as nat,
            player2_score: self.player2_score as nat,
            player1: self.player1@,
            player2: self.player2@,
            ball: self.ball@,
        }
    }
}

impl GameState {
    /// Constructs a new `GameState`.
    ///
    /// # Arguments
    /// * `width` - The width of the game field.
    /// * `height` - The height of the game field.
    /// * `extend_player_height_up` - The extension of player's reach upwards.
    /// * `extend_player_height_down` - The extension of player's reach downwards.
    ///
    /// # Returns
    /// A new `GameState` instance with initialized players and ball.
    pub fn new(
        width: usize,
        height: usize,
        extend_player_height_up: usize,
        extend_player_height_down: usize,
    ) -> (game: GameState)
        ensures
            is_serve(game@.ball.velocity),
            game@ == GameView::kickoff(
                width as nat,
                height as nat,
                extend_player_height_up as nat,
                extend_player_height_down as nat,
                game@.ball.velocity,
            ),
    {
        Self::with_serve(
            width,
            height,
            extend_player_height_up,
            extend_player_height_down,
            Ball::random_ball_velocity(),
        )
    }

    /// Constructs a new `GameState` whose ball is served with the velocity `serve`.
    pub fn with_serve(
        width: usize,
        height: usize,
        extend_player_height_up: usize,
        extend_player_height_down: usize,
        serve: Velocity2D,
    ) -> (game: GameState)
        ensures
            game@ == GameView::kickoff(
                width as nat,
                height as nat,
                extend_player_height_up as nat,
                extend_player_height_down as nat,
                serve@,
            ),
    {
        let player1 = Player::new(
            extend_player_height_up,
            extend_player_height_down,
            Key::Char('w'),
            Key::Char('s'),
            Self::initial_player1_position(width, height),
        );

        let player2 = Player::new(
            extend_player_height_up,
            extend_player_height_down,
            Key::Up,
            Key::Down,
            Self::initial_player2_position(width, height),
        );

        let ball = Ball::with_velocity(Self::initial_ball_position(width, height), serve);

        GameState { width, height, player1_score: 0, player2_score: 0, player1, player2, ball }
    }

    /// Updates the state of the game including player positions, ball position, and score based on the time elapsed and the pressed keys.
    ///
    /// While the reset key is held the tick is a serve and nothing else.
    /// Otherwise the left paddle moves, then the right one, then the ball,
    /// and a ball that is then behind a paddle gives the other side a point
    /// and is served anew. A serve is made with a random velocity, so the
    /// state after the call is the one that [`GameView::stepped`] gives for
    /// the velocity that the ball has then.
    ///
    /// # Arguments
    /// * `pressed_keys` - The keys currently pressed by the players.
    /// * `dt` - The time since the last update, in seconds.
    pub fn update(&mut self, pressed_keys: &Vec<Key>, dt: Fixed)
        requires
            old(self)@.player1_score < usize::MAX,
            old(self)@.player2_score < usize::MAX,
        ensures
            final(self)@ == old(self)@.stepped(pressed_keys@, dt@, final(self)@.ball.velocity),
            old(self)@.serve_due(pressed_keys@, dt@) ==> is_serve(final(self)@.ball.velocity),
    {
        if self.play(pressed_keys, dt) {
            self.reset_ball_and_players();
        }
    }

    /// Updates the state of the game as [`GameState::update`] does, but a
    /// serve that falls due is made with the velocity `serve`.
    pub fn update_with(&mut self, pressed_keys: &Vec<Key>, dt: Fixed, serve: Velocity2D)
        requires
            old(self)@.player1_score < usize::MAX,
            old(self)@.player2_score < usize::MAX,
        ensures
            final(self)@ == old(self)@.stepped(pressed_keys@, dt@, serve@),
    {
        if self.play(pressed_keys, dt) {
            self.reset_with(serve);
        }
    }

    /// Does all of a tick but the serve, and says whether a serve is due.
    fn play(&mut self, pressed_keys: &Vec<Key>, dt: Fixed) -> (serve_due: bool)
        requires
            old(self)@.player1_score < usize::MAX,
            old(self)@.player2_score < usize::MAX,
        ensures
            final(self)@ == old(self)@.played(pressed_keys@, dt@),
            serve_due == old(self)@.serve_due(pressed_keys@, dt@),
    {
        if is_held(pressed_keys, Key::Char('r')) {
            return true;
        }
        let max_height = Fixed::from_whole(self.height);
        self.player1.update_position(max_height, pressed_keys, dt);
        self.player2.update_position(max_height, pressed_keys, dt);

        self.ball.update_position(max_height, &self.player1, &self.player2, dt);

        self.update_score()
    }

    /// Counts the point if the ball is behind a paddle, and says whether it did.
    fn update_score(&mut self) -> (scored: bool)
        requires
            old(self)@.player1_score < usize::MAX,
            old(self)@.player2_score < usize::MAX,
        ensures
            final(self)@ == old(self)@.counted(),
            scored == (old(self)@.player2_scores() || old(self)@.player1_scores()),
    {
        let ball_x = self.ball.get_position().x.raw();
        let ball_vx = self.ball.get_velocity().vx.raw();
        if ball_vx <= 0 && ball_x < self.player1.position().x.raw() {
            self.player2_score += 1;
            true
        } else if ball_vx > 0 && ball_x > self.player2.position().x.raw() {
            self.player1_score += 1;
            true
        } else {
            false
        }
    }

    /// Puts paddles and ball back where a game starts and serves the ball
    /// with a random velocity.
    pub fn reset_ball_and_players(&mut self)
        ensures
            is_serve(final(self)@.ball.velocity),
            final(self)@ == old(self)@.served(final(self)@.ball.velocity),
    {
        self.reset_with(Ball::random_ball_velocity());
    }

    /// Puts paddles and ball back where a game starts and serves the ball
    /// with the velocity `serve`.
    pub fn reset_with(&mut self, serve: Velocity2D)
        ensures
            final(self)@ == old(self)@.served(serve@),
    {
        self.player1.set_position(Self::initial_player1_position(self.width, self.height));
        self.player2.set_position(Self::initial_player2_position(self.width, self.height));
        self.ball = Ball::with_velocity(
            Self::initial_ball_position(self.width, self.height),
            serve,
        );
    }

    fn initial_player1_position(width: usize, height: usize) -> (home: Position2D)
        ensures
            home@ == GameView::home_of_player1(width as nat, height as nat),
    {
        let x = Fixed::from_raw(0);
        let y = Fixed::from_whole(height).halved();

        Position2D::new(x, y)
    }

    fn initial_player2_position(width: usize, height: usize) -> (home: Position2D)
        ensures
            home@ == GameView::home_of_player2(width as nat, height as nat),
    {
        let x = Fixed::from_whole(width);
        let y = Fixed::from_whole(height).halved();

        Position2D::new(x, y)
    }

    fn initial_ball_position(width: usize, height: usize) -> (home: Position2D)
        ensures
            home@ == GameView::home_of_ball(width as nat, height as nat),
    {
        let x = Fixed::from_whole(width).halved();
        let y = Fixed::from_whole(height).halved();

        Position2D::new(x, y)
    }

    /// The width of the field.
    pub fn width(&self) -> (width: usize)
        ensures
            width == self@.width,
    {
        self.width
    }

    /// The height of the field.
    pub fn height(&self) -> (height: usize)
        ensures
            height == self@.height,
    {
        self.height
    }

    /// The points of the left player.
    pub fn player1_score(&self) -> (score: usize)
        ensures
            score == self@.player1_score,
    {
        self.player1_score
    }

    /// The points of the right player.
    pub fn player2_score(&self) -> (score: usize)
        ensures
            score == self@.player2_score,
    {
        self.player2_score
    }

    /// The left player.
    pub fn player1(&self) -> (player: &Player)
        ensures
            player@ == self@.player1,
    {
        &self.player1
    }

    /// The right player.
    pub fn player2(&self) -> (player: &Player)
        ensures
            player@ == self@.player2,
    {
        &self.player2
    }

    /// The ball.
    pub fn ball(&self) -> (ball: &Ball)
        ensures
            ball@ == self@.ball,
    {
        &self.ball
    }
}

/// On a field that both paddles fit on, each paddle is within its reach of
/// the field after every tick, whatever keys are held and however long the
/// time step: no lower than its floor, and no higher than its ceiling.
pub proof fn lemma_paddles_stay_in_reach(game: GameView, keys: Seq<Key>, dt: int, serve: Vector)
    requires
        game.paddles_fit(),
    ensures
        ({
            let after = game.stepped(keys, dt, serve);
            let max_height = whole(game.height);
            &&& after.player1.floor() <= after.player1.position.y <= after.player1.ceiling(
                max_height,
            )
            &&& after.player2.floor() <= after.player2.position.y <= after.player2.ceiling(
                max_height,
            )
            &&& after.paddles_fit()
        }),
{
}

/// A tick changes the score by one point at most: when no reset is asked
/// for and the ball, flying left, has come behind the left paddle, the right
/// player gains exactly one point, and the ball is served anew; when the
/// ball, flying right, has come behind the right paddle, the left player
/// gains exactly one point, and the ball is served anew; in every other tick
/// the score stays.
pub proof fn lemma_goal_counts_once(game: GameView, keys: Seq<Key>, dt: int, serve: Vector)
    ensures
        ({
            let after = game.stepped(keys, dt, serve);
            let moved = game.moved(keys, dt);
            let asked = keys.contains(reset_key());
            &&& !asked && moved.player2_scores() ==> after == (GameView {
                player2_score: game.player2_score + 1,
                ..moved
            }).served(serve)
            &&& !asked && moved.player2_scores() ==> {
                &&& after.player2_score == game.player2_score + 1
                &&& after.player1_score == game.player1_score
            }
            &&& !asked && moved.player1_scores() ==> after == (GameView {
                player1_score: game.player1_score + 1,
                ..moved
            }).served(serve)
            &&& !asked && moved.player1_scores() ==> {
                &&& after.player1_score == game.player1_score + 1
                &&& after.player2_score == game.player2_score
            }
            &&& asked || (!moved.player1_scores() && !moved.player2_scores()) ==> {
                &&& after.player1_score == game.player1_score
                &&& after.player2_score == game.player2_score
            }
        }),
{
}

/// While the ball is in play it never slows down: in a tick that ends
/// without a serve, neither component of the ball's velocity loses
/// magnitude, and so the speed does not drop.
pub proof fn lemma_ball_in_play_never_slows(
    game: GameView,
    keys: Seq<Key>,
    dt: int,
    serve: Vector,
)
    requires
        in_range(game.ball.velocity.vx),
        in_range(game.ball.velocity.vy),
        !game.serve_due(keys, dt),
    ensures
        ({
            let after = game.stepped(keys, dt, serve);
            &&& magnitude(after.ball.velocity.vx) == escalated(magnitude(game.ball.velocity.vx))
            &&& magnitude(after.ball.velocity.vy) == escalated(magnitude(game.ball.velocity.vy))
            &&& speed_squared(after.ball.velocity) >= speed_squared(game.ball.velocity)
        }),
{
    let max_height = whole(game.height);
    lemma_ball_never_slows(
        game.ball,
        max_height,
        game.player1.moved(max_height, keys, dt),
        game.player2.moved(max_height, keys, dt),
        dt,
    );
}

/// A ball in play stays between the paddles: where the paddles keep their
/// columns and the ball lies between those columns, no further left than the
/// left paddle and no further right than the right one, it still does after
/// a tick that ends without a serve.
pub proof fn lemma_ball_in_play_stays_between_paddles(
    game: GameView,
    keys: Seq<Key>,
    dt: int,
    serve: Vector,
)
    requires
        dt >= 0,
        in_range(game.ball.position.x),
        in_range(game.ball.velocity.vx),
        in_range(game.player1.position.x),
        in_range(game.player2.position.x),
        game.player1.velocity.vx == 0,
        game.player2.velocity.vx == 0,
        game.player1.position.x <= game.ball.position.x <= game.player2.position.x,
        !game.serve_due(keys, dt),
    ensures
        ({
            let after = game.stepped(keys, dt, serve);
            &&& after.player1.position.x == game.player1.position.x
            &&& after.player2.position.x == game.player2.position.x
            &&& after.player1.position.x <= after.ball.position.x <= after.player2.position.x
        }),
{
    let max_height = whole(game.height);
    lemma_paddle_keeps_its_column(game.player1, max_height, keys, dt);
    lemma_paddle_keeps_its_column(game.player2, max_height, keys, dt);
    lemma_product_keeps_sign(game.ball.velocity.vx, dt);
    lemma_product_keeps_sign(-game.ball.velocity.vx, dt);
    lemma_escalated_keeps_direction(game.ball.velocity.vx);
    lemma_escalated_keeps_direction(-game.ball.velocity.vx);
}

/// A tick that ends with a serve, asked for or after a goal, leaves the ball
/// in the middle of the field with the velocity of the serve, and each
/// paddle at its edge at half height, so that the ball lies between the
/// paddles. The field and the paddles' reach, keys and speed stay as they
/// were.
pub proof fn lemma_serve_restores_layout(game: GameView, keys: Seq<Key>, dt: int, serve: Vector)
    requires
        game.serve_due(keys, dt),
    ensures
        ({
            let after = game.stepped(keys, dt, serve);
            &&& after.ball.position == GameView::home_of_ball(game.width, game.height)
            &&& after.ball.velocity == serve
            &&& after.player1 == (PlayerView {
                position: GameView::home_of_player1(game.width, game.height),
                ..game.player1
            })
            &&& after.player2 == (PlayerView {
                position: GameView::home_of_player2(game.width, game.height),
                ..game.player2
            })
            &&& after.width == game.width
            &&& after.height == game.height
            &&& after.player1.position.x <= after.ball.position.x <= after.player2.position.x
        }),
{
}

/// On a field whose width and height the number range holds, the homes are
/// where the names say: the ball's at half the width and half the height,
/// the paddles' at the left and the right edge at half the height.
pub proof fn lemma_homes_are_central(width: nat, height: nat)
    requires
        width * SCALE <= LIMIT,
        height * SCALE <= LIMIT,
    ensures
        GameView::home_of_ball(width, height) == (Point {
            x: width * (SCALE / 2),
            y: height * (SCALE / 2),
        }),
        GameView::home_of_player1(width, height) == (Point { x: 0, y: height * (SCALE / 2) }),
        GameView::home_of_player2(width, height) == (Point {
            x: width * SCALE,
            y: height * (SCALE / 2),
        }),
{
    assert((width * 1_000_000) / 2 == width * 500_000);
    assert((height * 1_000_000) / 2 == height * 500_000);
}

} // verus!
