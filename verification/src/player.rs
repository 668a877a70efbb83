//! A paddle and the player who steers it.

use crate::fixed::{in_range, product, saturated, whole, Fixed};
use crate::geometry::{Point, Position2D, Vector, Velocity2D};
use crate::input::{is_held, Key};
use vstd::prelude::*;

verus! {

/// Raw value of the speed at which every paddle moves: 12 field units per second.
pub const PADDLE_SPEED: i64 = 12_000_000;

/// Model of a [`Player`].
pub struct PlayerView {
    pub extend_up: nat,
    pub extend_down: nat,
    pub key_up: Key,
    pub key_down: Key,
    pub position: Point,
    pub velocity: Vector,
}

impl PlayerView {
    /// How far the paddle moves in a time step `dt` while one key is held.
    pub open spec fn stride(self, dt: int) -> Vector {
        Vector { vx: product(self.velocity.vx, dt), vy: product(self.velocity.vy, dt) }
    }

    /// The lowest height that the paddle's centre may have.
    pub open spec fn floor(self) -> int {
        whole(self.extend_down)
    }

    /// The greatest height that the paddle's centre may have on a field of
    /// height `max_height`.
    pub open spec fn ceiling(self, max_height: int) -> int {
        saturated(max_height - whole(self.extend_up))
    }

    /// `y` brought down to the ceiling and then up to the floor: where the
    /// two cross, the floor wins.
    pub open spec fn confined(self, y: int, max_height: int) -> int {
        let lowered = if y <= self.ceiling(max_height) {
            y
        } else {
            self.ceiling(max_height)
        };
        if lowered >= self.floor() {
            lowered
        } else {
            self.floor()
        }
    }

    /// The paddle after one time step `dt` with the keys `keys` held down.
    ///
    /// The up key adds the stride and the down key takes it away again; then
    /// the height is confined to the field.
    pub open spec fn moved(self, max_height: int, keys: Seq<Key>, dt: int) -> PlayerView {
        let stride = self.stride(dt);
        let raised = if keys.contains(self.key_up) {
            Point {
                x: saturated(self.position.x + stride.vx),
                y: saturated(self.position.y + stride.vy),
            }
        } else {
            self.position
        };
        let lowered = if keys.contains(self.key_down) {
            Point { x: saturated(raised.x - stride.vx), y: saturated(raised.y - stride.vy) }
        } else {
            raised
        };
        PlayerView {
            position: Point { x: lowered.x, y: self.confined(lowered.y, max_height) },
            ..self
        }
    }

    /// Whether the paddle covers the cell of `p`: the paddle is one column
    /// of cells, `extend_down` below and `extend_up` above the cell of its centre.
    pub open spec fn covers(self, p: Point) -> bool {
        let own = self.position.cell();
        let cell = p.cell();
        &&& own.x == cell.x
        &&& own.y - self.extend_down <= cell.y
        &&& cell.y <= own.y + self.extend_up
    }
}

/// This struct represents a player in the pong game.
pub struct Player {
    extend_up: usize,
    extend_down: usize,
    key_up: Key,
    key_down: Key,
    position: Position2D,
    velocity: Velocity2D,
}

impl View for Player {
    type V = PlayerView;

    closed spec fn view(&self) -> PlayerView {
        PlayerView {
            extend_up: self.extend_up as nat,
            extend_down: self.extend_down as nat,
            key_up: self.key_up,
            key_down: self.key_down,
            position: self.position@,
            velocity: self.velocity@,
        }
    }
}

impl Player {
    /// Constructs a new `Player`.
    ///
    /// # Arguments
    /// * `extend_up` - The distance the player extends upwards.
    /// * `extend_down` - The distance the player extends downwards.
    /// * `key_up` - The `Key` for moving the player up.
    /// * `key_down` - The `Key` for moving the player down.
    /// * `position` - The starting `Position2D` of the player.
    ///
    /// # Returns
    /// A new `Player` instance with the velocity of every paddle.
    pub fn new(
        extend_up: usize,
        extend_down: usize,
        key_up: Key,
        key_down: Key,
        position: Position2D,
    ) -> (player: Player)
        ensures
            player@ == (PlayerView {
                extend_up: extend_up as nat,
                extend_down: extend_down as nat,
                key_up,
                key_down,
                position: position@,
                velocity: Vector { vx: 0, vy: PADDLE_SPEED as int },
            }),
    {
        let velocity = Velocity2D::new(Fixed::from_raw(0), Fixed::from_raw(PADDLE_SPEED));

        Player { extend_up, extend_down, key_up, key_down, position, velocity }
    }

    /// Updates the player's position based on the keys pressed and the elapsed time.
    ///
    /// # Arguments
    /// * `max_height` - The maximum height of the playing field.
    /// * `pressed_keys` - The keys that are currently pressed.
    /// * `dt` - The time since the last update, in seconds.
    ///
    /// # Remarks
    /// This method updates the `position` of the player based on the `velocity`, `key_up`, and `key_down` inputs.
    /// It also ensures that the player's position does not exceed the maximum height constraints.
    pub fn update_position(&mut self, max_height: Fixed, pressed_keys: &Vec<Key>, dt: Fixed)
        ensures
            final(self)@ == old(self)@.moved(max_height@, pressed_keys@, dt@),
    {
        let stride_x = self.velocity.vx.times(dt);
        let stride_y = self.velocity.vy.times(dt);
        if is_held(pressed_keys, self.key_up) {
            self.position.x = self.position.x.plus(stride_x);
            self.position.y = self.position.y.plus(stride_y);
        }
        if is_held(pressed_keys, self.key_down) {
            self.position.x = self.position.x.minus(stride_x);
            self.position.y = self.position.y.minus(stride_y);
        }
        self.position.y = self.position.y.min(
            max_height.minus(Fixed::from_whole(self.extend_up)),
        ).max(Fixed::from_whole(self.extend_down));
    }

    /// Checks for collision between the player and a given position.
    ///
    /// # Arguments
    /// * `position` - The `Position2D` for which the collision is to be checked.
    ///
    /// # Returns
    /// `true` if the player collides with the given position, otherwise `false`.
    pub fn collides_with(&self, position: Position2D) -> (hit: bool)
        ensures
            hit == self@.covers(position@),
    {
        let discrete_position = position.to_discrete();
        let own_discrete_position = self.position.to_discrete();

        own_discrete_position.y as u128 <= discrete_position.y as u128 + self.extend_down as u128
            && discrete_position.y as u128 <= own_discrete_position.y as u128
            + self.extend_up as u128 && own_discrete_position.x == discrete_position.x
    }

    /// Where the centre of the paddle is.
    pub fn position(&self) -> (p: Position2D)
        ensures
            p@ == self@.position,
    {
        self.position
    }

    /// Moves the centre of the paddle to `position`, wherever that is.
    pub fn set_position(&mut self, position: Position2D)
        ensures
            final(self)@ == (PlayerView { position: position@, ..old(self)@ }),
    {
        self.position = position;
    }
}

/// A paddle that has moved stands no lower than its floor, whatever the keys
/// and the time step; and where the field leaves room for the paddle, so
/// that the floor is not above the ceiling, it stands no higher than its
/// ceiling either.
pub proof fn lemma_moved_paddle_is_confined(
    player: PlayerView,
    max_height: int,
    keys: Seq<Key>,
    dt: int,
)
    ensures
        player.moved(max_height, keys, dt).position.y >= player.floor(),
        player.floor() <= player.ceiling(max_height) ==> player.moved(
            max_height,
            keys,
            dt,
        ).position.y <= player.ceiling(max_height),
{
}

/// Held together, the two keys cancel: as long as the step up stays within
/// the number range, the paddle stays in its column and at its height, but
/// for being confined to the field.
pub proof fn lemma_both_keys_cancel(player: PlayerView, max_height: int, keys: Seq<Key>, dt: int)
    requires
        keys.contains(player.key_up),
        keys.contains(player.key_down),
        in_range(player.position.x),
        in_range(player.position.y),
        in_range(player.position.x + player.stride(dt).vx),
        in_range(player.position.y + player.stride(dt).vy),
    ensures
        player.moved(max_height, keys, dt).position == (Point {
            x: player.position.x,
            y: player.confined(player.position.y, max_height),
        }),
{
}

/// A paddle whose velocity has no horizontal part, as that of every new
/// player, never leaves its column.
pub proof fn lemma_paddle_keeps_its_column(
    player: PlayerView,
    max_height: int,
    keys: Seq<Key>,
    dt: int,
)
    requires
        player.velocity.vx == 0,
        in_range(player.position.x),
    ensures
        player.moved(max_height, keys, dt).position.x == player.position.x,
{
    assert(0 * dt == 0);
}

/// Moving changes nothing of a paddle but where it stands: its reach, its
/// keys and its speed stay.
pub proof fn lemma_moved_paddle_keeps_its_shape(
    player: PlayerView,
    max_height: int,
    keys: Seq<Key>,
    dt: int,
)
    ensures
        player.moved(max_height, keys, dt) == (PlayerView {
            position: player.moved(max_height, keys, dt).position,
            ..player
        }),
{
}

} // verus!
