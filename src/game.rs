//! Game state: players with a position, a size and a speed.
//!
//! Positions and sizes are fixed-point: `STEPS_PER_UNIT` steps make one
//! clip-space unit.

use vstd::prelude::*;
use crate::input::GameInput;

verus! {

/// Steps in one clip-space unit.
pub const STEPS_PER_UNIT: i32 = 1000;

/// Side of a new player, in steps.
pub const PLAYER_SIZE: i32 = 200;

/// Speed of a new player, in steps.
pub const PLAYER_VELOCITY: i32 = 500;

/// Distance a player moves per frame along each held direction, in steps.
pub const FRAME_STEP: i32 = 50;

/// The `i32` nearest to `v`.
pub open spec fn clamp_i32(v: int) -> i32 {
    if v < i32::MIN {
        i32::MIN
    } else if v > i32::MAX {
        i32::MAX
    } else {
        v as i32
    }
}

/// The signed step along one axis: `+v` for the positive direction, `-v`
/// for the negative one, nothing for both or neither.
pub open spec fn axis_step(positive: bool, negative: bool, v: int) -> int {
    (if positive { v } else { 0 }) - (if negative { v } else { 0 })
}

/// A player: the centre of its rectangle, the rectangle's full width and
/// height, and its speed.
#[derive(Clone, Copy, Debug)]
pub struct Player {
    pub position: [i32; 2],
    pub size: [i32; 2],
    pub velocity: i32,
}

/// Where `p` stands after one frame of `input`: each axis moves by
/// `FRAME_STEP` toward each held direction, saturating at the ends of `i32`.
pub open spec fn moved(p: Player, input: GameInput) -> Player {
    Player {
        position: [
            clamp_i32(p.position[0] + axis_step(input.right, input.left, FRAME_STEP as int)),
            clamp_i32(p.position[1] + axis_step(input.up, input.down, FRAME_STEP as int)),
        ],
        ..p
    }
}

fn clamp_to_i32(v: i64) -> (r: i32)
    ensures
        r == clamp_i32(v as int),
{
    if v < i32::MIN as i64 {
        i32::MIN
    } else if v > i32::MAX as i64 {
        i32::MAX
    } else {
        v as i32
    }
}

fn step_along(positive: bool, negative: bool, v: i32) -> (r: i64)
    ensures
        r as int == axis_step(positive, negative, v as int),
{
    let up: i64 = if positive { v as i64 } else { 0 };
    let down: i64 = if negative { v as i64 } else { 0 };
    up - down
}

impl Player {
    /// A player of the default size and speed centred at `position`.
    pub fn new(position: [i32; 2]) -> (r: Self)
        ensures
            r.position == position,
            r.size == [PLAYER_SIZE, PLAYER_SIZE],
            r.velocity == PLAYER_VELOCITY,
    {
        Player { position, size: [PLAYER_SIZE, PLAYER_SIZE], velocity: PLAYER_VELOCITY }
    }

    /// The centre.
    pub fn position(&self) -> (r: &[i32; 2])
        ensures
            *r == self.position,
    {
        &self.position
    }

    /// The full width and height.
    pub fn size(&self) -> (r: &[i32; 2])
        ensures
            *r == self.size,
    {
        &self.size
    }

    /// Moves the player by one frame of `input`.
    pub fn apply_input(&mut self, input: &GameInput)
        ensures
            *final(self) == moved(*old(self), *input),
    {
        let dx = step_along(input.right, input.left, FRAME_STEP);
        let dy = step_along(input.up, input.down, FRAME_STEP);
        let x = clamp_to_i32(self.position[0] as i64 + dx);
        let y = clamp_to_i32(self.position[1] as i64 + dy);
        self.position = [x, y];
    }
}

/// All the players of a game.
#[derive(Debug)]
pub struct GameController {
    pub players: Vec<Player>,
}

impl GameController {
    /// A game with one player at the origin.
    pub fn new() -> (r: Self)
        ensures
            r.players@ == seq![
                Player {
                    position: [0, 0],
                    size: [PLAYER_SIZE, PLAYER_SIZE],
                    velocity: PLAYER_VELOCITY,
                },
            ],
    {
        let player = Player::new([0, 0]);
        let mut players: Vec<Player> = Vec::new();
        players.push(player);
        proof {
            assert(players@ =~= seq![player]);
        }
        GameController { players }
    }

    /// Moves every player by one frame of `input`, keeping their order.
    pub fn update(&mut self, input: &GameInput)
        ensures
            final(self).players@.len() == old(self).players@.len(),
            forall|i: int|
                0 <= i < old(self).players@.len() ==> final(self).players@[i] == moved(
                    #[trigger] old(self).players@[i],
                    *input,
                ),
    {
        let n = self.players.len();
        let mut i: usize = 0;
        while i < n
            invariant
                n == old(self).players@.len(),
                self.players@.len() == n,
                0 <= i <= n,
                forall|j: int| 0 <= j < i ==> self.players@[j] == moved(
                    #[trigger] old(self).players@[j],
                    *input,
                ),
                forall|j: int| i <= j < n ==> #[trigger] self.players@[j] == old(self).players@[j],
            decreases n - i,
        {
            let mut p = self.players[i];
            p.apply_input(input);
            self.players.set(i, p);
            i = i + 1;
        }
    }
}

} // verus!
