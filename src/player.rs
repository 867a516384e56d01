use vstd::prelude::*;
use crate::movement::{Position, WINDOW_WIDTH, WINDOW_HEIGHT};

verus! {

/// What the player is doing. A player is given a state when spawned; no
/// system changes it afterwards.
#[derive(Clone, Copy, Debug, PartialEq, Eq, Structural)]
pub enum PlayerState {
    IdleRight,
    IdleLeft,
    WalkingRight,
    WalkingLeft,
}

/// The entity that the direction keys move.
#[derive(Clone, Copy, Debug, PartialEq, Eq, Structural)]
pub struct Player {
    pub state: PlayerState,
}

/// A player standing idle, facing left, at the origin.
pub fn spawn_player() -> (r: (Player, Position))
    ensures
        r.0.state == PlayerState::IdleLeft,
        r.1.x == 0,
        r.1.y == 0,
{
    (Player { state: PlayerState::IdleLeft }, Position::origin())
}

/// The camera's position: the centre of the window.
pub fn spawn_camera() -> (r: Position)
    ensures
        r.x == WINDOW_WIDTH / 2,
        r.y == WINDOW_HEIGHT / 2,
{
    Position { x: WINDOW_WIDTH / 2, y: WINDOW_HEIGHT / 2 }
}

} // verus!
