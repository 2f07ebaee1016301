//! The components that an entity can carry.

use crate::math::{Color, Scalar, Vec2};
use vstd::prelude::*;

verus! {

/// Where an entity is, how large and how far turned (in radians).
#[derive(Clone, Copy, Debug, PartialEq, Eq, Structural)]
pub struct Transform {
    pub position: Vec2,
    pub scale: Vec2,
    pub rotation: Scalar,
}

/// What colour an entity is drawn in.
#[derive(Clone, Copy, Debug, PartialEq, Eq, Structural)]
pub struct Renderable {
    pub color: Color,
}

/// Marks the entities that directional input moves.
#[derive(Clone, Copy, Debug, PartialEq, Eq, Structural)]
pub struct Player;

/// Speed in units per second.
#[derive(Clone, Copy, Debug, PartialEq, Eq, Structural)]
pub struct MoveSpeed(pub Scalar);

/// One entity: the components it holds.
#[derive(Clone, Copy, Debug)]
pub struct Entity {
    pub player: Option<Player>,
    pub move_speed: Option<MoveSpeed>,
    pub transform: Option<Transform>,
    pub renderable: Option<Renderable>,
}

impl Entity {
    /// An entity without components.
    pub fn empty() -> (e: Entity)
        ensures
            e == (Entity { player: None, move_speed: None, transform: None, renderable: None }),
    {
        Entity { player: None, move_speed: None, transform: None, renderable: None }
    }

    /// Whether the movement pass acts on this entity: it does on those that
    /// hold the player marker, a speed and a transform.
    pub open spec fn is_mover(self) -> bool {
        self.player is Some && self.move_speed is Some && self.transform is Some
    }

    /// Whether this entity is drawn: it is when it holds a transform and a
    /// renderable.
    pub open spec fn is_drawn(self) -> bool {
        self.transform is Some && self.renderable is Some
    }
}

} // verus!
