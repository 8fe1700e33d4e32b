//! The events that collision resolution hands to the minigames.

use vstd::prelude::*;

use crate::food::DropType;
use crate::pegs::PegType;

verus! {

/// Identifies a game object (a ball, a peg or a target).
pub type EntityId = u64;

/// What a ball ran into.
#[derive(Debug, Clone, Copy, PartialEq, Eq, Structural)]
pub enum BallCollisionEventType {
    /// A peg: the ball's item, if it carries one, the peg's kind, and both objects.
    Peg { ball_type: Option<DropType>, peg_type: PegType, ball: EntityId, peg: EntityId },
    /// Another ball.
    Ball,
}

/// A ball reached the floor inside a target's capture radius.
#[derive(Debug, Clone, Copy, PartialEq, Eq, Structural)]
pub struct BallTargetHit {
    pub ball_type: DropType,
    pub target: EntityId,
}

} // verus!
