//! The placement spawner: on the trigger key's rising edge, a new world
//! object is created at the actor's current position.

use vstd::prelude::*;

use crate::geometry::Position;
use crate::input::InputSnapshot;
use crate::locomotion::Player;

verus! {

/// The fixed uniform scale of a planted world object, in thousandths.
/// It is distinct from the actor's scale.
pub const TREE_SCALE_MILLI: i64 = 300;

/// A planted world object.  Its position and scale are fixed at creation:
/// the fields never change afterwards, however the actor later moves.
#[derive(Clone, Copy, PartialEq, Eq, Structural, Debug)]
pub struct Tree {
    position: Position,
    scale_milli: i64,
}

impl Tree {
    /// The position the object was planted at.
    pub closed spec fn spec_position(self) -> Position {
        self.position
    }

    /// The object's uniform scale factor, in thousandths.
    pub closed spec fn spec_scale_milli(self) -> int {
        self.scale_milli as int
    }

    /// Plant a new world object at `position`, at the fixed scale.
    pub fn new(position: Position) -> (t: Tree)
        ensures
            t.spec_position() == position,
            t.spec_scale_milli() == TREE_SCALE_MILLI,
    {
        Tree { position, scale_milli: TREE_SCALE_MILLI }
    }

    /// The position the object was planted at.
    pub fn position(&self) -> (p: Position)
        ensures
            p == self.spec_position(),
    {
        self.position
    }

    /// The object's uniform scale factor, in thousandths.
    pub fn scale_milli(&self) -> (m: i64)
        ensures
            m == self.spec_scale_milli(),
    {
        self.scale_milli
    }
}

/// Decide the frame's planting: exactly when the trigger key was just
/// pressed and an actor is present, emit a creation request for one new
/// world object at the actor's current position, with the fixed scale.
/// Without an actor, or without the rising edge, nothing is created.
pub fn plant_tree_logic(input: &InputSnapshot, player: Option<&Player>) -> (r: Option<Tree>)
    ensures
        r is Some <==> input.trigger_just_pressed && player is Some,
        r matches Some(t) ==> {
            &&& t.spec_position() == player->Some_0.position
            &&& t.spec_scale_milli() == TREE_SCALE_MILLI
        },
{
    if input.trigger_just_pressed {
        match player {
            Some(p) => Some(Tree::new(p.position)),
            None => None,
        }
    } else {
        None
    }
}

} // verus!
