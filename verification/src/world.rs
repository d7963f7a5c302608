//! The world: the single actor and the planted objects, advanced one frame
//! at a time in the fixed order movement, confinement, placement.

use vstd::prelude::*;

use crate::geometry::clamped;
use crate::geometry::Position;
use crate::geometry::Viewport;
use crate::geometry::COORD_LIMIT;
use crate::input::InputSnapshot;
use crate::locomotion::confine_player_movement;
use crate::locomotion::max_bound;
use crate::locomotion::min_bound;
use crate::locomotion::moved_x;
use crate::locomotion::moved_y;
use crate::locomotion::player_movement;
use crate::locomotion::Player;
use crate::locomotion::DT_LIMIT_MS;
use crate::locomotion::STEP_LIMIT;
use crate::placement::plant_tree_logic;
use crate::placement::Tree;
use crate::placement::TREE_SCALE_MILLI;

verus! {

/// The actor's x coordinate after one whole frame: the input integrated
/// over the elapsed time, then confined to the viewport if one is known.
pub open spec fn frame_x(p: Position, s: InputSnapshot, dt_ms: int, vp: Option<Viewport>) -> int {
    match vp {
        Some(v) => clamped(moved_x(p, s, dt_ms), min_bound(v.width as int), max_bound(v.width as int)),
        None => moved_x(p, s, dt_ms),
    }
}

/// The actor's y coordinate after one whole frame.
pub open spec fn frame_y(p: Position, s: InputSnapshot, dt_ms: int, vp: Option<Viewport>) -> int {
    match vp {
        Some(v) => clamped(
            moved_y(p, s, dt_ms),
            min_bound(v.height as int),
            max_bound(v.height as int),
        ),
        None => moved_y(p, s, dt_ms),
    }
}

/// The live entities: at most one actor, and the objects planted so far.
pub struct World {
    pub player: Option<Player>,
    pub trees: Vec<Tree>,
}

impl World {
    /// The actor, if present, is within the model's working range.
    pub open spec fn wf(self) -> bool {
        self.player matches Some(p) ==> p.wf()
    }

    /// A world with no actor and nothing planted.
    pub fn new() -> (w: World)
        ensures
            w.player is None,
            w.trees@ =~= Seq::<Tree>::empty(),
            w.wf(),
    {
        World { player: None, trees: Vec::new() }
    }

    /// Advance the world by one frame: the actor integrates the frame's
    /// directional input, is confined to the viewport's bounds (skipped
    /// while the viewport is unavailable), and then, exactly on the trigger
    /// key's rising edge, one new world object is planted at the actor's
    /// position.  Without an actor the frame changes nothing.  Objects
    /// already planted are never moved or removed.
    pub fn tick(&mut self, input: &InputSnapshot, dt_ms: u64, viewport: Option<Viewport>)
        requires
            old(self).wf(),
            dt_ms <= DT_LIMIT_MS,
            viewport matches Some(v) ==> v.wf(),
        ensures
            old(self).player is None ==> *final(self) == *old(self),
            old(self).player matches Some(p) ==> {
                &&& final(self).player matches Some(q)
                &&& final(self).player->Some_0.position.x == frame_x(
                    p.position,
                    *input,
                    dt_ms as int,
                    viewport,
                )
                &&& final(self).player->Some_0.position.y == frame_y(
                    p.position,
                    *input,
                    dt_ms as int,
                    viewport,
                )
                &&& final(self).player->Some_0.scale_milli == p.scale_milli
            },
            forall|i: int|
                0 <= i < old(self).trees@.len() ==> final(self).trees@[i] == old(self).trees@[i],
            if input.trigger_just_pressed && old(self).player is Some {
                &&& final(self).trees@.len() == old(self).trees@.len() + 1
                &&& final(self).trees@.last().spec_position().x == frame_x(
                    old(self).player->Some_0.position,
                    *input,
                    dt_ms as int,
                    viewport,
                )
                &&& final(self).trees@.last().spec_position().y == frame_y(
                    old(self).player->Some_0.position,
                    *input,
                    dt_ms as int,
                    viewport,
                )
                &&& final(self).trees@.last().spec_scale_milli() == TREE_SCALE_MILLI
            } else {
                final(self).trees@ == old(self).trees@
            },
            viewport is Some ==> final(self).wf(),
            viewport is None && old(self).player is Some ==> {
                &&& -COORD_LIMIT - STEP_LIMIT <= final(self).player->Some_0.position.x
                    <= COORD_LIMIT + STEP_LIMIT
                &&& -COORD_LIMIT - STEP_LIMIT <= final(self).player->Some_0.position.y
                    <= COORD_LIMIT + STEP_LIMIT
            },
    {
        match self.player {
            None => {},
            Some(mut p) => {
                player_movement(&mut p, input, dt_ms);
                confine_player_movement(&mut p, viewport);
                self.player = Some(p);
                let planted = plant_tree_logic(input, Some(&p));
                match planted {
                    Some(t) => {
                        self.trees.push(t);
                    },
                    None => {},
                }
            },
        }
    }
}

} // verus!
