//! Per-frame input snapshots and the rising-edge discipline of the trigger key.

use vstd::prelude::*;

verus! {

/// What the host engine reports about the named keys for one frame:
/// whether each movement key is currently held, and whether the trigger
/// key transitioned to held on this very frame.
#[derive(Clone, Copy, PartialEq, Eq, Structural, Debug)]
pub struct InputSnapshot {
    pub arrow_left: bool,
    pub arrow_right: bool,
    pub arrow_up: bool,
    pub arrow_down: bool,
    pub key_a: bool,
    pub key_d: bool,
    pub key_w: bool,
    pub key_s: bool,
    pub trigger_just_pressed: bool,
}

/// The left arrow and the A key both steer left.
pub open spec fn left_held(s: InputSnapshot) -> bool {
    s.arrow_left || s.key_a
}

/// The right arrow and the D key both steer right.
pub open spec fn right_held(s: InputSnapshot) -> bool {
    s.arrow_right || s.key_d
}

/// The up arrow and the W key both steer up.
pub open spec fn up_held(s: InputSnapshot) -> bool {
    s.arrow_up || s.key_w
}

/// The down arrow and the S key both steer down.
pub open spec fn down_held(s: InputSnapshot) -> bool {
    s.arrow_down || s.key_s
}

/// A key transitions to held on this frame: held now but not on the frame
/// before.
pub open spec fn rising_edge(prev_held: bool, held: bool) -> bool {
    held && !prev_held
}

/// How many rising edges a history of held states contains, given whether
/// the key was held just before the history began.
pub open spec fn edge_count(held: Seq<bool>, prev: bool) -> nat
    decreases held.len(),
{
    if held.len() == 0 {
        0
    } else {
        (if rising_edge(prev, held[0]) {
            1nat
        } else {
            0nat
        }) + edge_count(held.drop_first(), held[0])
    }
}

/// Rising edges of a history that holds the key on exactly the frames of
/// `[a, b)`: there is one if the run is nonempty and does not merely
/// continue a hold that was already under way, and none otherwise.
pub proof fn lemma_edge_count_single_run(held: Seq<bool>, prev: bool, a: int, b: int)
    requires
        0 <= a <= b <= held.len(),
        forall|i: int| 0 <= i < held.len() ==> (held[i] <==> a <= i < b),
    ensures
        edge_count(held, prev) == if a < b && (a > 0 || !prev) {
            1int
        } else {
            0int
        },
    decreases held.len(),
{
    if held.len() == 0 {
    } else {
        let tail = held.drop_first();
        assert(forall|i: int| 0 <= i < tail.len() ==> tail[i] == held[i + 1]);
        if a == b {
            assert(!held[0]);
            lemma_edge_count_single_run(tail, held[0], 0, 0);
        } else if a == 0 {
            assert(held[0]);
            if b - 1 <= tail.len() {
                lemma_edge_count_single_run(tail, held[0], 0, b - 1);
            }
        } else {
            assert(!held[0]);
            lemma_edge_count_single_run(tail, held[0], a - 1, b - 1);
        }
    }
}

/// One continuous hold of a key, entered from the released state, shows
/// exactly one rising edge, however long the hold lasts.  Since the
/// placement spawner plants exactly when the trigger key's rising edge is
/// reported, one hold plants one world object.
pub proof fn lemma_one_rising_edge_per_hold(held: Seq<bool>, a: int, b: int)
    requires
        0 <= a < b <= held.len(),
        forall|i: int| 0 <= i < held.len() ==> (held[i] <==> a <= i < b),
    ensures
        edge_count(held, false) == 1,
{
    lemma_edge_count_single_run(held, false, a, b);
}

/// How many frames of a snapshot history report the trigger key as just
/// pressed.
pub open spec fn press_count(inputs: Seq<InputSnapshot>) -> nat
    decreases inputs.len(),
{
    if inputs.len() == 0 {
        0
    } else {
        (if inputs[0].trigger_just_pressed {
            1nat
        } else {
            0nat
        }) + press_count(inputs.drop_first())
    }
}

/// An engine that reports the trigger key as just pressed exactly on its
/// rising edges reports as many just-pressed frames as the held history
/// has rising edges.
pub proof fn lemma_press_count_matches_edges(inputs: Seq<InputSnapshot>, held: Seq<bool>, prev: bool)
    requires
        inputs.len() == held.len(),
        forall|i: int|
            0 <= i < inputs.len() ==> inputs[i].trigger_just_pressed == rising_edge(
                if i == 0 {
                    prev
                } else {
                    held[i - 1]
                },
                held[i],
            ),
    ensures
        press_count(inputs) == edge_count(held, prev),
    decreases inputs.len(),
{
    if inputs.len() == 0 {
    } else {
        let in_tail = inputs.drop_first();
        let held_tail = held.drop_first();
        assert(forall|i: int| 0 <= i < in_tail.len() ==> in_tail[i] == inputs[i + 1]);
        assert(forall|i: int| 0 <= i < held_tail.len() ==> held_tail[i] == held[i + 1]);
        lemma_press_count_matches_edges(in_tail, held_tail, held[0]);
    }
}

} // verus!
