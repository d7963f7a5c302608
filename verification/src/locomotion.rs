//! The locomotion controller: directional input becomes a displacement that
//! is integrated over the frame's elapsed time and confined to the viewport.

use vstd::prelude::*;

use crate::geometry::clamped;
use crate::geometry::lemma_clamped_in_interval;
use crate::geometry::Position;
use crate::geometry::Viewport;
use crate::geometry::COORD_LIMIT;
use crate::input::down_held;
use crate::input::left_held;
use crate::input::right_held;
use crate::input::up_held;
use crate::input::InputSnapshot;

verus! {

/// The actor's speed, in milliunits per second (500 world units per second).
pub const PLAYER_SPEED: u64 = 500_000;

/// The actor's nominal bounding size, in milliunits.  It is zero, so the
/// confinement degenerates to the viewport's full extent.
pub const PLAYER_SIZE: u64 = 0;

/// The actor's uniform scale factor, in thousandths.
pub const PLAYER_SCALE_MILLI: i64 = 100;

/// Milliseconds per second; elapsed frame time arrives in milliseconds.
pub const MILLIS_PER_SECOND: u64 = 1000;

/// Numerator and denominator of the rational that stands in for `1 / sqrt(2)`,
/// the factor that normalizes a diagonal direction to unit length.
pub const INV_SQRT2_NUM: u64 = 707_107;

pub const INV_SQRT2_DEN: u64 = 1_000_000;

/// Longest elapsed time, in milliseconds, that one frame may report.
pub const DT_LIMIT_MS: u64 = 3_600_000;

/// Largest displacement, in milliunits, that one frame can produce.
pub const STEP_LIMIT: i64 = 1_800_000_000;

/// The player-controlled actor: a position on the plane and a uniform scale.
#[derive(Clone, Copy, PartialEq, Eq, Structural, Debug)]
pub struct Player {
    pub position: Position,
    pub scale_milli: i64,
}

impl Player {
    /// The position is within the model's working range.
    pub open spec fn wf(self) -> bool {
        self.position.in_range()
    }
}

/// The horizontal component of the raw direction: the sum of the unit
/// contributions of the left and right keys.
pub open spec fn raw_dir_x(s: InputSnapshot) -> int {
    (if right_held(s) {
        1int
    } else {
        0int
    }) + (if left_held(s) {
        -1int
    } else {
        0int
    })
}

/// The vertical component of the raw direction: the sum of the unit
/// contributions of the up and down keys.
pub open spec fn raw_dir_y(s: InputSnapshot) -> int {
    (if up_held(s) {
        1int
    } else {
        0int
    }) + (if down_held(s) {
        -1int
    } else {
        0int
    })
}

/// Both axes contribute, so the raw direction has length `sqrt(2)` and is
/// scaled by the normalization factor.
pub open spec fn diagonal(s: InputSnapshot) -> bool {
    raw_dir_x(s) != 0 && raw_dir_y(s) != 0
}

/// Displacement magnitude, in milliunits, of an axis-aligned move over
/// `dt_ms` milliseconds.
pub open spec fn straight_step(dt_ms: int) -> int {
    PLAYER_SPEED * dt_ms / (MILLIS_PER_SECOND as int)
}

/// Displacement magnitude, in milliunits, per axis of a diagonal move over
/// `dt_ms` milliseconds: the axis-aligned magnitude scaled by the
/// normalization factor.
pub open spec fn diagonal_step(dt_ms: int) -> int {
    PLAYER_SPEED * dt_ms * INV_SQRT2_NUM / ((MILLIS_PER_SECOND * INV_SQRT2_DEN) as int)
}

/// Per-axis displacement magnitude for the frame's input.
pub open spec fn step_magnitude(s: InputSnapshot, dt_ms: int) -> int {
    if diagonal(s) {
        diagonal_step(dt_ms)
    } else {
        straight_step(dt_ms)
    }
}

/// Where the actor's x coordinate lands after integrating the frame's input.
pub open spec fn moved_x(p: Position, s: InputSnapshot, dt_ms: int) -> int {
    p.x + raw_dir_x(s) * step_magnitude(s, dt_ms)
}

/// Where the actor's y coordinate lands after integrating the frame's input.
pub open spec fn moved_y(p: Position, s: InputSnapshot, dt_ms: int) -> int {
    p.y + raw_dir_y(s) * step_magnitude(s, dt_ms)
}

/// Half the actor's nominal bounding size, in milliunits.
pub open spec fn half_size() -> int {
    PLAYER_SIZE as int / 2
}

/// Smallest coordinate the confinement allows along an axis of extent `dim`.
pub open spec fn min_bound(dim: int) -> int {
    half_size() - dim / 2
}

/// Largest coordinate the confinement allows along an axis of extent `dim`.
pub open spec fn max_bound(dim: int) -> int {
    dim / 2 - half_size()
}

/// A step magnitude never exceeds one frame's displacement budget.
pub proof fn lemma_step_magnitude_bounded(s: InputSnapshot, dt_ms: int)
    requires
        0 <= dt_ms <= DT_LIMIT_MS,
    ensures
        0 <= step_magnitude(s, dt_ms) <= STEP_LIMIT,
        dt_ms == 0 ==> step_magnitude(s, dt_ms) == 0,
{
    let scaled = PLAYER_SPEED * dt_ms;
    assert(0 <= scaled <= PLAYER_SPEED * DT_LIMIT_MS);
    vstd::arithmetic::div_mod::lemma_div_is_ordered(
        scaled,
        PLAYER_SPEED * DT_LIMIT_MS,
        MILLIS_PER_SECOND as int,
    );
    vstd::arithmetic::div_mod::lemma_div_is_ordered(
        scaled * INV_SQRT2_NUM,
        PLAYER_SPEED * DT_LIMIT_MS * INV_SQRT2_NUM,
        (MILLIS_PER_SECOND * INV_SQRT2_DEN) as int,
    );
    vstd::arithmetic::div_mod::lemma_div_pos_is_pos(scaled, MILLIS_PER_SECOND as int);
    vstd::arithmetic::div_mod::lemma_div_pos_is_pos(
        scaled * INV_SQRT2_NUM,
        (MILLIS_PER_SECOND * INV_SQRT2_DEN) as int,
    );
}

/// For every viewport extent and every pre-clamp coordinate, the confined
/// coordinate lies in `[half_size - dim/2, dim/2 - half_size]`.  The
/// interval is nonempty for every nonnegative extent because the actor's
/// nominal half-size is zero; were it larger than the viewport, the
/// interval would be empty and clamping to it would be meaningless.
pub proof fn lemma_confinement_in_bounds(v: int, dim: int)
    requires
        0 <= dim,
    ensures
        min_bound(dim) <= clamped(v, min_bound(dim), max_bound(dim)) <= max_bound(dim),
{
    lemma_clamped_in_interval(v, min_bound(dim), max_bound(dim));
}

/// The raw direction is the vector sum of the four unit contributions, and
/// an axis-aligned nonzero direction already has length exactly one.
pub proof fn lemma_axis_direction_unit_length(s: InputSnapshot)
    requires
        raw_dir_x(s) != 0 || raw_dir_y(s) != 0,
        !diagonal(s),
    ensures
        raw_dir_x(s) * raw_dir_x(s) + raw_dir_y(s) * raw_dir_y(s) == 1,
{
    let dx = raw_dir_x(s);
    let dy = raw_dir_y(s);
    assert(dx == -1 || dx == 0 || dx == 1);
    assert(dy == -1 || dy == 0 || dy == 1);
    assert(dx * dx + dy * dy == 1) by (nonlinear_arith)
        requires
            dx == -1 || dx == 0 || dx == 1,
            dy == -1 || dy == 0 || dy == 1,
            dx != 0 || dy != 0,
            !(dx != 0 && dy != 0),
    ;
}

/// The diagonal normalization factor squares to one half, up to less than
/// one part in `INV_SQRT2_DEN`: a diagonal direction scaled by it has
/// squared length within that error of one.
pub proof fn lemma_diagonal_factor_near_unit()
    ensures
        INV_SQRT2_DEN * INV_SQRT2_DEN < 2 * INV_SQRT2_NUM * INV_SQRT2_NUM,
        2 * INV_SQRT2_NUM * INV_SQRT2_NUM < INV_SQRT2_DEN * INV_SQRT2_DEN + INV_SQRT2_DEN,
{
}

/// The new actor, created once at startup: at the origin, at its fixed scale.
pub fn spawn_player() -> (p: Player)
    ensures
        p.position == (Position { x: 0, y: 0 }),
        p.scale_milli == PLAYER_SCALE_MILLI,
        p.wf(),
{
    Player { position: Position { x: 0, y: 0 }, scale_milli: PLAYER_SCALE_MILLI }
}

/// The raw direction accumulated from the frame's held keys, one unit
/// contribution per named direction.
pub fn movement_direction(s: &InputSnapshot) -> (d: (i64, i64))
    ensures
        d.0 == raw_dir_x(*s),
        d.1 == raw_dir_y(*s),
{
    let mut dx: i64 = 0;
    let mut dy: i64 = 0;
    if s.arrow_left || s.key_a {
        dx = dx - 1;
    }
    if s.arrow_right || s.key_d {
        dx = dx + 1;
    }
    if s.arrow_up || s.key_w {
        dy = dy + 1;
    }
    if s.arrow_down || s.key_s {
        dy = dy - 1;
    }
    (dx, dy)
}

/// One frame's displacement magnitude per axis, in milliunits.
fn frame_step(diag: bool, dt_ms: u64) -> (m: u64)
    requires
        dt_ms <= DT_LIMIT_MS,
    ensures
        m == if diag {
            diagonal_step(dt_ms as int)
        } else {
            straight_step(dt_ms as int)
        },
        m <= STEP_LIMIT,
{
    let scaled: u64 = PLAYER_SPEED * dt_ms;
    proof {
        vstd::arithmetic::div_mod::lemma_div_is_ordered(
            scaled as int,
            PLAYER_SPEED * DT_LIMIT_MS,
            MILLIS_PER_SECOND as int,
        );
        vstd::arithmetic::div_mod::lemma_div_is_ordered(
            scaled * INV_SQRT2_NUM,
            PLAYER_SPEED * DT_LIMIT_MS * INV_SQRT2_NUM,
            (MILLIS_PER_SECOND * INV_SQRT2_DEN) as int,
        );
    }
    if diag {
        scaled * INV_SQRT2_NUM / (MILLIS_PER_SECOND * INV_SQRT2_DEN)
    } else {
        scaled / MILLIS_PER_SECOND
    }
}

/// Integrate the frame's directional input into the actor's position:
/// opposing keys cancel, a diagonal is normalized to unit speed, and the
/// displacement is the direction times speed times elapsed time.  With no
/// elapsed time, or no held direction, the position is unchanged.
pub fn player_movement(player: &mut Player, input: &InputSnapshot, dt_ms: u64)
    requires
        old(player).wf(),
        dt_ms <= DT_LIMIT_MS,
    ensures
        final(player).position.x == moved_x(old(player).position, *input, dt_ms as int),
        final(player).position.y == moved_y(old(player).position, *input, dt_ms as int),
        final(player).scale_milli == old(player).scale_milli,
        -COORD_LIMIT - STEP_LIMIT <= final(player).position.x <= COORD_LIMIT + STEP_LIMIT,
        -COORD_LIMIT - STEP_LIMIT <= final(player).position.y <= COORD_LIMIT + STEP_LIMIT,
        dt_ms == 0 ==> final(player).position == old(player).position,
        raw_dir_x(*input) == 0 && raw_dir_y(*input) == 0 ==> final(player).position == old(
            player,
        ).position,
{
    let (dx, dy) = movement_direction(input);
    let diag = dx != 0 && dy != 0;
    let step = frame_step(diag, dt_ms) as i64;
    proof {
        lemma_step_magnitude_bounded(*input, dt_ms as int);
    }
    let mut x = player.position.x;
    let mut y = player.position.y;
    if dx == 1 {
        x = x + step;
    } else if dx == -1 {
        x = x - step;
    }
    if dy == 1 {
        y = y + step;
    } else if dy == -1 {
        y = y - step;
    }
    player.position = Position { x, y };
}

/// Confine the actor to the world bounds derived from the viewport: each
/// coordinate is clamped into the axis's allowed interval.  While the
/// viewport is unavailable the confinement is skipped and the actor is left
/// as it is.
pub fn confine_player_movement(player: &mut Player, viewport: Option<Viewport>)
    requires
        viewport matches Some(v) ==> v.wf(),
    ensures
        final(player).scale_milli == old(player).scale_milli,
        viewport matches Some(v) ==> {
            &&& final(player).position.x == clamped(
                old(player).position.x as int,
                min_bound(v.width as int),
                max_bound(v.width as int),
            )
            &&& final(player).position.y == clamped(
                old(player).position.y as int,
                min_bound(v.height as int),
                max_bound(v.height as int),
            )
            &&& min_bound(v.width as int) <= final(player).position.x <= max_bound(v.width as int)
            &&& min_bound(v.height as int) <= final(player).position.y <= max_bound(
                v.height as int,
            )
            &&& final(player).wf()
        },
        viewport is None ==> *final(player) == *old(player),
{
    match viewport {
        None => {},
        Some(v) => {
            let half: i64 = (PLAYER_SIZE / 2) as i64;
            let half_w: i64 = (v.width / 2) as i64;
            let half_h: i64 = (v.height / 2) as i64;
            let x_min = half - half_w;
            let x_max = half_w - half;
            let y_min = half - half_h;
            let y_max = half_h - half;
            let mut x = player.position.x;
            let mut y = player.position.y;
            if x < x_min {
                x = x_min;
            } else if x > x_max {
                x = x_max;
            }
            if y < y_min {
                y = y_min;
            } else if y > y_max {
                y = y_max;
            }
            proof {
                lemma_clamped_in_interval(
                    old(player).position.x as int,
                    min_bound(v.width as int),
                    max_bound(v.width as int),
                );
                lemma_clamped_in_interval(
                    old(player).position.y as int,
                    min_bound(v.height as int),
                    max_bound(v.height as int),
                );
            }
            player.position = Position { x, y };
        },
    }
}

} // verus!
