//! Reduction of an angle in degrees to a single turn.

use vstd::prelude::*;

verus! {

/// Degrees in a full turn.
pub const FULL_TURN: i32 = 360;

/// The angle in `[0, 360)` that differs from `angle` by a whole number of turns.
pub open spec fn normalize_spec(angle: int) -> int {
    angle % 360
}

/// Reduces an angle in degrees to `[0, 360)`.
///
/// The result is the one angle in that range which differs from `angle` by a
/// multiple of 360; it is found by a single remainder, whatever the size of
/// `angle`.
pub fn normalize_deg(angle: i32) -> (r: i32)
    ensures
        0 <= r < 360,
        (angle - r) % 360 == 0,
        r == normalize_spec(angle as int),
{
    let rem: i32 = angle % FULL_TURN;
    if rem < 0 {
        rem + FULL_TURN
    } else {
        rem
    }
}

/// A normalized angle lies within one turn and differs from the angle it came
/// from by whole turns only.
pub proof fn lemma_normalize_range(angle: int)
    ensures
        0 <= normalize_spec(angle) < 360,
        (angle - normalize_spec(angle)) % 360 == 0,
{
}

/// Only one angle within a turn differs from `angle` by whole turns, and
/// normalizing finds it.
pub proof fn lemma_normalize_unique(angle: int, r: int)
    requires
        0 <= r < 360,
        (angle - r) % 360 == 0,
    ensures
        r == normalize_spec(angle),
{
}

/// Normalizing an angle that is already normalized changes nothing.
pub proof fn lemma_normalize_idempotent(angle: int)
    ensures
        normalize_spec(normalize_spec(angle)) == normalize_spec(angle),
{
}

/// Adding whole turns to an angle does not change what it normalizes to.
pub proof fn lemma_normalize_periodic(angle: int, turns: int)
    ensures
        normalize_spec(angle + 360 * turns) == normalize_spec(angle),
{
    vstd::arithmetic::div_mod::lemma_mod_multiples_vanish(turns, angle, 360);
}

} // verus!
