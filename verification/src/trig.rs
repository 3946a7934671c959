//! Fixed-point sines and cosines of whole degrees.
//!
//! A sine or cosine is an integer in `[-SCALE, SCALE]` that stands for the
//! real value times `SCALE`. The first quadrant is tabulated; the other three
//! follow from it by reflection.

use vstd::prelude::*;
use crate::angle::{lemma_normalize_periodic, normalize_deg, normalize_spec};

verus! {

/// The integer that stands for 1.0 in this module's sines and cosines.
pub const SCALE: i32 = 65536;

/// `SCALE * sin(d)` to the nearest integer, for `d` = 0, 1, ..., 90 degrees.
pub const SINE_TABLE: [i32; 91] = [
    0, 1144, 2287, 3430, 4572, 5712, 6850, 7987, 9121, 10252,
    11380, 12505, 13626, 14742, 15855, 16962, 18064, 19161, 20252, 21336,
    22415, 23486, 24550, 25607, 26656, 27697, 28729, 29753, 30767, 31772,
    32768, 33754, 34729, 35693, 36647, 37590, 38521, 39441, 40348, 41243,
    42126, 42995, 43852, 44695, 45525, 46341, 47143, 47930, 48703, 49461,
    50203, 50931, 51643, 52339, 53020, 53684, 54332, 54963, 55578, 56175,
    56756, 57319, 57865, 58393, 58903, 59396, 59870, 60326, 60764, 61183,
    61584, 61966, 62328, 62672, 62997, 63303, 63589, 63856, 64104, 64332,
    64540, 64729, 64898, 65048, 65177, 65287, 65376, 65446, 65496, 65526,
    65536,
];

/// The tabulated sine of `d` degrees, for `d` from 0 to 90.
#[verifier::opaque]
pub open spec fn sin_quadrant_spec(d: int) -> int
    recommends
        0 <= d <= 90,
{
    SINE_TABLE[d] as int
}

/// The sine of an angle `t` within one turn, folded into the first quadrant:
/// `sin(180 - t) = sin(t)` and `sin(180 + t) = -sin(t)`.
#[verifier::opaque]
pub open spec fn sin_turn_spec(t: int) -> int
    recommends
        0 <= t < 360,
{
    if t <= 90 {
        sin_quadrant_spec(t)
    } else if t <= 180 {
        sin_quadrant_spec(180 - t)
    } else if t <= 270 {
        -sin_quadrant_spec(t - 180)
    } else {
        -sin_quadrant_spec(360 - t)
    }
}

/// The sine of `theta` degrees, times `SCALE`.
pub open spec fn sin_spec(theta: int) -> int {
    sin_turn_spec(normalize_spec(theta))
}

/// The cosine of `theta` degrees, times `SCALE`: the sine a quarter turn on.
pub open spec fn cos_spec(theta: int) -> int {
    sin_spec(theta + 90)
}

/// Whether the point with these coordinates lies within one unit of the
/// circle of radius `SCALE` about the origin.
#[verifier::opaque]
pub open spec fn near_unit_circle(sine: int, cosine: int) -> bool {
    (SCALE - 1) * (SCALE - 1) <= sine * sine + cosine * cosine <= (SCALE + 1) * (SCALE + 1)
}

/// `n / SCALE` rounded to the nearest integer, halves away from zero.
pub open spec fn scale_round_spec(n: int) -> int {
    if n >= 0 {
        (n + SCALE / 2) / (SCALE as int)
    } else {
        -((SCALE / 2 - n) / (SCALE as int))
    }
}

/// The sine of an angle already reduced to one turn.
fn sin_of_normalized(t: i32) -> (s: i32)
    requires
        0 <= t < 360,
    ensures
        s == sin_spec(t as int),
        -SCALE <= s <= SCALE,
{
    proof {
        reveal(sin_quadrant_spec);
        reveal(sin_turn_spec);
        lemma_table_range();
    }
    if t <= 90 {
        SINE_TABLE[t as usize]
    } else if t <= 180 {
        SINE_TABLE[(180 - t) as usize]
    } else if t <= 270 {
        -SINE_TABLE[(t - 180) as usize]
    } else {
        -SINE_TABLE[(360 - t) as usize]
    }
}

/// The sine of `theta` degrees in fixed point: `SCALE` stands for 1.0.
pub fn sin_deg(theta: i32) -> (s: i32)
    ensures
        s == sin_spec(theta as int),
        -SCALE <= s <= SCALE,
{
    sin_of_normalized(normalize_deg(theta))
}

/// The cosine of `theta` degrees in fixed point: `SCALE` stands for 1.0.
pub fn cos_deg(theta: i32) -> (c: i32)
    ensures
        c == cos_spec(theta as int),
        -SCALE <= c <= SCALE,
{
    let t = normalize_deg(theta);
    let quarter_on = if t < 270 { t + 90 } else { t - 270 };
    sin_of_normalized(quarter_on)
}

/// Divides a fixed-point product by `SCALE`, rounding to the nearest integer
/// and halves away from zero.
pub fn scale_round(n: i64) -> (r: i64)
    ensures
        r == scale_round_spec(n as int),
{
    let scale: i64 = SCALE as i64;
    let half: i64 = scale / 2;
    let whole: i64 = n / scale;
    let rest: i64 = n % scale;
    if rest >= half {
        whole + 1
    } else if rest <= -half {
        whole - 1
    } else {
        whole
    }
}

/// Every tabulated sine lies between 0 and `SCALE`, and the table starts at 0
/// and ends at `SCALE`.
pub proof fn lemma_table_range()
    ensures
        forall|d: int| 0 <= d <= 90 ==> 0 <= #[trigger] sin_quadrant_spec(d) <= SCALE,
        sin_quadrant_spec(0) == 0,
        sin_quadrant_spec(90) == SCALE,
{
    reveal(sin_quadrant_spec);
}

/// The tabulated sines grow with the angle.
pub proof fn lemma_table_increasing(a: int, b: int)
    requires
        0 <= a < b <= 90,
    ensures
        sin_quadrant_spec(a) < sin_quadrant_spec(b),
{
    reveal(sin_quadrant_spec);
    assert(forall|d: int| 0 <= d < 90 ==> #[trigger] SINE_TABLE[d] < SINE_TABLE[d + 1]);
    lemma_table_increasing_by_steps(a, b);
}

proof fn lemma_table_increasing_by_steps(a: int, b: int)
    requires
        0 <= a < b <= 90,
        forall|d: int| 0 <= d < 90 ==> #[trigger] SINE_TABLE[d] < SINE_TABLE[d + 1],
    ensures
        SINE_TABLE[a] < SINE_TABLE[b],
    decreases b - a,
{
    if a + 1 < b {
        lemma_table_increasing_by_steps(a, b - 1);
    }
}

/// Each tabulated sine, paired with the sine of the complementary angle,
/// lies within one unit of the unit circle.
proof fn lemma_table_near_unit_circle(d: int)
    requires
        0 <= d <= 90,
    ensures
        near_unit_circle(sin_quadrant_spec(d), sin_quadrant_spec(90 - d)),
{
    reveal(sin_quadrant_spec);
    assert({
        &&& near_unit_circle(0, 65536) && near_unit_circle(1144, 65526) && near_unit_circle(2287, 65496)
        &&& near_unit_circle(3430, 65446) && near_unit_circle(4572, 65376) && near_unit_circle(5712, 65287)
        &&& near_unit_circle(6850, 65177) && near_unit_circle(7987, 65048) && near_unit_circle(9121, 64898)
        &&& near_unit_circle(10252, 64729) && near_unit_circle(11380, 64540) && near_unit_circle(12505, 64332)
        &&& near_unit_circle(13626, 64104) && near_unit_circle(14742, 63856) && near_unit_circle(15855, 63589)
        &&& near_unit_circle(16962, 63303) && near_unit_circle(18064, 62997) && near_unit_circle(19161, 62672)
        &&& near_unit_circle(20252, 62328) && near_unit_circle(21336, 61966) && near_unit_circle(22415, 61584)
        &&& near_unit_circle(23486, 61183) && near_unit_circle(24550, 60764) && near_unit_circle(25607, 60326)
        &&& near_unit_circle(26656, 59870) && near_unit_circle(27697, 59396) && near_unit_circle(28729, 58903)
        &&& near_unit_circle(29753, 58393) && near_unit_circle(30767, 57865) && near_unit_circle(31772, 57319)
        &&& near_unit_circle(32768, 56756) && near_unit_circle(33754, 56175) && near_unit_circle(34729, 55578)
        &&& near_unit_circle(35693, 54963) && near_unit_circle(36647, 54332) && near_unit_circle(37590, 53684)
        &&& near_unit_circle(38521, 53020) && near_unit_circle(39441, 52339) && near_unit_circle(40348, 51643)
        &&& near_unit_circle(41243, 50931) && near_unit_circle(42126, 50203) && near_unit_circle(42995, 49461)
        &&& near_unit_circle(43852, 48703) && near_unit_circle(44695, 47930) && near_unit_circle(45525, 47143)
        &&& near_unit_circle(46341, 46341)
    }) by {
        reveal(near_unit_circle);
    }
    if d > 45 {
        lemma_near_unit_circle_symmetric(sin_quadrant_spec(90 - d), sin_quadrant_spec(d));
    }
}

/// Swapping the coordinates of a point keeps its distance from the circle.
proof fn lemma_near_unit_circle_symmetric(a: int, b: int)
    ensures
        near_unit_circle(a, b) == near_unit_circle(b, a),
        near_unit_circle(a, b) == near_unit_circle(-a, b),
        near_unit_circle(a, b) == near_unit_circle(a, -b),
{
    reveal(near_unit_circle);
    assert((-a) * (-a) == a * a && (-b) * (-b) == b * b) by (nonlinear_arith);
}

/// Sine and cosine of one angle are the coordinates of a point within one
/// unit of the circle of radius `SCALE`: their squares add up to the square of
/// `SCALE`, give or take rounding.
pub proof fn lemma_unit_circle(theta: int)
    ensures
        near_unit_circle(sin_spec(theta), cos_spec(theta)),
        (SCALE - 1) * (SCALE - 1) <= sin_spec(theta) * sin_spec(theta) + cos_spec(theta)
            * cos_spec(theta) <= (SCALE + 1) * (SCALE + 1),
{
    let t = normalize_spec(theta);
    let q = normalize_spec(theta + 90);
    assert(q == (t + 90) % 360);
    reveal(sin_turn_spec);
    if t <= 90 {
        lemma_table_near_unit_circle(t);
    } else if t <= 180 {
        lemma_table_near_unit_circle(180 - t);
        lemma_near_unit_circle_symmetric(sin_quadrant_spec(180 - t), sin_quadrant_spec(t - 90));
    } else if t <= 270 {
        lemma_table_near_unit_circle(t - 180);
        lemma_near_unit_circle_symmetric(sin_quadrant_spec(t - 180), sin_quadrant_spec(270 - t));
        lemma_near_unit_circle_symmetric(-sin_quadrant_spec(t - 180), sin_quadrant_spec(270 - t));
    } else {
        lemma_table_near_unit_circle(360 - t);
        lemma_near_unit_circle_symmetric(sin_quadrant_spec(360 - t), sin_quadrant_spec(t - 270));
    }
    reveal(near_unit_circle);
}

/// Sines and cosines stay within `[-SCALE, SCALE]`.
pub proof fn lemma_sin_cos_range(theta: int)
    ensures
        -SCALE <= sin_spec(theta) <= SCALE,
        -SCALE <= cos_spec(theta) <= SCALE,
{
    reveal(sin_turn_spec);
    lemma_table_range();
}

/// Whole turns change neither the sine nor the cosine.
pub proof fn lemma_sin_cos_periodic(theta: int, turns: int)
    ensures
        sin_spec(theta + 360 * turns) == sin_spec(theta),
        cos_spec(theta + 360 * turns) == cos_spec(theta),
{
    lemma_normalize_periodic(theta, turns);
    lemma_normalize_periodic(theta + 90, turns);
}

/// Reducing an angle to one turn before turning it further changes neither
/// the sine nor the cosine.
pub proof fn lemma_turn_then_shift(theta: int, shift: int)
    ensures
        sin_spec(normalize_spec(theta) + shift) == sin_spec(theta + shift),
        cos_spec(normalize_spec(theta) + shift) == cos_spec(theta + shift),
{
    assert(normalize_spec(normalize_spec(theta) + shift) == normalize_spec(theta + shift));
    assert(normalize_spec(normalize_spec(theta) + shift + 90) == normalize_spec(
        theta + shift + 90,
    ));
}

/// A quarter turn on, the sine becomes the cosine and the cosine the sine
/// negated.
pub proof fn lemma_quarter_turn(theta: int)
    ensures
        sin_spec(theta + 90) == cos_spec(theta),
        cos_spec(theta + 90) == -sin_spec(theta),
{
    lemma_half_turn(theta);
}

/// Half a turn on, sine and cosine both change sign.
pub proof fn lemma_half_turn(theta: int)
    ensures
        sin_spec(theta + 180) == -sin_spec(theta),
        cos_spec(theta + 180) == -cos_spec(theta),
{
    let t = normalize_spec(theta);
    let q = normalize_spec(theta + 90);
    assert(normalize_spec(theta + 180) == (t + 180) % 360);
    assert(normalize_spec(theta + 180 + 90) == (q + 180) % 360);
    lemma_turn_half_on(t);
    lemma_turn_half_on(q);
}

/// Within one turn: the sine half a turn on is the sine negated.
proof fn lemma_turn_half_on(t: int)
    requires
        0 <= t < 360,
    ensures
        sin_turn_spec((t + 180) % 360) == -sin_turn_spec(t),
{
    reveal(sin_turn_spec);
    lemma_table_range();
}

/// Within one turn: the sine of the opposite angle is the sine negated.
proof fn lemma_turn_reflected(t: int)
    requires
        0 <= t < 360,
    ensures
        sin_turn_spec((360 - t) % 360) == -sin_turn_spec(t),
{
    reveal(sin_turn_spec);
    lemma_table_range();
}

/// Within one turn: the cosine of the opposite angle is the same cosine.
proof fn lemma_turn_reflected_quarter_on(t: int)
    requires
        0 <= t < 360,
    ensures
        sin_turn_spec((450 - t) % 360) == sin_turn_spec((t + 90) % 360),
{
    reveal(sin_turn_spec);
    lemma_table_range();
}

/// Turning the other way negates the sine and keeps the cosine.
pub proof fn lemma_reflection(theta: int)
    ensures
        sin_spec(-theta) == -sin_spec(theta),
        cos_spec(-theta) == cos_spec(theta),
{
    let t = normalize_spec(theta);
    assert(normalize_spec(-theta) == (360 - t) % 360);
    assert(normalize_spec(-theta + 90) == (450 - t) % 360);
    assert(normalize_spec(theta + 90) == (t + 90) % 360);
    lemma_turn_reflected(t);
    lemma_turn_reflected_quarter_on(t);
}

/// The sine is nonnegative in the first half turn and nonpositive in the
/// second; the cosine is nonnegative in the first and last quarter and
/// nonpositive in between.
pub proof fn lemma_quadrant_signs(theta: int)
    ensures
        normalize_spec(theta) <= 180 ==> sin_spec(theta) >= 0,
        normalize_spec(theta) >= 180 ==> sin_spec(theta) <= 0,
        normalize_spec(theta) <= 90 || normalize_spec(theta) >= 270 ==> cos_spec(theta) >= 0,
        90 <= normalize_spec(theta) <= 270 ==> cos_spec(theta) <= 0,
{
    reveal(sin_turn_spec);
    lemma_table_range();
}

/// The exact values on the axes and at thirty degrees.
pub proof fn lemma_exact_values()
    ensures
        sin_spec(0) == 0,
        cos_spec(0) == SCALE,
        sin_spec(90) == SCALE,
        cos_spec(90) == 0,
        sin_spec(180) == 0,
        cos_spec(180) == -SCALE,
        sin_spec(270) == -SCALE,
        cos_spec(270) == 0,
        2 * sin_spec(30) == SCALE,
        2 * cos_spec(60) == SCALE,
{
    reveal(sin_quadrant_spec);
    reveal(sin_turn_spec);
}

/// Sine and cosine of one angle are never both small: the larger of the two
/// in size is at least `sin(45)`.
pub proof fn lemma_never_both_small(theta: int)
    ensures
        sin_spec(theta) >= 46341 || sin_spec(theta) <= -46341 || cos_spec(theta) >= 46341
            || cos_spec(theta) <= -46341,
{
    reveal(sin_turn_spec);
    assert(sin_quadrant_spec(45) == 46341) by {
        reveal(sin_quadrant_spec);
    }
    assert forall|d: int| 45 <= d <= 90 implies #[trigger] sin_quadrant_spec(d) >= 46341 by {
        if d > 45 {
            lemma_table_increasing(45, d);
        }
    }
}

/// Rounding picks a nearest integer: the result is within a half of
/// `n / SCALE`.
pub proof fn lemma_scale_round_nearest(n: int)
    ensures
        -SCALE <= 2 * (SCALE * scale_round_spec(n) - n) <= SCALE,
{
}

/// Rounding is symmetric about zero.
pub proof fn lemma_scale_round_odd(n: int)
    ensures
        scale_round_spec(-n) == -scale_round_spec(n),
{
}

/// Rounding keeps the order of its arguments.
pub proof fn lemma_scale_round_monotone(a: int, b: int)
    requires
        a <= b,
    ensures
        scale_round_spec(a) <= scale_round_spec(b),
{
}

/// A whole multiple of `SCALE` rounds to that multiple.
pub proof fn lemma_scale_round_exact(k: int)
    ensures
        scale_round_spec(SCALE * k) == k,
{
}

/// A length times a sine or cosine, rounded, is no longer than the length.
pub proof fn lemma_scaled_within_radius(radius: int, unit: int)
    requires
        0 <= radius,
        -SCALE <= unit <= SCALE,
    ensures
        -radius <= scale_round_spec(radius * unit) <= radius,
{
    assert(-(SCALE * radius) <= radius * unit <= SCALE * radius) by (nonlinear_arith)
        requires
            0 <= radius,
            -SCALE <= unit <= SCALE,
    ;
    lemma_scale_round_monotone(radius * unit, SCALE * radius);
    lemma_scale_round_monotone(-(SCALE * radius), radius * unit);
    lemma_scale_round_exact(radius);
    lemma_scale_round_exact(-radius);
}

} // verus!
