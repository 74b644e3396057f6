//! Court dimensions, clamping, angles and fixed-point sine and cosine.
use vstd::prelude::*;

verus! {

/// Half of the court's width, in thousandths of a pixel.
pub const COURT_HALF_WIDTH: i64 = 256_000;

/// Half of the court's height, in thousandths of a pixel.
pub const COURT_HALF_HEIGHT: i64 = 256_000;

/// Half of a paddle's width.
pub const PADDLE_HALF_WIDTH: i64 = 4_000;

/// Half of a paddle's height.
pub const PADDLE_HALF_HEIGHT: i64 = 32_000;

/// Half of the ball's side (the ball is a square).
pub const BALL_HALF_SIZE: i64 = 4_000;

/// Largest distance of a paddle's center from the court's horizontal axis.
pub const PADDLE_Y_LIMIT: i64 = COURT_HALF_HEIGHT - PADDLE_HALF_HEIGHT;

/// Largest distance of the ball's center from the court's horizontal axis.
pub const BALL_Y_LIMIT: i64 = COURT_HALF_HEIGHT - BALL_HALF_SIZE;

/// Deflection of a ball that hits a paddle one half-height off its center:
/// 45 degrees. This fixes the angle unit, so that the deflection in angle
/// units equals the vertical offset in length units.
pub const MAX_DEFLECTION: i64 = PADDLE_HALF_HEIGHT;

/// 90 degrees.
pub const QUARTER_TURN: i64 = 2 * MAX_DEFLECTION;

/// 180 degrees.
pub const HALF_TURN: i64 = 4 * MAX_DEFLECTION;

/// 360 degrees.
pub const FULL_TURN: i64 = 8 * MAX_DEFLECTION;

/// Fixed-point one: sines and cosines are stated in millionths.
pub const UNIT: i64 = 1_000_000;

/// The constant of the sine approximation: five quarters of a half turn
/// squared, that is five times a quarter turn squared.
pub const SINE_DENOM: i64 = 5 * QUARTER_TURN * QUARTER_TURN;

pub open spec fn clamp_spec(v: int, lo: int, hi: int) -> int {
    if v < lo {
        lo
    } else if v > hi {
        hi
    } else {
        v
    }
}

/// `v` limited to the range `[lo, hi]`.
pub fn clamp(v: i64, lo: i64, hi: i64) -> (r: i64)
    requires
        lo <= hi,
    ensures
        r == clamp_spec(v as int, lo as int, hi as int),
        lo <= r <= hi,
{
    if v < lo {
        lo
    } else if v > hi {
        hi
    } else {
        v
    }
}

/// An angle in `[0, FULL_TURN)`.
pub open spec fn is_angle(a: int) -> bool {
    0 <= a < FULL_TURN
}

/// The angle `a`, taken modulo a full turn.
pub open spec fn wrap_angle(a: int) -> int {
    a % (FULL_TURN as int)
}

/// `-a`, as an angle.
pub open spec fn negate_angle(a: int) -> int {
    wrap_angle(FULL_TURN - a)
}

/// `180 degrees - a`, as an angle: the mirror image across the vertical axis.
pub open spec fn mirror_angle(a: int) -> int {
    wrap_angle(HALF_TURN - a)
}

/// An angle that is at most one full turn away from `[0, FULL_TURN)`, wrapped into it.
pub fn wrap(a: i64) -> (r: i64)
    requires
        -FULL_TURN <= a < 2 * FULL_TURN,
    ensures
        r == wrap_angle(a as int),
        is_angle(r as int),
{
    if a < 0 {
        a + FULL_TURN
    } else if a >= FULL_TURN {
        a - FULL_TURN
    } else {
        a
    }
}

/// `d * (HALF_TURN - d)`: the product behind the sine approximation.
pub open spec fn sine_product(d: int) -> int {
    d * (HALF_TURN - d)
}

/// Sine of `d` in `[0, HALF_TURN]`, in millionths, by Bhaskara's rational
/// approximation `4p / (5 H^2 / 4 - p)` with `p = d (H - d)`, `H` a half turn.
/// Exact at 0, 30, 90, 150 and 180 degrees.
pub open spec fn half_sine(d: int) -> int {
    (UNIT * (4 * sine_product(d))) / (SINE_DENOM - sine_product(d))
}

/// Sine of an angle in `[0, FULL_TURN)`, in millionths.
pub open spec fn sine(a: int) -> int {
    if a <= HALF_TURN {
        half_sine(a)
    } else {
        -half_sine(a - HALF_TURN)
    }
}

/// Cosine of an angle in `[0, FULL_TURN)`, in millionths.
pub open spec fn cosine(a: int) -> int {
    if a <= QUARTER_TURN {
        half_sine(a + QUARTER_TURN)
    } else if a <= 3 * QUARTER_TURN {
        -half_sine(a - QUARTER_TURN)
    } else {
        half_sine(a - 3 * QUARTER_TURN)
    }
}

proof fn lemma_sine_product_bounds(d: int)
    requires
        0 <= d <= HALF_TURN,
    ensures
        0 <= sine_product(d) <= (HALF_TURN as int) * (HALF_TURN as int) / 4,
{
    let h = HALF_TURN as int;
    assert(0 <= d * (h - d)) by (nonlinear_arith)
        requires
            0 <= d <= h,
    ;
    assert(4 * (d * (h - d)) <= h * h) by (nonlinear_arith);
}

/// The approximated sine on a half turn lies in `[0, UNIT]`.
pub proof fn lemma_half_sine_bounds(d: int)
    requires
        0 <= d <= HALF_TURN,
    ensures
        0 <= half_sine(d) <= UNIT,
{
    lemma_sine_product_bounds(d);
    let p = sine_product(d);
    let den = SINE_DENOM - p;
    assert(den > 0);
    assert(UNIT * (4 * p) <= UNIT * den) by (nonlinear_arith)
        requires
            4 * p <= den,
    ;
    vstd::arithmetic::div_mod::lemma_div_is_ordered(UNIT * (4 * p), UNIT * den, den);
    vstd::arithmetic::div_mod::lemma_div_multiples_vanish(UNIT as int, den);
    vstd::arithmetic::div_mod::lemma_div_pos_is_pos(UNIT * (4 * p), den);
}

/// The approximated sine is symmetric about 90 degrees.
pub proof fn lemma_half_sine_symmetric(d: int)
    ensures
        half_sine(d) == half_sine(HALF_TURN - d),
{
    assert(sine_product(d) == sine_product(HALF_TURN - d)) by (nonlinear_arith);
}

pub proof fn lemma_sine_cosine_bounds(a: int)
    requires
        is_angle(a),
    ensures
        -UNIT <= sine(a) <= UNIT,
        -UNIT <= cosine(a) <= UNIT,
{
    if a <= HALF_TURN {
        lemma_half_sine_bounds(a);
    } else {
        lemma_half_sine_bounds(a - HALF_TURN);
    }
    if a <= QUARTER_TURN {
        lemma_half_sine_bounds(a + QUARTER_TURN);
    } else if a <= 3 * QUARTER_TURN {
        lemma_half_sine_bounds(a - QUARTER_TURN);
    } else {
        lemma_half_sine_bounds(a - 3 * QUARTER_TURN);
    }
}

/// Negating an angle negates its sine and keeps its cosine.
pub proof fn lemma_negate_angle(a: int)
    requires
        is_angle(a),
    ensures
        is_angle(negate_angle(a)),
        sine(negate_angle(a)) == -sine(a),
        cosine(negate_angle(a)) == cosine(a),
{
    lemma_half_sine_symmetric(a);
    lemma_half_sine_symmetric(a - HALF_TURN);
    lemma_half_sine_symmetric(a + QUARTER_TURN);
    lemma_half_sine_symmetric(a - QUARTER_TURN);
    lemma_half_sine_symmetric(QUARTER_TURN - a);
    lemma_half_sine_symmetric(a - 3 * QUARTER_TURN);
    assert(half_sine(0) == 0);
    assert(half_sine(HALF_TURN as int) == 0);
}

/// Mirroring an angle across the vertical axis negates its cosine and keeps its sine.
pub proof fn lemma_mirror_angle(a: int)
    requires
        is_angle(a),
    ensures
        is_angle(mirror_angle(a)),
        sine(mirror_angle(a)) == sine(a),
        cosine(mirror_angle(a)) == -cosine(a),
{
    lemma_half_sine_symmetric(a);
    lemma_half_sine_symmetric(a - HALF_TURN);
    lemma_half_sine_symmetric(a + QUARTER_TURN);
    lemma_half_sine_symmetric(a - QUARTER_TURN);
    lemma_half_sine_symmetric(QUARTER_TURN - a);
    lemma_half_sine_symmetric(a - 3 * QUARTER_TURN);
    assert(half_sine(0) == 0);
    assert(half_sine(HALF_TURN as int) == 0);
}

/// Largest distance the ball covers along one axis in one tick:
/// its speed times the longest tick, `BALL_SPEED * u32::MAX`.
pub const MAX_TRAVEL: i64 = 1_099_511_627_520;

/// `m` times the fixed-point factor `c`, rounded toward zero, so that
/// negating `c` negates the result.
pub open spec fn scaled(m: int, c: int) -> int {
    if c >= 0 {
        m * c / (UNIT as int)
    } else {
        -(m * (-c) / (UNIT as int))
    }
}

proof fn lemma_scaled_nonneg_bounds(m: int, c: int)
    requires
        0 <= m,
        0 <= c <= UNIT,
    ensures
        0 <= m * c / (UNIT as int) <= m,
        m * c <= m * UNIT,
{
    assert(0 <= m * c <= m * UNIT) by (nonlinear_arith)
        requires
            0 <= m,
            0 <= c <= UNIT,
    ;
    vstd::arithmetic::div_mod::lemma_div_is_ordered(m * c, m * UNIT, UNIT as int);
    vstd::arithmetic::div_mod::lemma_div_multiples_vanish(m, UNIT as int);
    vstd::arithmetic::div_mod::lemma_div_pos_is_pos(m * c, UNIT as int);
}

/// A scaled length is no longer than the length.
pub proof fn lemma_scaled_bounds(m: int, c: int)
    requires
        0 <= m,
        -UNIT <= c <= UNIT,
    ensures
        -m <= scaled(m, c) <= m,
        c == 0 ==> scaled(m, c) == 0,
        m == 0 ==> scaled(m, c) == 0,
{
    if c >= 0 {
        lemma_scaled_nonneg_bounds(m, c);
    } else {
        lemma_scaled_nonneg_bounds(m, -c);
    }
    if m == 0 {
        assert(m * c == 0 && m * (-c) == 0) by (nonlinear_arith)
            requires
                m == 0,
        ;
    }
}

/// A length `m` scaled by a sine or cosine `c`: the component of `m` along one axis.
pub fn scale(m: i64, c: i64) -> (r: i64)
    requires
        0 <= m <= MAX_TRAVEL,
        -UNIT <= c <= UNIT,
    ensures
        r == scaled(m as int, c as int),
        -m <= r <= m,
{
    if c >= 0 {
        proof {
            lemma_scaled_nonneg_bounds(m as int, c as int);
        }
        m * c / UNIT
    } else {
        proof {
            lemma_scaled_nonneg_bounds(m as int, -c);
        }
        -(m * (-c) / UNIT)
    }
}

/// The approximated sine of `d` in `[0, HALF_TURN]`.
fn half_sine_of(d: i64) -> (r: i64)
    requires
        0 <= d <= HALF_TURN,
    ensures
        r == half_sine(d as int),
{
    proof {
        lemma_sine_product_bounds(d as int);
    }
    let p: i64 = d * (HALF_TURN - d);
    UNIT * (4 * p) / (SINE_DENOM - p)
}

/// The sine of an angle, in millionths.
pub fn sine_of(a: i64) -> (r: i64)
    requires
        is_angle(a as int),
    ensures
        r == sine(a as int),
        -UNIT <= r <= UNIT,
{
    proof {
        lemma_sine_cosine_bounds(a as int);
    }
    if a <= HALF_TURN {
        half_sine_of(a)
    } else {
        proof {
            lemma_half_sine_bounds(a - HALF_TURN);
        }
        -half_sine_of(a - HALF_TURN)
    }
}

/// The cosine of an angle, in millionths.
pub fn cosine_of(a: i64) -> (r: i64)
    requires
        is_angle(a as int),
    ensures
        r == cosine(a as int),
        -UNIT <= r <= UNIT,
{
    proof {
        lemma_sine_cosine_bounds(a as int);
    }
    if a <= QUARTER_TURN {
        half_sine_of(a + QUARTER_TURN)
    } else if a <= 3 * QUARTER_TURN {
        proof {
            lemma_half_sine_bounds(a - QUARTER_TURN);
        }
        -half_sine_of(a - QUARTER_TURN)
    } else {
        half_sine_of(a - 3 * QUARTER_TURN)
    }
}

} // verus!
