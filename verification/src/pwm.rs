//! Mapping of command values to pulse widths in microseconds.
//!
//! Stick positions are carried in thousandths of full deflection, so that the value `1000` is
//! full deflection and the value `-1000` full deflection the other way. Pulse widths run from
//! [`PWM_MIN`] to [`PWM_MAX`].

use vstd::prelude::*;

verus! {

/// The shortest pulse width, in microseconds.
pub const PWM_MIN: u16 = 1000;

/// The longest pulse width, in microseconds.
pub const PWM_MAX: u16 = 2000;

/// Full deflection of a stick, in thousandths.
pub const FULL_DEFLECTION: i32 = 1000;

/// The point of the interval from `low` to `high` that lies nearest to `value`.
pub open spec fn clamped(value: int, low: int, high: int) -> int {
    if value < low {
        low
    } else if value > high {
        high
    } else {
        value
    }
}

/// The quotient of `num` and `den` rounded to the nearest integer, halves rounded up.
pub open spec fn rounded_quotient(num: int, den: int) -> int {
    (2 * num + den) / (2 * den)
}

/// The image of `value` under the line that takes `in_min` to `out_min` and `in_max` to
/// `out_max`, with `value` first limited to the input range, rounded to the nearest integer.
pub open spec fn scaled(value: int, in_min: int, in_max: int, out_min: int, out_max: int) -> int {
    out_min + rounded_quotient(
        (clamped(value, in_min, in_max) - in_min) * (out_max - out_min),
        in_max - in_min,
    )
}

/// The pulse width of a throttle command: idle at zero and below, one microsecond more for
/// each thousandth above, up to full throttle.
pub open spec fn throttle_pwm(milli: int) -> int {
    PWM_MIN + clamped(milli, 0, 1000)
}

/// The pulse width of a command that is centred at zero: one microsecond for each two
/// thousandths on either side of the middle, up to full deflection, halves rounded up.
pub open spec fn centered_pwm(milli: int) -> int {
    1500 + (clamped(milli, -1000, 1000) + 1) / 2
}

/// The pulse width of the mode channel: low for mode zero, high for every other mode.
pub open spec fn mode_pwm(flight_mode: u8) -> int {
    if flight_mode == 0 {
        PWM_MIN as int
    } else {
        PWM_MAX as int
    }
}

/// Scales `value` from the range `in_min..=in_max` to the range `out_min..=out_max`.
fn scale_to_pwm(value: i32, in_min: i32, in_max: i32, out_min: u16, out_max: u16) -> (pwm: u16)
    requires
        in_min < in_max,
        out_min <= out_max,
    ensures
        pwm == scaled(value as int, in_min as int, in_max as int, out_min as int, out_max as int),
        out_min <= pwm <= out_max,
{
    let limited: i32 = if value < in_min {
        in_min
    } else if value > in_max {
        in_max
    } else {
        value
    };
    let offset: i64 = limited as i64 - in_min as i64;
    let span: i64 = in_max as i64 - in_min as i64;
    let rise: i64 = out_max as i64 - out_min as i64;
    proof {
        lemma_rounded_quotient_bounds(offset as int, span as int, rise as int);
        assert(0 <= offset * rise <= 0xffff_ffff * 0xffff) by (nonlinear_arith)
            requires
                0 <= offset <= 0xffff_ffff,
                0 <= rise <= 0xffff,
        ;
    }
    let steps: i64 = (2 * (offset * rise) + span) / (2 * span);
    (out_min as i64 + steps) as u16
}

/// Rounding a part of `rise` stays between zero and `rise`.
proof fn lemma_rounded_quotient_bounds(offset: int, span: int, rise: int)
    requires
        0 <= offset <= span,
        0 < span,
        0 <= rise,
    ensures
        0 <= rounded_quotient(offset * rise, span) <= rise,
{
    let twice = 2 * (offset * rise) + span;
    assert(0 <= offset * rise <= span * rise) by (nonlinear_arith)
        requires
            0 <= offset <= span,
            0 <= rise,
    ;
    assert(0 <= twice / (2 * span) <= rise) by (nonlinear_arith)
        requires
            0 < span,
            span <= twice <= 2 * (span * rise) + span,
    ;
}

/// The throttle's pulse width is the range `0..=1000` scaled to the whole range of pulse widths.
pub proof fn throttle_is_scaled(milli: int)
    ensures
        scaled(milli, 0, 1000, PWM_MIN as int, PWM_MAX as int) == throttle_pwm(milli),
{
    let c = clamped(milli, 0, 1000);
    assert((c - 0) * (2000 - 1000) == 1000 * c);
    assert((2 * (1000 * c) + 1000) / 2000 == c);
}

/// A centred command's pulse width is the range `-1000..=1000` scaled to the whole range of
/// pulse widths.
pub proof fn centered_is_scaled(milli: int)
    ensures
        scaled(milli, -1000, 1000, PWM_MIN as int, PWM_MAX as int) == centered_pwm(milli),
{
    let c = clamped(milli, -1000, 1000);
    assert((c - (-1000)) * (2000 - 1000) == 1000 * (c + 1000));
    assert((2 * (1000 * (c + 1000)) + 2000) / 4000 == 500 + (c + 1) / 2);
}

/// The pulse width of a throttle command given in thousandths.
pub fn throttle_to_pwm(milli: i16) -> (pwm: u16)
    ensures
        pwm == throttle_pwm(milli as int),
        milli <= 0 ==> pwm == 1000,
        0 <= milli <= 1000 ==> pwm == 1000 + milli,
        milli >= 1000 ==> pwm == 2000,
{
    proof {
        throttle_is_scaled(milli as int);
    }
    scale_to_pwm(milli as i32, 0, FULL_DEFLECTION, PWM_MIN, PWM_MAX)
}

/// The pulse width of a command that is centred at zero and given in thousandths.
pub fn centered_to_pwm(milli: i32) -> (pwm: u16)
    ensures
        pwm == centered_pwm(milli as int),
        milli <= -1000 ==> pwm == 1000,
        -1000 <= milli <= 1000 ==> 0 <= 2 * (pwm - 1500) - milli <= 1,
        milli >= 1000 ==> pwm == 2000,
{
    proof {
        centered_is_scaled(milli as int);
    }
    scale_to_pwm(milli, -FULL_DEFLECTION, FULL_DEFLECTION, PWM_MIN, PWM_MAX)
}

/// The pulse width of the mode channel.
pub fn mode_to_pwm(flight_mode: u8) -> (pwm: u16)
    ensures
        pwm == mode_pwm(flight_mode),
        flight_mode == 0 <==> pwm == 1000,
        flight_mode != 0 <==> pwm == 2000,
{
    if flight_mode == 0 {
        PWM_MIN
    } else {
        PWM_MAX
    }
}

/// A rounded quotient differs from the exact one by at most a half.
pub proof fn rounded_quotient_is_nearest(num: int, den: int)
    requires
        den > 0,
    ensures
        2 * num - den < 2 * (den * rounded_quotient(num, den)) <= 2 * num + den,
{
    let q = rounded_quotient(num, den);
    assert(2 * num - den < 2 * (den * q) <= 2 * num + den) by (nonlinear_arith)
        requires
            den > 0,
            q == (2 * num + den) / (2 * den),
    ;
}

/// Scaling never turns a larger value into a smaller pulse width.
pub proof fn scaling_is_monotone(
    v: int,
    w: int,
    in_min: int,
    in_max: int,
    out_min: int,
    out_max: int,
)
    requires
        in_min < in_max,
        out_min <= out_max,
        v <= w,
    ensures
        scaled(v, in_min, in_max, out_min, out_max) <= scaled(w, in_min, in_max, out_min, out_max),
{
    let span = in_max - in_min;
    let rise = out_max - out_min;
    let low = clamped(v, in_min, in_max) - in_min;
    let high = clamped(w, in_min, in_max) - in_min;
    assert(low * rise <= high * rise) by (nonlinear_arith)
        requires
            low <= high,
            0 <= rise,
    ;
    vstd::arithmetic::div_mod::lemma_div_is_ordered(
        2 * (low * rise) + span,
        2 * (high * rise) + span,
        2 * span,
    );
}

/// Limiting a value keeps it where it lies in the range, and else takes the nearer end.
pub proof fn clamped_values_lie_in_range(value: int, low: int, high: int)
    requires
        low <= high,
    ensures
        low <= clamped(value, low, high) <= high,
        value <= low ==> clamped(value, low, high) == low,
        low <= value <= high ==> clamped(value, low, high) == value,
        value >= high ==> clamped(value, low, high) == high,
{
}

/// Scaling takes the ends of the input range, and what lies beyond them, to the ends of the
/// output range, and every value between to the integer nearest to its place on the line.
pub proof fn scaling_is_nearest_to_the_line(
    value: int,
    in_min: int,
    in_max: int,
    out_min: int,
    out_max: int,
)
    requires
        in_min < in_max,
        out_min <= out_max,
    ensures
        ({
            let result = scaled(value, in_min, in_max, out_min, out_max);
            let exact = (value - in_min) * (out_max - out_min);
            &&& value <= in_min ==> result == out_min
            &&& value >= in_max ==> result == out_max
            &&& in_min <= value <= in_max ==> 2 * exact - (in_max - in_min) < 2 * ((in_max
                - in_min) * (result - out_min)) <= 2 * exact + (in_max - in_min)
        }),
{
    let span = in_max - in_min;
    let rise = out_max - out_min;
    let offset = clamped(value, in_min, in_max) - in_min;
    rounded_quotient_is_nearest(offset * rise, span);
    let q = rounded_quotient(offset * rise, span);
    if value <= in_min {
        assert(offset * rise == 0) by (nonlinear_arith)
            requires
                offset == 0,
        ;
        assert(q == 0) by (nonlinear_arith)
            requires
                span > 0,
                -span < 2 * (span * q) <= span,
        ;
    }
    if value >= in_max {
        assert(offset * rise == span * rise);
        assert(q == rise) by (nonlinear_arith)
            requires
                span > 0,
                2 * (span * rise) - span < 2 * (span * q) <= 2 * (span * rise) + span,
        ;
    }
}

/// The pulse width of the throttle counts the thousandths above idle.
pub proof fn throttle_counts_thousandths(milli: int)
    ensures
        milli <= 0 ==> throttle_pwm(milli) == 1000,
        0 <= milli <= 1000 ==> throttle_pwm(milli) == 1000 + milli,
        milli >= 1000 ==> throttle_pwm(milli) == 2000,
{
}

/// The pulse width of a centred command counts pairs of thousandths from the middle; an odd one
/// out counts upwards.
pub proof fn centered_commands_count_pairs(milli: int)
    ensures
        milli <= -1000 ==> centered_pwm(milli) == 1000,
        -1000 <= milli <= 1000 ==> 0 <= 2 * (centered_pwm(milli) - 1500) - milli <= 1,
        milli >= 1000 ==> centered_pwm(milli) == 2000,
{
}

/// The mode channel tells mode zero from all others.
pub proof fn mode_channel_tells_zero(flight_mode: u8)
    ensures
        flight_mode == 0 <==> mode_pwm(flight_mode) == 1000,
        flight_mode != 0 <==> mode_pwm(flight_mode) == 2000,
{
}

/// A command beyond full deflection counts as full deflection.
pub proof fn commands_saturate(milli: int)
    ensures
        milli <= 0 ==> throttle_pwm(milli) == PWM_MIN,
        milli >= 1000 ==> throttle_pwm(milli) == PWM_MAX,
        milli <= -1000 ==> centered_pwm(milli) == PWM_MIN,
        milli >= 1000 ==> centered_pwm(milli) == PWM_MAX,
{
}

/// Within the stick's travel, one thousandth of throttle is one microsecond.
pub proof fn throttle_keeps_every_step(milli: int)
    requires
        0 <= milli <= 1000,
    ensures
        throttle_pwm(milli) - PWM_MIN == milli,
{
}

/// Opposite commands lie on opposite sides of the middle, the same distance from it up to the
/// microsecond that rounding may add.
pub proof fn centered_commands_are_symmetric(milli: int)
    ensures
        3000 <= centered_pwm(milli) + centered_pwm(-milli) <= 3001,
        milli % 2 == 0 ==> centered_pwm(milli) + centered_pwm(-milli) == 3000,
{
}

} // verus!
