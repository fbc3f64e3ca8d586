//! Single-precision numbers as their bit patterns.
//!
//! A pattern is split into a sign and a magnitude. Magnitudes below that of
//! infinity are numbers and ascend with their patterns, so that order and
//! equality of numbers are order and equality of integers.
use vstd::prelude::*;
use vstd::arithmetic::power2::{lemma_pow2_pos, lemma_pow2_strictly_increases, pow2};
use vstd::bits::{lemma_u64_shl_is_mul, lemma_u64_shr_is_div};

verus! {

/// Patterns from here on carry a negative sign.
pub const SIGN: u32 = 0x8000_0000;

/// The magnitude of infinity.
pub const INFINITE: u32 = 0x7f80_0000;

/// The magnitude of a pattern.
pub open spec fn magnitude_of(bits: u32) -> int {
    bits as int % 0x8000_0000
}

/// Whether a pattern is a number: neither infinite nor not a number.
pub open spec fn finite(bits: u32) -> bool {
    magnitude_of(bits) < 0x7f80_0000
}

/// Whether a pattern is not a number.
pub open spec fn not_a_number(bits: u32) -> bool {
    magnitude_of(bits) > 0x7f80_0000
}

/// Where a pattern stands in the order of numbers. Both zeros stand at zero.
pub open spec fn rank(bits: u32) -> int {
    if bits >= 0x8000_0000 {
        -magnitude_of(bits)
    } else {
        magnitude_of(bits)
    }
}

/// Whether two patterns compare equal: never if one is not a number.
pub open spec fn compare_equal(left: u32, right: u32) -> bool {
    !not_a_number(left) && !not_a_number(right) && rank(left) == rank(right)
}

fn magnitude(bits: u32) -> (magnitude: u32)
    ensures
        magnitude == magnitude_of(bits),
{
    bits % SIGN
}

/// Returns whether a pattern is a number.
pub fn is_finite(bits: u32) -> (result: bool)
    ensures
        result == finite(bits),
{
    magnitude(bits) < INFINITE
}

/// Returns where a pattern stands in the order of numbers.
pub fn order(bits: u32) -> (order: i64)
    ensures
        order == rank(bits),
{
    let magnitude = magnitude(bits) as i64;
    if bits >= SIGN {
        -magnitude
    } else {
        magnitude
    }
}

/// Returns whether two patterns compare equal.
pub fn equal(left: u32, right: u32) -> (result: bool)
    ensures
        result == compare_equal(left, right),
{
    magnitude(left) <= INFINITE && magnitude(right) <= INFINITE && order(left) == order(right)
}

/// The significand of a number: its fraction, with the leading one that only
/// the smallest numbers lack.
pub open spec fn significand(bits: u32) -> int {
    let fraction = bits as int % 0x80_0000;
    if magnitude_of(bits) >= 0x80_0000 {
        0x80_0000 + fraction
    } else {
        fraction
    }
}

/// The power of two by which the significand of a number is multiplied.
pub open spec fn exponent(bits: u32) -> int {
    let biased = magnitude_of(bits) / 0x80_0000;
    if biased == 0 {
        -149
    } else {
        biased - 150
    }
}

/// The integral part of the magnitude of a number.
pub open spec fn whole(bits: u32) -> int {
    if exponent(bits) >= 0 {
        significand(bits) * pow2(exponent(bits) as nat)
    } else {
        significand(bits) / (pow2((-exponent(bits)) as nat) as int)
    }
}

/// Whether the magnitude of a number has a fractional part.
pub open spec fn fractional(bits: u32) -> bool {
    exponent(bits) < 0 && significand(bits) % (pow2((-exponent(bits)) as nat) as int) != 0
}

/// The largest integer that is not above a number.
pub open spec fn floor_of(bits: u32) -> int {
    if bits < 0x8000_0000 {
        whole(bits)
    } else if fractional(bits) {
        -whole(bits) - 1
    } else {
        -whole(bits)
    }
}

/// The smallest integer that is not below a number.
pub open spec fn ceiling_of(bits: u32) -> int {
    if bits >= 0x8000_0000 {
        -whole(bits)
    } else if fractional(bits) {
        whole(bits) + 1
    } else {
        whole(bits)
    }
}

/// From here on, numbers are too large to be a coordinate of anything.
pub const HUGE: i64 = 0x100_0000_0000;

proof fn lemma_shifts(power: nat)
    requires
        power <= 16,
    ensures
        1 <= pow2(power) <= 0x1_0000,
{
    vstd::arithmetic::power2::lemma2_to64();
    if power < 16 {
        lemma_pow2_strictly_increases(power, 16);
    }
    lemma_pow2_pos(power);
}

/// How large the integral part is goes by the exponent.
proof fn lemma_whole_is_bounded(bits: u32)
    requires
        finite(bits),
    ensures
        0 <= significand(bits) < 0x100_0000,
        exponent(bits) > 16 ==> whole(bits) >= HUGE,
        exponent(bits) <= 16 ==> 0 <= whole(bits) < HUGE,
        exponent(bits) <= 8 ==> whole(bits) <= 0xffff_ff00,
        exponent(bits) < 0 ==> whole(bits) < 0x100_0000,
{
    let e = exponent(bits);
    let s = significand(bits);
    vstd::arithmetic::power2::lemma2_to64();
    if e > 16 {
        let power = pow2(e as nat) as int;
        if e > 17 {
            lemma_pow2_strictly_increases(17, e as nat);
        }
        assert(s * power >= 0x100_0000_0000) by (nonlinear_arith)
            requires
                s >= 0x80_0000,
                power >= 0x2_0000,
        ;
    } else if e >= 0 {
        lemma_shifts(e as nat);
        let power = pow2(e as nat) as int;
        assert(0 <= s * power < 0x100_0000 * 0x1_0000) by (nonlinear_arith)
            requires
                0 <= s < 0x100_0000,
                1 <= power <= 0x1_0000,
        ;
        if e <= 8 {
            if e < 8 {
                lemma_pow2_strictly_increases(e as nat, 8);
            }
            assert(s * power <= 0xff_ffff * 0x100) by (nonlinear_arith)
                requires
                    0 <= s <= 0xff_ffff,
                    1 <= power <= 0x100,
            ;
        }
    } else {
        let power = pow2((-e) as nat) as int;
        lemma_pow2_pos((-e) as nat);
        assert(0 <= s / power <= s) by (nonlinear_arith)
            requires
                0 <= s,
                power >= 1,
        ;
    }
}

/// Splits the magnitude of a number into its integral part, unless that is
/// huge, and whether it has a fractional part.
fn split(bits: u32) -> (parts: Option<(i64, bool)>)
    requires
        finite(bits),
    ensures
        match parts {
            Some((integral, fraction)) => {
                &&& integral == whole(bits)
                &&& fraction == fractional(bits)
                &&& 0 <= integral < HUGE
            },
            None => whole(bits) >= HUGE,
        },
{
    let magnitude = magnitude(bits);
    let biased: u32 = magnitude / 0x80_0000;
    let value: u64 = if magnitude >= 0x80_0000 {
        0x80_0000 + (magnitude % 0x80_0000) as u64
    } else {
        magnitude as u64
    };
    proof {
        assert(bits as int % 0x80_0000 == magnitude as int % 0x80_0000);
        assert(value == significand(bits));
        lemma_whole_is_bounded(bits);
    }
    if biased > 166 {
        return None;
    }
    if biased >= 150 {
        let shift: u64 = (biased - 150) as u64;
        proof {
            lemma_shifts(shift as nat);
            lemma_u64_shl_is_mul(value, shift);
        }
        return Some(((value << shift) as i64, false));
    }
    let shift: u64 = if biased == 0 {
        149
    } else {
        (150 - biased) as u64
    };
    let ghost power = pow2(shift as nat) as int;
    proof {
        lemma_pow2_pos(shift as nat);
        assert(-exponent(bits) == shift);
    }
    if shift >= 64 {
        proof {
            if shift > 64 {
                lemma_pow2_strictly_increases(64, shift as nat);
            }
            vstd::arithmetic::power2::lemma2_to64();
            assert(value as int / power == 0 && value as int % power == value) by (nonlinear_arith)
                requires
                    0 <= value < power,
            ;
        }
        return Some((0, value != 0));
    }
    proof {
        lemma_u64_shr_is_div(value, shift);
    }
    let integral: u64 = value >> shift;
    proof {
        assert(integral as int * power <= value) by (nonlinear_arith)
            requires
                integral == value as int / power,
                power >= 1,
                value >= 0,
        ;
        assert(value as int % power == value - integral * power) by (nonlinear_arith)
            requires
                integral == value as int / power,
                power >= 1,
        ;
        assert(integral <= value) by (nonlinear_arith)
            requires
                integral == value as int / power,
                power >= 1,
                value >= 0,
        ;
        lemma_u64_shl_is_mul(integral, shift);
    }
    Some((integral as i64, (integral << shift) != value))
}

/// Returns the largest integer that is not above a number, unless the number
/// is huge.
pub fn floor(bits: u32) -> (integer: Option<i64>)
    requires
        finite(bits),
    ensures
        match integer {
            Some(integer) => integer == floor_of(bits) && -HUGE <= integer < HUGE,
            None => if bits < 0x8000_0000 {
                floor_of(bits) >= HUGE
            } else {
                floor_of(bits) <= -HUGE
            },
        },
{
    match split(bits) {
        None => None,
        Some((integral, fraction)) => {
            if bits < SIGN {
                Some(integral)
            } else if fraction {
                Some(-integral - 1)
            } else {
                Some(-integral)
            }
        },
    }
}

/// Returns the smallest integer that is not below a number, unless the number
/// is huge.
pub fn ceiling(bits: u32) -> (integer: Option<i64>)
    requires
        finite(bits),
    ensures
        match integer {
            Some(integer) => integer == ceiling_of(bits) && -HUGE < integer <= HUGE,
            None => if bits < 0x8000_0000 {
                ceiling_of(bits) >= HUGE
            } else {
                ceiling_of(bits) <= -HUGE
            },
        },
{
    match split(bits) {
        None => None,
        Some((integral, fraction)) => {
            if bits >= SIGN {
                Some(-integral)
            } else if fraction {
                Some(integral + 1)
            } else {
                Some(integral)
            }
        },
    }
}

/// The bit pattern of 4294967296.0, the first number past the range of `u32`.
pub const PAST_U32: u32 = 0x4f80_0000;

/// Returns a positive number below that first one, rounded up.
pub fn ceiling_u32(bits: u32) -> (integer: u32)
    requires
        finite(bits),
        0 <= rank(bits) < rank(PAST_U32),
    ensures
        integer == ceiling_of(bits),
{
    proof {
        lemma_whole_is_bounded(bits);
        assert(exponent(bits) <= 8);
        assert(0 <= ceiling_of(bits) <= u32::MAX) by {
            if bits >= 0x8000_0000 {
                assert(magnitude_of(bits) == 0);
                assert(significand(bits) == 0);
                lemma_pow2_pos(149);
                assert(0int / (pow2(149) as int) == 0) by (nonlinear_arith)
                    requires
                        pow2(149) >= 1,
                ;
            }
        }
    }
    match ceiling(bits) {
        Some(integer) => integer as u32,
        None => 0,
    }
}

/// The distance between single-precision numbers at an integer: their
/// significands have twenty-four bits.
pub open spec fn spacing(value: nat) -> nat
    decreases value,
{
    if value < 0x100_0000 {
        1
    } else {
        2 * spacing(value / 2)
    }
}

/// The single-precision number that is nearest to an integer. Of two that are
/// equally near, it is the one with the even significand.
pub open spec fn nearest_single(value: u32) -> int {
    let step = spacing(value as nat) as int;
    let rest = value as int % step;
    let below = value - rest;
    if 2 * rest < step || (2 * rest == step && (below / step) % 2 == 0) {
        below
    } else {
        below + step
    }
}

proof fn lemma_spacing(value: nat)
    ensures
        spacing(value) >= 1,
        value >= 0x80_0000 ==> spacing(value) * 0x80_0000 <= value,
    decreases value,
{
    if value >= 0x100_0000 {
        lemma_spacing(value / 2);
    }
}

fn spacing_at(value: u32) -> (step: u32)
    ensures
        step == spacing(value as nat),
        1 <= step <= 0x200,
    decreases value,
{
    proof {
        lemma_spacing(value as nat);
    }
    if value < 0x100_0000 {
        1
    } else {
        2 * spacing_at(value / 2)
    }
}

/// Returns the single-precision number that is nearest to an integer.
pub fn rounded_to_single(value: u32) -> (rounded: i64)
    ensures
        rounded == nearest_single(value),
        0 <= rounded < HUGE,
{
    let step = spacing_at(value);
    let rest: u32 = value % step;
    let below: u32 = value - rest;
    if 2 * rest < step || (2 * rest == step && (below / step) % 2 == 0) {
        below as i64
    } else {
        below as i64 + step as i64
    }
}

proof fn lemma_spacing_divides(value: nat, factor: nat, power: nat)
    requires
        factor < 0x100_0000,
        value == factor * pow2(power),
    ensures
        value % spacing(value) == 0,
    decreases power,
{
    lemma_spacing(value);
    if value >= 0x100_0000 {
        vstd::arithmetic::power2::lemma2_to64();
        if power == 0 {
            assert(value == factor) by (nonlinear_arith)
                requires
                    value == factor * pow2(power),
                    pow2(power) == 1,
            ;
        }
        vstd::arithmetic::power2::lemma_pow2_unfold(power);
        let half = factor * pow2((power - 1) as nat);
        assert(value == 2 * half) by (nonlinear_arith)
            requires
                value == factor * pow2(power),
                pow2(power) == 2 * pow2((power - 1) as nat),
                half == factor * pow2((power - 1) as nat),
        ;
        lemma_spacing_divides(half, factor, (power - 1) as nat);
        lemma_spacing(half);
        let step = spacing(half) as int;
        let times = half as int / step;
        vstd::arithmetic::div_mod::lemma_fundamental_div_mod(half as int, step);
        assert(2 * half == times * (2 * step)) by (nonlinear_arith)
            requires
                half == step * times,
        ;
        vstd::arithmetic::div_mod::lemma_mod_multiples_basic(times, 2 * step);
    }
}

/// A number that was rounded up to a `u32` is a single-precision number.
pub proof fn lemma_ceilings_are_single(bits: u32, integer: u32)
    requires
        finite(bits),
        0 <= rank(bits) < rank(PAST_U32),
        integer == ceiling_of(bits),
    ensures
        nearest_single(integer) == integer,
{
    lemma_whole_is_bounded(bits);
    let value = integer as nat;
    lemma_spacing(value);
    assert(value % spacing(value) == 0) by {
        if exponent(bits) >= 0 {
            assert(bits < 0x8000_0000);
            assert(value == whole(bits));
            lemma_spacing_divides(value, significand(bits) as nat, exponent(bits) as nat);
        } else if value == 0x100_0000 {
            assert(spacing(0x80_0000) == 1);
            assert(spacing(0x100_0000) == 2 * spacing(0x80_0000));
            assert(0x100_0000nat % 2nat == 0);
        }
    }
}

/// The numerator of a number over its power of two, with its sign.
pub open spec fn numerator(bits: u32) -> int {
    if bits >= 0x8000_0000 {
        -significand(bits)
    } else {
        significand(bits)
    }
}

/// A pattern is finite unless all bits of its exponent are set; of those, the
/// ones with a fraction are not numbers.
pub proof fn law_exponents_tell_numbers_apart(bits: u32)
    ensures
        finite(bits) <==> magnitude_of(bits) / 0x80_0000 < 255,
        not_a_number(bits) <==> magnitude_of(bits) / 0x80_0000 == 255 && magnitude_of(bits)
            % 0x80_0000 != 0,
{
}

/// A pattern is put together again from its exponent and its significand.
pub proof fn law_a_pattern_is_its_exponent_and_significand(bits: u32)
    ensures
        magnitude_of(bits) >= 0x80_0000 ==> magnitude_of(bits) == (exponent(bits) + 149)
            * 0x80_0000 + significand(bits),
        magnitude_of(bits) < 0x80_0000 ==> magnitude_of(bits) == significand(bits) && exponent(bits)
            == -149,
        exponent(bits) >= -149,
{
}

/// Numbers are ordered as their patterns are, those with a sign the other way
/// round, and both zeros alike.
pub proof fn law_numbers_are_ordered_by_their_patterns(left: u32, right: u32)
    ensures
        left < right < 0x8000_0000 ==> rank(left) < rank(right),
        0x8000_0000 <= left < right ==> rank(left) > rank(right),
        left < 0x8000_0000 <= right ==> rank(left) >= rank(right),
        left < 0x8000_0000 <= right ==> (rank(left) == rank(right) <==> left == 0 && right
            == 0x8000_0000),
{
}

/// A number equals itself and, if it is a zero, the other zero; what is not a
/// number equals nothing.
pub proof fn law_equal_numbers_have_equal_patterns(left: u32, right: u32)
    ensures
        !not_a_number(left) ==> compare_equal(left, left),
        not_a_number(left) || not_a_number(right) ==> !compare_equal(left, right),
        compare_equal(left, right) == compare_equal(right, left),
        compare_equal(left, right) && left != right ==> magnitude_of(left) == 0 && magnitude_of(
            right,
        ) == 0,
        compare_equal(0, 0x8000_0000),
{
}

/// The floor of a number is the integer next below it and the ceiling the one
/// next above it.
pub proof fn law_floor_and_ceiling_enclose_the_number(bits: u32)
    requires
        finite(bits),
    ensures
        exponent(bits) >= 0 ==> floor_of(bits) == numerator(bits) * pow2(exponent(bits) as nat)
            && ceiling_of(bits) == floor_of(bits),
        exponent(bits) < 0 ==> ({
            let power = pow2((-exponent(bits)) as nat) as int;
            &&& floor_of(bits) * power <= numerator(bits) < (floor_of(bits) + 1) * power
            &&& (ceiling_of(bits) - 1) * power < numerator(bits) <= ceiling_of(bits) * power
        }),
{
    let s = significand(bits);
    if exponent(bits) >= 0 {
        let power = pow2(exponent(bits) as nat) as int;
        assert(-(s * power) == (-s) * power) by (nonlinear_arith);
    } else {
        let power = pow2((-exponent(bits)) as nat) as int;
        lemma_pow2_pos((-exponent(bits)) as nat);
        let q = s / power;
        let r = s % power;
        vstd::arithmetic::div_mod::lemma_fundamental_div_mod(s, power);
        assert(0 <= r < power);
        assert(s == power * q + r);
        let f = floor_of(bits);
        let c = ceiling_of(bits);
        if bits < 0x8000_0000 {
            assert(f * power <= s < (f + 1) * power) by (nonlinear_arith)
                requires
                    f == q,
                    s == power * q + r,
                    0 <= r < power,
            ;
            assert((c - 1) * power < s <= c * power) by (nonlinear_arith)
                requires
                    c == (if r != 0 {
                        q + 1
                    } else {
                        q
                    }),
                    s == power * q + r,
                    0 <= r < power,
            ;
        } else {
            assert(f * power <= -s < (f + 1) * power) by (nonlinear_arith)
                requires
                    f == (if r != 0 {
                        -q - 1
                    } else {
                        -q
                    }),
                    s == power * q + r,
                    0 <= r < power,
            ;
            assert((c - 1) * power < -s <= c * power) by (nonlinear_arith)
                requires
                    c == -q,
                    s == power * q + r,
                    0 <= r < power,
            ;
        }
    }
}

/// A rounded integer is a multiple of the spacing of numbers of its size, no
/// further away than half of it; small integers are kept, and of two that are
/// equally near the even one is taken.
pub proof fn law_integers_round_to_the_nearest_single(value: u32)
    ensures
        value < 0x100_0000 ==> nearest_single(value) == value,
        nearest_single(value) % (spacing(value as nat) as int) == 0,
        -(spacing(value as nat) as int) <= 2 * (nearest_single(value) - value) <= spacing(
            value as nat,
        ),
        2 * (nearest_single(value) - value) == spacing(value as nat) || 2 * (value
            - nearest_single(value)) == spacing(value as nat) ==> (nearest_single(value) / (spacing(
            value as nat,
        ) as int)) % 2 == 0,
{
    let step = spacing(value as nat) as int;
    lemma_spacing(value as nat);
    let q = value as int / step;
    let r = value as int % step;
    vstd::arithmetic::div_mod::lemma_fundamental_div_mod(value as int, step);
    let below = value - r;
    assert(below == q * step) by (nonlinear_arith)
        requires
            value == step * q + r,
            below == value - r,
    ;
    assert(below + step == (q + 1) * step) by (nonlinear_arith)
        requires
            below == q * step,
    ;
    vstd::arithmetic::div_mod::lemma_mod_multiples_basic(q, step);
    vstd::arithmetic::div_mod::lemma_mod_multiples_basic(q + 1, step);
    vstd::arithmetic::div_mod::lemma_div_by_multiple(q, step);
    vstd::arithmetic::div_mod::lemma_div_by_multiple(q + 1, step);
    if value < 0x100_0000 {
        assert(step == 1);
    }
}

/// From 2 to the power of 23 on, numbers are spaced so that at most that many
/// spacings fit below the number and fewer than twice as many.
pub proof fn law_spacing_follows_the_size(value: nat)
    ensures
        value < 0x100_0000 ==> spacing(value) == 1,
        value >= 0x100_0000 ==> spacing(value) == 2 * spacing(value / 2),
        value >= 0x80_0000 ==> spacing(value) * 0x80_0000 <= value < spacing(value) * 0x100_0000,
    decreases value,
{
    lemma_spacing(value);
    if value >= 0x100_0000 {
        law_spacing_follows_the_size(value / 2);
    }
}

} // verus!
