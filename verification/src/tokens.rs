//! Compact display of token counts: "999", "1.5k", "2.5M".

use vstd::prelude::*;

verus! {

/// Counts from here on are shown in thousands.
pub const THOUSAND: u64 = 1_000;

/// Counts from here on are shown in millions.
pub const MILLION: u64 = 1_000_000;

/// 2^53. Every whole number below it is a double-precision value as it stands.
pub const EXACT_LIMIT: u64 = 9_007_199_254_740_992;

/// 2^52, the least 53-bit significand.
pub const SIGNIFICAND_MIN: u64 = 4_503_599_627_370_496;

/// The character for one decimal digit.
pub open spec fn digit_char(d: nat) -> char
    recommends
        d < 10,
{
    if d == 0 {
        '0'
    } else if d == 1 {
        '1'
    } else if d == 2 {
        '2'
    } else if d == 3 {
        '3'
    } else if d == 4 {
        '4'
    } else if d == 5 {
        '5'
    } else if d == 6 {
        '6'
    } else if d == 7 {
        '7'
    } else if d == 8 {
        '8'
    } else {
        '9'
    }
}

/// `n` written in decimal, without sign or leading zeros.
pub open spec fn decimal_text(n: nat) -> Seq<char>
    decreases n,
{
    if n < 10 {
        seq![digit_char(n)]
    } else {
        decimal_text(n / 10).push(digit_char(n % 10))
    }
}

/// The text of one decimal digit.
fn digit_str(d: u64) -> (text: &'static str)
    requires
        d < 10,
    ensures
        text@ == seq![digit_char(d as nat)],
{
    proof {
        reveal_strlit("0");
        reveal_strlit("1");
        reveal_strlit("2");
        reveal_strlit("3");
        reveal_strlit("4");
        reveal_strlit("5");
        reveal_strlit("6");
        reveal_strlit("7");
        reveal_strlit("8");
        reveal_strlit("9");
    }
    let text = if d == 0 {
        "0"
    } else if d == 1 {
        "1"
    } else if d == 2 {
        "2"
    } else if d == 3 {
        "3"
    } else if d == 4 {
        "4"
    } else if d == 5 {
        "5"
    } else if d == 6 {
        "6"
    } else if d == 7 {
        "7"
    } else if d == 8 {
        "8"
    } else {
        "9"
    };
    assert(text@ =~= seq![digit_char(d as nat)]);
    text
}

/// Appends `n` in decimal to `out`.
pub fn push_decimal(out: &mut String, n: u64)
    ensures
        final(out)@ == old(out)@ + decimal_text(n as nat),
    decreases n,
{
    if n >= 10 {
        push_decimal(out, n / 10);
    }
    out.append(digit_str(n % 10));
    proof {
        let d = seq![digit_char((n % 10) as nat)];
        if n >= 10 {
            assert((old(out)@ + decimal_text((n / 10) as nat)) + d =~= old(out)@ + decimal_text(
                (n / 10) as nat,
            ).push(digit_char((n % 10) as nat)));
        }
    }
}

/// `num / den` rounded to the nearest whole number, a tie going to the even
/// neighbour.
pub open spec fn round_half_even(num: nat, den: nat) -> nat
    recommends
        den > 0,
{
    let q = num / den;
    let r = num % den;
    if 2 * r < den || (2 * r == den && q % 2 == 0) {
        q
    } else {
        q + 1
    }
}

/// The distance between neighbouring double-precision values around `n`:
/// 1 below 2^53, doubling with each further binary digit.
pub open spec fn double_spacing(n: nat) -> nat
    decreases n,
{
    if n < EXACT_LIMIT {
        1
    } else {
        2 * double_spacing(n / 2)
    }
}

/// The double-precision value nearest to the whole number `n`.
pub open spec fn nearest_double(n: nat) -> nat {
    round_half_even(n, double_spacing(n)) * double_spacing(n)
}

/// The power of two that lifts `x / unit` to a 53-bit significand: the least
/// power `p` with `x * p >= unit * 2^52`.
pub open spec fn significand_scale(x: nat, unit: nat) -> nat
    decreases
        (if x < unit * SIGNIFICAND_MIN {
            unit * SIGNIFICAND_MIN - x
        } else {
            0
        }),
{
    if x == 0 || x >= unit * SIGNIFICAND_MIN {
        1
    } else {
        2 * significand_scale(2 * x, unit)
    }
}

/// The number of tenths of `unit` displayed for `count`.
///
/// The display follows double-precision arithmetic, which is what a front end
/// computing the same figure shows: `count` becomes the nearest double, the
/// division by `unit` is rounded once to a 53-bit significand, and the
/// quotient is rounded to one decimal, a tie going to the even digit. The
/// model covers quotients below 2^52, which holds all counts of 64 bits in
/// millions and all counts below a million in thousands.
pub open spec fn displayed_tenths(count: nat, unit: nat) -> nat
    recommends
        0 < unit,
        0 < count < unit * SIGNIFICAND_MIN,
{
    let x = nearest_double(count);
    let p = significand_scale(x, unit);
    let significand = round_half_even(x * p, unit);
    round_half_even(10 * significand, p)
}

/// `num / den` rounded to the nearest whole number, a tie going to the even
/// neighbour.
fn div_round_half_even(num: u128, den: u128) -> (rounded: u128)
    requires
        den > 0,
        den <= u128::MAX / 2,
    ensures
        rounded == round_half_even(num as nat, den as nat),
{
    let q = num / den;
    let r = num % den;
    if 2 * r < den || (2 * r == den && q % 2 == 0) {
        q
    } else {
        assert(q < u128::MAX) by (nonlinear_arith)
            requires
                q == num / den,
                den >= 1,
                r == num % den,
                2 * r >= den,
                num <= u128::MAX,
        ;
        q + 1
    }
}

/// The double-precision value nearest to `count`.
fn to_double(count: u64) -> (x: u128)
    ensures
        x == nearest_double(count as nat),
        x <= count + 4096,
        count < EXACT_LIMIT ==> x == count,
{
    let mut spacing: u64 = 1;
    let mut rest: u64 = count;
    while rest >= EXACT_LIMIT
        invariant
            double_spacing(count as nat) == spacing * double_spacing(rest as nat),
            1 <= spacing <= 4096,
            spacing * rest <= count,
            count < EXACT_LIMIT ==> spacing == 1,
        decreases rest,
    {
        proof {
            let s = spacing as int;
            let r = rest as int;
            let d = double_spacing((rest / 2) as nat) as int;
            assert(s <= 2047 && (2 * s) * (r / 2) <= s * r && s * (2 * d) == (2 * s) * d)
                by (nonlinear_arith)
                requires
                    s >= 1,
                    r >= 9_007_199_254_740_992,
                    s * r <= 0xffff_ffff_ffff_ffff,
            ;
        }
        rest = rest / 2;
        spacing = spacing * 2;
    }
    proof {
        assert(double_spacing(rest as nat) == 1);
        assert(double_spacing(count as nat) == spacing) by (nonlinear_arith)
            requires
                double_spacing(count as nat) == spacing * double_spacing(rest as nat),
                double_spacing(rest as nat) == 1,
        ;
    }
    let steps = div_round_half_even(count as u128, spacing as u128);
    assert(steps * spacing <= count + spacing) by (nonlinear_arith)
        requires
            steps <= count / spacing + 1,
            spacing >= 1,
    ;
    assert(count < EXACT_LIMIT ==> steps * spacing == count) by {
        if count < EXACT_LIMIT {
            assert(spacing == 1);
            assert((count as nat) / 1 == count && (count as nat) % 1 == 0);
            assert(steps * spacing == steps) by (nonlinear_arith)
                requires
                    spacing == 1,
            ;
        }
    }
    steps * (spacing as u128)
}

/// The number of tenths of `unit` displayed for `count`.
fn scaled_tenths(count: u64, unit: u64) -> (tenths: u64)
    requires
        THOUSAND <= unit <= MILLION,
        unit <= count,
    ensures
        tenths == displayed_tenths(count as nat, unit as nat),
{
    let x = to_double(count);
    assert(unit * SIGNIFICAND_MIN <= 4_503_599_627_370_496_000_000) by (nonlinear_arith)
        requires
            unit <= 1_000_000,
            SIGNIFICAND_MIN == 4_503_599_627_370_496,
    ;
    let bound: u128 = (unit as u128) * (SIGNIFICAND_MIN as u128);
    let mut lifted: u128 = x;
    let mut scale: u128 = 1;
    while lifted != 0 && lifted < bound
        invariant
            bound == unit * SIGNIFICAND_MIN,
            bound <= 4_503_599_627_370_496_000_000,
            THOUSAND <= unit <= MILLION,
            lifted == x * scale,
            significand_scale(x as nat, unit as nat) == scale * significand_scale(
                lifted as nat,
                unit as nat,
            ),
            1 <= scale,
            scale == 1 || lifted < 2 * bound,
            lifted == 0 || scale <= lifted,
            lifted == 0 ==> scale == 1,
            x <= u64::MAX + 4096,
        decreases
            (if lifted < bound {
                bound - lifted
            } else {
                0
            }),
    {
        proof {
            let rest = significand_scale((2 * lifted) as nat, unit as nat) as int;
            let sc = scale as int;
            let xi = x as int;
            assert(sc * (2 * rest) == (2 * sc) * rest && xi * (2 * sc) == 2 * (xi * sc))
                by (nonlinear_arith);
        }
        lifted = lifted * 2;
        scale = scale * 2;
    }
    proof {
        assert(significand_scale(lifted as nat, unit as nat) == 1);
        assert(significand_scale(x as nat, unit as nat) == scale) by (nonlinear_arith)
            requires
                significand_scale(x as nat, unit as nat) == scale * significand_scale(
                    lifted as nat,
                    unit as nat,
                ),
                significand_scale(lifted as nat, unit as nat) == 1,
        ;
    }
    let significand = div_round_half_even(lifted, unit as u128);
    assert(significand <= 18_446_744_073_709_557) by (nonlinear_arith)
        requires
            significand <= (lifted as int) / (unit as int) + 1,
            1_000 <= unit <= 1_000_000,
            lifted <= 0xffff_ffff_ffff_ffff + 4096 || lifted < 2 * (unit
                * 4_503_599_627_370_496),
    ;
    let tenths = div_round_half_even(10 * significand, scale);
    assert(tenths <= 10 * significand + 1) by (nonlinear_arith)
        requires
            tenths <= (10 * significand) / (scale as int) + 1,
            scale >= 1,
    ;
    tenths as u64
}

/// Rounding to the nearest whole number misses `num / den` by at most one
/// half.
pub proof fn lemma_round_half_even_near(num: nat, den: nat)
    requires
        den > 0,
    ensures
        2 * (round_half_even(num, den) * den) <= 2 * num + den,
        2 * num <= 2 * (round_half_even(num, den) * den) + den,
{
    let q = num / den;
    let r = num % den;
    assert(num == q * den + r && 0 <= r < den && (q + 1) * den == q * den + den)
        by (nonlinear_arith)
        requires
            q == num / den,
            r == num % den,
            den > 0,
    ;
}

/// The scale lifts `x / unit` to at least 2^52.
pub proof fn lemma_significand_scale_reaches(x: nat, unit: nat)
    requires
        x > 0,
    ensures
        significand_scale(x, unit) >= 1,
        x * significand_scale(x, unit) >= unit * SIGNIFICAND_MIN,
    decreases
        (if x < unit * SIGNIFICAND_MIN {
            unit * SIGNIFICAND_MIN - x
        } else {
            0
        }),
{
    if x < unit * SIGNIFICAND_MIN {
        lemma_significand_scale_reaches(2 * x, unit);
        let rest = significand_scale(2 * x, unit);
        assert(x * (2 * rest) == (2 * x) * rest) by (nonlinear_arith);
    } else {
        assert(x * 1 == x);
    }
}

/// Below 2^48 the figure shown is the count rounded to the nearest tenth of
/// the unit. Only where the count lies exactly halfway between two tenths
/// does double precision decide which of the two is shown.
pub proof fn lemma_displayed_tenths_nearest(count: nat, unit: nat)
    requires
        0 < unit,
        0 < count < 281_474_976_710_656,
    ensures
        ({
            let whole = (10 * count) / unit;
            let rest = (10 * count) % unit;
            let shown = displayed_tenths(count, unit);
            &&& whole <= shown <= whole + 1
            &&& 2 * rest < unit ==> shown == whole
            &&& 2 * rest > unit ==> shown == whole + 1
        }),
{
    let whole = ((10 * count) / unit) as int;
    let rest = ((10 * count) % unit) as int;
    assert(double_spacing(count) == 1);
    assert(count / 1 == count && count % 1 == 0);
    assert(nearest_double(count) == count) by (nonlinear_arith)
        requires
            nearest_double(count) == round_half_even(count, 1) * 1,
            round_half_even(count, 1) == count,
    ;
    let x = count as int;
    let u = unit as int;
    let p = significand_scale(count, unit) as int;
    let s = round_half_even(count * significand_scale(count, unit), unit) as int;
    let t = round_half_even((10 * s) as nat, p as nat) as int;
    assert(t == displayed_tenths(count, unit));
    lemma_significand_scale_reaches(count, unit);
    lemma_round_half_even_near(count * significand_scale(count, unit), unit);
    lemma_round_half_even_near((10 * s) as nat, p as nat);
    assert(10 * x == whole * u + rest && 0 <= rest < u) by (nonlinear_arith)
        requires
            whole == (10 * x) / u,
            rest == (10 * x) % u,
            u > 0,
    ;
    assert(p > 10 * u) by (nonlinear_arith)
        requires
            x * p >= u * 4_503_599_627_370_496,
            0 < x < 281_474_976_710_656,
            u > 0,
            p >= 1,
    ;
    // Both roundings together miss 10 * x / u by less than one half.
    assert(2 * (t * (p * u)) <= 2 * (whole * (p * u)) + 2 * (rest * p) + 10 * u + p * u && 2 * (t
        * (p * u)) + 10 * u + p * u >= 2 * (whole * (p * u)) + 2 * (rest * p))
        by (nonlinear_arith)
        requires
            2 * (s * u) <= 2 * (x * p) + u,
            2 * (x * p) <= 2 * (s * u) + u,
            2 * (t * p) <= 2 * (10 * s) + p,
            2 * (10 * s) <= 2 * (t * p) + p,
            10 * x == whole * u + rest,
            u > 0,
            p > 0,
    ;
    let pu = p * u;
    assert(pu > 10 * u && pu >= p && pu > 0 && rest * p < pu && (2 * rest < u ==> 2 * (rest * p)
        <= pu - p) && (2 * rest > u ==> 2 * (rest * p) >= pu + p)) by (nonlinear_arith)
        requires
            pu == p * u,
            p > 10 * u,
            u > 0,
            0 <= rest < u,
    ;
    assert(whole <= t <= whole + 1 && (2 * rest < u ==> t == whole) && (2 * rest > u ==> t
        == whole + 1)) by (nonlinear_arith)
        requires
            2 * (t * pu) <= 2 * (whole * pu) + 2 * (rest * p) + 10 * u + pu,
            2 * (t * pu) + 10 * u + pu >= 2 * (whole * pu) + 2 * (rest * p),
            pu > 10 * u,
            pu >= p,
            p > 10 * u,
            pu > 0,
            0 <= rest * p < pu,
            2 * rest < u ==> 2 * (rest * p) <= pu - p,
            2 * rest > u ==> 2 * (rest * p) >= pu + p,
    ;
}

/// A figure of `tenths` tenths with its unit suffix, such as "1.5k".
pub open spec fn scaled_text(tenths: nat, suffix: char) -> Seq<char> {
    decimal_text(tenths / 10) + seq!['.', digit_char(tenths % 10), suffix]
}

/// The text shown for a token count: millions with one decimal and "M" from a
/// million on, thousands with one decimal and "k" from a thousand on, and the
/// plain number below that.
pub open spec fn token_text(count: nat) -> Seq<char> {
    if count >= MILLION {
        scaled_text(displayed_tenths(count, MILLION as nat), 'M')
    } else if count >= THOUSAND {
        scaled_text(displayed_tenths(count, THOUSAND as nat), 'k')
    } else {
        decimal_text(count)
    }
}

/// Formats a token count with "k" and "M" suffixes.
pub fn format_tokens(count: u64) -> (text: String)
    ensures
        text@ == token_text(count as nat),
{
    let mut text = String::new();
    if count >= THOUSAND {
        let million = count >= MILLION;
        let tenths = scaled_tenths(count, if million { MILLION } else { THOUSAND });
        push_decimal(&mut text, tenths / 10);
        text.append(".");
        text.append(digit_str(tenths % 10));
        text.append(if million { "M" } else { "k" });
        proof {
            reveal_strlit(".");
            reveal_strlit("M");
            reveal_strlit("k");
            assert(text@ =~= scaled_text(tenths as nat, if million { 'M' } else { 'k' }));
        }
    } else {
        push_decimal(&mut text, count);
        assert(text@ =~= decimal_text(count as nat));
    }
    text
}

} // verus!
