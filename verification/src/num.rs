//! Fixed-point decimal arithmetic and decimal-to-text rendering.
//!
//! Every decimal quantity in this crate is an integer count of milli-units
//! (one thousandth of a measurement or currency unit).  Fee amounts are
//! rounded half away from zero, the rule used throughout the billing rules.

use vstd::prelude::*;

verus! {

/// Largest magnitude, in milli-units, that a parsed decimal cell may take:
/// one million units.  Parsed values saturate here so that every later fee
/// product fits in a machine integer.
pub const VALUE_LIMIT: i64 = 1_000_000_000;

/// Most electricity meters one record may hold; keeps the summed usage small
/// enough that the aggregate fee product fits in a machine integer.
pub const METER_LIMIT: usize = 1000;

/// Usage between two readings: the difference, floored at zero, so a meter
/// that regressed never yields negative usage.
pub open spec fn spec_usage(prev: int, curr: int) -> int {
    if curr - prev > 0 {
        curr - prev
    } else {
        0
    }
}

/// Usage between two readings, in milli-units.
pub fn usage_of(prev: i64, curr: i64) -> (r: i64)
    requires
        -VALUE_LIMIT <= prev <= VALUE_LIMIT,
        -VALUE_LIMIT <= curr <= VALUE_LIMIT,
    ensures
        r == spec_usage(prev as int, curr as int),
        0 <= r <= 2 * VALUE_LIMIT,
{
    if curr > prev {
        curr - prev
    } else {
        0
    }
}

/// `n / d` rounded half away from zero, for a positive divisor.
pub open spec fn spec_round_half_away(n: int, d: int) -> int
    recommends
        d > 0,
{
    if n >= 0 {
        (n + d / 2) / d
    } else {
        -((-n + d / 2) / d)
    }
}

/// A fee amount in milli-units: usage times unit price (both in
/// milli-units), rounded half away from zero to a whole currency unit.
pub open spec fn spec_line_amount(usage: int, price: int) -> int {
    spec_round_half_away(usage * price, 1_000_000) * 1000
}

/// Bound on a single fee amount in milli-units, given the input limits.
pub const AMOUNT_LIMIT: i64 = 2_000_000_000_000_000_000;

/// Computes a fee amount: usage times unit price, rounded half away from
/// zero to a whole currency unit, returned in milli-units.
pub fn line_amount_milli(usage: i64, price: i64) -> (r: i64)
    requires
        0 <= usage <= 2_000_000_000_000,
        -VALUE_LIMIT <= price <= VALUE_LIMIT,
    ensures
        r == spec_line_amount(usage as int, price as int),
        -AMOUNT_LIMIT <= r <= AMOUNT_LIMIT,
        r % 1000 == 0,
{
    proof {
        assert(-2_000_000_000_000_000_000_000 <= usage * price <= 2_000_000_000_000_000_000_000)
            by (nonlinear_arith)
            requires
                0 <= usage <= 2_000_000_000_000,
                -1_000_000_000 <= price <= 1_000_000_000,
        ;
    }
    let p: i128 = (usage as i128) * (price as i128);
    let yuan: i128 = if p >= 0 {
        (p + 500_000) / 1_000_000
    } else {
        -((-p + 500_000) / 1_000_000)
    };
    (yuan as i64) * 1000
}

/// Saturates a milli-unit value to the accepted input range.
pub open spec fn spec_clamp(v: int) -> int {
    if v > VALUE_LIMIT as int {
        VALUE_LIMIT as int
    } else if v < -(VALUE_LIMIT as int) {
        -(VALUE_LIMIT as int)
    } else {
        v
    }
}

/// Saturates a milli-unit value to the accepted input range.
pub fn clamp_milli(v: i64) -> (r: i64)
    ensures
        r == spec_clamp(v as int),
        -VALUE_LIMIT <= r <= VALUE_LIMIT,
{
    if v > VALUE_LIMIT {
        VALUE_LIMIT
    } else if v < -VALUE_LIMIT {
        -VALUE_LIMIT
    } else {
        v
    }
}

/// The character for one decimal digit.
pub open spec fn spec_digit_char(d: int) -> char {
    if d == 0 {
        '0'
    } else if d == 1 {
        '1'
    } else if d == 2 {
        '2'
    } else if d == 3 {
        '3'
    } else if d == 4 {
        '4'
    } else if d == 5 {
        '5'
    } else if d == 6 {
        '6'
    } else if d == 7 {
        '7'
    } else if d == 8 {
        '8'
    } else {
        '9'
    }
}

/// The character for one decimal digit.
pub fn digit_char_of(d: u128) -> (r: char)
    requires
        d < 10,
    ensures
        r == spec_digit_char(d as int),
{
    if d == 0 {
        '0'
    } else if d == 1 {
        '1'
    } else if d == 2 {
        '2'
    } else if d == 3 {
        '3'
    } else if d == 4 {
        '4'
    } else if d == 5 {
        '5'
    } else if d == 6 {
        '6'
    } else if d == 7 {
        '7'
    } else if d == 8 {
        '8'
    } else {
        '9'
    }
}

/// Decimal digits of a non-negative number, most significant first.
pub open spec fn spec_nat_digits(n: int) -> Seq<char>
    recommends
        n >= 0,
    decreases n,
{
    if n < 10 {
        seq![spec_digit_char(n)]
    } else {
        spec_nat_digits(n / 10).push(spec_digit_char(n % 10))
    }
}

/// Decimal digits of a non-negative number, most significant first.
pub fn nat_digits_u128(n: u128) -> (r: Vec<char>)
    ensures
        r@ == spec_nat_digits(n as int),
    decreases n,
{
    if n < 10 {
        let mut v: Vec<char> = Vec::new();
        v.push(digit_char_of(n));
        v
    } else {
        let mut v = nat_digits_u128(n / 10);
        v.push(digit_char_of(n % 10));
        v
    }
}

/// Decimal rendering of a signed number, with a leading minus when negative.
pub open spec fn spec_int_digits(v: int) -> Seq<char> {
    if v < 0 {
        seq!['-'] + spec_nat_digits(-v)
    } else {
        spec_nat_digits(v)
    }
}

/// Appends every character of `src` to `dst`.
pub fn append_chars(dst: &mut Vec<char>, src: &Vec<char>)
    ensures
        final(dst)@ == old(dst)@ + src@,
{
    let mut i: usize = 0;
    while i < src.len()
        invariant
            i <= src.len(),
            dst@ == old(dst)@ + src@.subrange(0, i as int),
        decreases src.len() - i,
    {
        dst.push(src[i]);
        i = i + 1;
    }
    proof {
        assert(dst@ =~= old(dst)@ + src@);
    }
}

/// Decimal rendering of a signed number, with a leading minus when negative.
pub fn int_digits_i128(v: i128) -> (r: Vec<char>)
    requires
        v > i128::MIN,
    ensures
        r@ == spec_int_digits(v as int),
{
    if v < 0 {
        let mut out: Vec<char> = Vec::new();
        out.push('-');
        let ds = nat_digits_u128((-v) as u128);
        append_chars(&mut out, &ds);
        proof {
            assert(out@ =~= seq!['-'] + ds@);
        }
        out
    } else {
        nat_digits_u128(v as u128)
    }
}

/// A number rendered to at least two digits, zero-padded.
pub open spec fn spec_pad2(n: int) -> Seq<char>
    recommends
        n >= 0,
{
    if n < 10 {
        seq!['0'] + spec_nat_digits(n)
    } else {
        spec_nat_digits(n)
    }
}

/// A number rendered to at least two digits, zero-padded.
pub fn pad2_u128(n: u128) -> (r: Vec<char>)
    ensures
        r@ == spec_pad2(n as int),
{
    if n < 10 {
        let mut v: Vec<char> = Vec::new();
        v.push('0');
        v.push(digit_char_of(n));
        proof {
            assert(v@ =~= seq!['0'] + spec_nat_digits(n as int));
        }
        v
    } else {
        nat_digits_u128(n)
    }
}

/// A number rendered to at least four digits, zero-padded.
pub open spec fn spec_pad4(n: int) -> Seq<char>
    recommends
        n >= 0,
{
    if n < 10 {
        seq!['0', '0', '0'] + spec_nat_digits(n)
    } else if n < 100 {
        seq!['0', '0'] + spec_nat_digits(n)
    } else if n < 1000 {
        seq!['0'] + spec_nat_digits(n)
    } else {
        spec_nat_digits(n)
    }
}

/// A number rendered to at least four digits, zero-padded.
pub fn pad4_u128(n: u128) -> (r: Vec<char>)
    ensures
        r@ == spec_pad4(n as int),
{
    let ds = nat_digits_u128(n);
    let mut v: Vec<char> = Vec::new();
    if n < 10 {
        v.push('0');
        v.push('0');
        v.push('0');
    } else if n < 100 {
        v.push('0');
        v.push('0');
    } else if n < 1000 {
        v.push('0');
    }
    append_chars(&mut v, &ds);
    proof {
        assert(v@ =~= spec_pad4(n as int));
    }
    v
}

/// Rendering of a milli-unit value as a plain decimal: no trailing zeros in
/// the fraction, and no decimal point when the value is whole.
pub open spec fn spec_fmt_plain_milli(v: int) -> Seq<char> {
    let a = if v < 0 {
        -v
    } else {
        v
    };
    let sign = if v < 0 {
        seq!['-']
    } else {
        Seq::<char>::empty()
    };
    let whole = spec_nat_digits(a / 1000);
    let m = a % 1000;
    let frac = if m == 0 {
        Seq::<char>::empty()
    } else if m % 10 != 0 {
        seq!['.', spec_digit_char(m / 100), spec_digit_char((m / 10) % 10), spec_digit_char(m % 10)]
    } else if m % 100 != 0 {
        seq!['.', spec_digit_char(m / 100), spec_digit_char((m / 10) % 10)]
    } else {
        seq!['.', spec_digit_char(m / 100)]
    };
    sign + whole + frac
}

/// Renders a milli-unit value as a plain decimal, trailing zeros trimmed.
pub fn fmt_plain_milli(v: i128) -> (r: Vec<char>)
    requires
        v > i128::MIN,
    ensures
        r@ == spec_fmt_plain_milli(v as int),
{
    let a: i128 = if v < 0 {
        -v
    } else {
        v
    };
    let mut out: Vec<char> = Vec::new();
    if v < 0 {
        out.push('-');
    }
    let whole = nat_digits_u128((a / 1000) as u128);
    append_chars(&mut out, &whole);
    let m: u128 = (a % 1000) as u128;
    if m != 0 {
        out.push('.');
        out.push(digit_char_of(m / 100));
        if m % 10 != 0 {
            out.push(digit_char_of((m / 10) % 10));
            out.push(digit_char_of(m % 10));
        } else if m % 100 != 0 {
            out.push(digit_char_of((m / 10) % 10));
        }
    }
    proof {
        assert(out@ =~= spec_fmt_plain_milli(v as int));
    }
    out
}

/// Rendering of a milli-unit value to exactly two decimal places, rounded
/// half away from zero on the third.
pub open spec fn spec_fmt_fix2_milli(v: int) -> Seq<char> {
    let a = if v < 0 {
        -v
    } else {
        v
    };
    let sign = if v < 0 {
        seq!['-']
    } else {
        Seq::<char>::empty()
    };
    let c = spec_round_half_away(a, 10);
    sign + spec_nat_digits(c / 100) + seq![
        '.',
        spec_digit_char((c / 10) % 10),
        spec_digit_char(c % 10),
    ]
}

/// Renders a milli-unit value to exactly two decimal places.
pub fn fmt_fix2_milli(v: i128) -> (r: Vec<char>)
    requires
        -170_141_183_460_469_231_731_687_303_715_884_104_000 <= v
            <= 170_141_183_460_469_231_731_687_303_715_884_104_000,
    ensures
        r@ == spec_fmt_fix2_milli(v as int),
{
    let a: i128 = if v < 0 {
        -v
    } else {
        v
    };
    let c: u128 = ((a + 5) / 10) as u128;
    let mut out: Vec<char> = Vec::new();
    if v < 0 {
        out.push('-');
    }
    let whole = nat_digits_u128(c / 100);
    append_chars(&mut out, &whole);
    out.push('.');
    out.push(digit_char_of((c / 10) % 10));
    out.push(digit_char_of(c % 10));
    proof {
        assert(out@ =~= spec_fmt_fix2_milli(v as int));
    }
    out
}

/// Rendering of a milli-unit value rounded half away from zero to a whole
/// number of units.
pub open spec fn spec_fmt_fix0_milli(v: int) -> Seq<char> {
    let a = if v < 0 {
        -v
    } else {
        v
    };
    let sign = if v < 0 {
        seq!['-']
    } else {
        Seq::<char>::empty()
    };
    sign + spec_nat_digits(spec_round_half_away(a, 1000))
}

/// Renders a milli-unit value rounded to a whole number of units.
pub fn fmt_fix0_milli(v: i128) -> (r: Vec<char>)
    requires
        -170_141_183_460_469_231_731_687_303_715_884_104_000 <= v
            <= 170_141_183_460_469_231_731_687_303_715_884_104_000,
    ensures
        r@ == spec_fmt_fix0_milli(v as int),
{
    let a: i128 = if v < 0 {
        -v
    } else {
        v
    };
    let y: u128 = ((a + 500) / 1000) as u128;
    let mut out: Vec<char> = Vec::new();
    if v < 0 {
        out.push('-');
    }
    let whole = nat_digits_u128(y);
    append_chars(&mut out, &whole);
    proof {
        assert(out@ =~= spec_fmt_fix0_milli(v as int));
    }
    out
}

/// Rendering of a milli-unit value to exactly three decimal places.
pub open spec fn spec_fmt_fix3_milli(v: int) -> Seq<char> {
    let a = if v < 0 {
        -v
    } else {
        v
    };
    let sign = if v < 0 {
        seq!['-']
    } else {
        Seq::<char>::empty()
    };
    let m = a % 1000;
    sign + spec_nat_digits(a / 1000) + seq![
        '.',
        spec_digit_char(m / 100),
        spec_digit_char((m / 10) % 10),
        spec_digit_char(m % 10),
    ]
}

/// Renders a milli-unit value to exactly three decimal places.
#[verifier::rlimit(100)]
pub fn fmt_fix3_milli(v: i128) -> (r: Vec<char>)
    requires
        v > i128::MIN,
    ensures
        r@ == spec_fmt_fix3_milli(v as int),
{
    let a: i128 = if v < 0 {
        -v
    } else {
        v
    };
    let m: u128 = (a % 1000) as u128;
    let mut out: Vec<char> = Vec::new();
    if v < 0 {
        out.push('-');
    }
    let whole = nat_digits_u128((a / 1000) as u128);
    append_chars(&mut out, &whole);
    out.push('.');
    out.push(digit_char_of(m / 100));
    out.push(digit_char_of((m / 10) % 10));
    out.push(digit_char_of(m % 10));
    proof {
        assert(out@ =~= spec_fmt_fix3_milli(v as int));
    }
    out
}

} // verus!
