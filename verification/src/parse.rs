//! Lenient decimal parsing for cell text.
//!
//! A cell is parsed as an optionally signed decimal number with an optional
//! fraction; anything else (including an empty cell) counts as zero rather
//! than an error.  The value is kept in milli-units: fractions are rounded
//! half up on the fourth fractional digit, and the magnitude saturates at
//! the accepted input limit.

use vstd::prelude::*;
use crate::text::{spec_trim, trim_chars};
use crate::num::{VALUE_LIMIT, spec_clamp};

verus! {

/// Whether a character is a decimal digit.
pub open spec fn spec_is_digit(c: char) -> bool {
    '0' <= c && c <= '9'
}

/// The value of a decimal digit character.
pub open spec fn spec_digit_val(c: char) -> int {
    if c == '0' {
        0
    } else if c == '1' {
        1
    } else if c == '2' {
        2
    } else if c == '3' {
        3
    } else if c == '4' {
        4
    } else if c == '5' {
        5
    } else if c == '6' {
        6
    } else if c == '7' {
        7
    } else if c == '8' {
        8
    } else {
        9
    }
}

/// Decides whether a character is a decimal digit.
pub fn is_digit(c: char) -> (r: bool)
    ensures
        r == spec_is_digit(c),
{
    '0' <= c && c <= '9'
}

/// The value of a decimal digit character.
pub fn digit_val(c: char) -> (r: i64)
    requires
        spec_is_digit(c),
    ensures
        r == spec_digit_val(c),
        0 <= r <= 9,
{
    if c == '0' {
        0
    } else if c == '1' {
        1
    } else if c == '2' {
        2
    } else if c == '3' {
        3
    } else if c == '4' {
        4
    } else if c == '5' {
        5
    } else if c == '6' {
        6
    } else if c == '7' {
        7
    } else if c == '8' {
        8
    } else {
        9
    }
}

/// The length of the leading run of digits.
pub open spec fn spec_digit_prefix_len(s: Seq<char>) -> int
    decreases s.len(),
{
    if s.len() > 0 && spec_is_digit(s[0]) {
        1 + spec_digit_prefix_len(s.drop_first())
    } else {
        0
    }
}

/// A run of digits ends exactly where the first non-digit stands.
pub proof fn lemma_digit_prefix_len(s: Seq<char>, i: int)
    requires
        0 <= i <= s.len(),
        forall|j: int| 0 <= j < i ==> spec_is_digit(#[trigger] s[j]),
        i < s.len() ==> !spec_is_digit(s[i]),
    ensures
        spec_digit_prefix_len(s) == i,
    decreases i,
{
    if i == 0 {
    } else {
        assert(spec_is_digit(s[0]));
        lemma_digit_prefix_len(s.drop_first(), i - 1);
    }
}

/// The numeric value of a digit run, most significant digit first.
pub open spec fn spec_digits_value(s: Seq<char>) -> int
    decreases s.len(),
{
    if s.len() == 0 {
        0
    } else {
        spec_digits_value(s.drop_last()) * 10 + spec_digit_val(s.last())
    }
}

/// The value of a digit run is never negative.
pub proof fn lemma_digits_value_nonneg(s: Seq<char>)
    ensures
        spec_digits_value(s) >= 0,
    decreases s.len(),
{
    if s.len() > 0 {
        lemma_digits_value_nonneg(s.drop_last());
    }
}

/// Whether every character of the sequence is a digit.
pub open spec fn spec_all_digits(s: Seq<char>) -> bool {
    forall|j: int| 0 <= j < s.len() ==> spec_is_digit(#[trigger] s[j])
}

/// The milli-unit value of a fraction digit run: the first three digits
/// weighted, rounded half up on the fourth.
pub open spec fn spec_frac_milli(s: Seq<char>) -> int {
    (if s.len() > 0 {
        spec_digit_val(s[0]) * 100
    } else {
        0
    }) + (if s.len() > 1 {
        spec_digit_val(s[1]) * 10
    } else {
        0
    }) + (if s.len() > 2 {
        spec_digit_val(s[2])
    } else {
        0
    }) + (if s.len() > 3 && spec_digit_val(s[3]) >= 5 {
        1int
    } else {
        0int
    })
}

/// The milli-unit value of an unsigned decimal text: a digit run, then
/// optionally a dot and a fraction digit run, with at least one digit in
/// all; nothing if the text has any other shape.
pub open spec fn spec_parse_unsigned(u: Seq<char>) -> Option<int> {
    let k = spec_digit_prefix_len(u);
    let ip = u.subrange(0, k);
    let rest = u.skip(k);
    if rest.len() == 0 {
        if k > 0 {
            Some(spec_digits_value(ip) * 1000)
        } else {
            None
        }
    } else if rest[0] == '.' {
        let fr = rest.drop_first();
        if spec_all_digits(fr) && (k > 0 || fr.len() > 0) {
            Some(spec_digits_value(ip) * 1000 + spec_frac_milli(fr))
        } else {
            None
        }
    } else {
        None
    }
}

/// The milli-unit value of a signed decimal text.
pub open spec fn spec_parse_signed(t: Seq<char>) -> Option<int> {
    if t.len() == 0 {
        None
    } else if t[0] == '-' {
        match spec_parse_unsigned(t.drop_first()) {
            Some(v) => Some(-v),
            None => None,
        }
    } else if t[0] == '+' {
        spec_parse_unsigned(t.drop_first())
    } else {
        spec_parse_unsigned(t)
    }
}

/// The lenient milli-unit value of raw cell text: trimmed, parsed as a
/// signed decimal, saturated to the accepted input range; zero when the
/// text does not parse.
pub open spec fn spec_parse_milli(s: Seq<char>) -> int {
    match spec_parse_signed(spec_trim(s)) {
        Some(v) => spec_clamp(v),
        None => 0,
    }
}

/// Parses the unsigned decimal part starting at `from`, returning its
/// saturated milli-unit value.
#[verifier::rlimit(100)]
fn parse_unsigned_at(t: &Vec<char>, from: usize) -> (r: Option<i64>)
    requires
        from <= t@.len(),
    ensures
        match spec_parse_unsigned(t@.skip(from as int)) {
            Some(v) => r is Some && r->0 == spec_clamp(v),
            None => r is None,
        },
{
    let ghost u = t@.skip(from as int);
    let mut i: usize = from;
    let mut acc: i64 = 0;
    while i < t.len() && is_digit(t[i])
        invariant
            from <= i <= t@.len(),
            forall|j: int| 0 <= j < i - from ==> spec_is_digit(#[trigger] u[j]),
            0 <= acc <= 10_000_009,
            (spec_digits_value(u.subrange(0, i - from)) <= 1_000_000 && acc == spec_digits_value(
                u.subrange(0, i - from),
            )) || (spec_digits_value(u.subrange(0, i - from)) > 1_000_000 && 1_000_000 < acc
                <= 10_000_009),
        decreases t@.len() - i,
    {
        proof {
            assert(u[i - from] == t@[i as int]);
            assert(u.subrange(0, i - from + 1).drop_last() =~= u.subrange(0, i - from));
            lemma_digits_value_nonneg(u.subrange(0, i - from));
        }
        let d = digit_val(t[i]);
        if acc <= 1_000_000 {
            acc = acc * 10 + d;
            if acc > 1_000_000 {
                proof {
                    assert(spec_digits_value(u.subrange(0, i - from + 1)) == acc);
                }
            }
        } else {
            proof {
                assert(spec_digits_value(u.subrange(0, i - from + 1)) > 1_000_000) by {
                    assert(spec_digits_value(u.subrange(0, i - from)) > 1_000_000);
                }
            }
        }
        i = i + 1;
    }
    let k = i - from;
    proof {
        lemma_digit_prefix_len(u, k as int);
        assert(u.subrange(0, k as int) == u.subrange(0, i - from));
    }
    if i == t.len() {
        // no fraction part
        if k == 0 {
            proof {
                assert(u.skip(k as int).len() == 0);
            }
            return None;
        }
        proof {
            assert(u.skip(k as int).len() == 0);
        }
        let v = if acc > 1_000_000 {
            VALUE_LIMIT
        } else {
            acc * 1000
        };
        proof {
            let tv = spec_digits_value(u.subrange(0, k as int));
            lemma_digits_value_nonneg(u.subrange(0, k as int));
            assert(spec_clamp(tv * 1000) == v as int) by (nonlinear_arith)
                requires
                    0 <= tv,
                    0 <= acc,
                    (tv <= 1_000_000 && acc == tv) || (tv > 1_000_000 && acc > 1_000_000),
                    v == (if acc > 1_000_000 {
                        1_000_000_000int
                    } else {
                        acc * 1000
                    }),
            ;
        }
        return Some(v);
    }
    if t[i] != '.' {
        proof {
            assert(u.skip(k as int)[0] == t@[i as int]);
        }
        return None;
    }
    // fraction: every remaining character must be a digit
    let fstart = i + 1;
    let ghost fr = u.skip(k as int).drop_first();
    proof {
        assert(fr =~= t@.skip(fstart as int));
    }
    let mut j: usize = fstart;
    while j < t.len()
        invariant
            fstart <= j <= t@.len(),
            fr == t@.skip(fstart as int),
            forall|m: int| 0 <= m < j - fstart ==> spec_is_digit(#[trigger] fr[m]),
        decreases t@.len() - j,
    {
        proof {
            assert(fr[j - fstart] == t@[j as int]);
        }
        if !is_digit(t[j]) {
            return None;
        }
        j = j + 1;
    }
    if k == 0 && fstart == t.len() {
        return None;
    }
    // fraction value from the first four fraction digits
    let flen = t.len() - fstart;
    let mut frac: i64 = 0;
    if flen > 0 {
        frac = frac + digit_val(t[fstart]) * 100;
    }
    if flen > 1 {
        frac = frac + digit_val(t[fstart + 1]) * 10;
    }
    if flen > 2 {
        frac = frac + digit_val(t[fstart + 2]);
    }
    if flen > 3 && digit_val(t[fstart + 3]) >= 5 {
        frac = frac + 1;
    }
    proof {
        assert(fr.len() == flen);
        if flen > 0 {
            assert(fr[0] == t@[fstart as int]);
        }
        if flen > 1 {
            assert(fr[1] == t@[fstart as int + 1]);
        }
        if flen > 2 {
            assert(fr[2] == t@[fstart as int + 2]);
        }
        if flen > 3 {
            assert(fr[3] == t@[fstart as int + 3]);
        }
        assert(frac == spec_frac_milli(fr));
    }
    let v = if acc > 1_000_000 {
        VALUE_LIMIT
    } else if acc * 1000 + frac > VALUE_LIMIT {
        VALUE_LIMIT
    } else {
        acc * 1000 + frac
    };
    proof {
        let tv = spec_digits_value(u.subrange(0, k as int));
        lemma_digits_value_nonneg(u.subrange(0, k as int));
        assert(0 <= spec_frac_milli(fr) <= 1000);
        assert(spec_clamp(tv * 1000 + spec_frac_milli(fr)) == v as int) by (nonlinear_arith)
            requires
                0 <= tv,
                (tv <= 1_000_000 && acc == tv) || (tv > 1_000_000 && acc > 1_000_000),
                0 <= spec_frac_milli(fr) <= 1000,
                frac == spec_frac_milli(fr),
                0 <= acc <= 10_000_009,
                v == (if acc > 1_000_000 {
                    1_000_000_000int
                } else if acc * 1000 + frac > 1_000_000_000 {
                    1_000_000_000int
                } else {
                    acc * 1000 + frac
                }),
        ;
    }
    Some(v)
}

/// Parses raw cell text leniently: trims it, accepts an optionally signed
/// decimal number, saturates to the accepted input range, and falls back to
/// zero for anything that does not parse.
pub fn parse_milli(t: &Vec<char>) -> (r: i64)
    ensures
        r == spec_parse_milli(t@),
        -VALUE_LIMIT <= r <= VALUE_LIMIT,
{
    let tt = trim_chars(t);
    if tt.len() == 0 {
        return 0;
    }
    let (neg, from): (bool, usize) = if tt[0] == '-' {
        (true, 1)
    } else if tt[0] == '+' {
        (false, 1)
    } else {
        (false, 0)
    };
    proof {
        if from == 1 {
            assert(tt@.skip(1) =~= tt@.drop_first());
        } else {
            assert(tt@.skip(0) =~= tt@);
        }
    }
    match parse_unsigned_at(&tt, from) {
        Some(v) => {
            if neg {
                proof {
                    let uv = spec_parse_unsigned(tt@.drop_first());
                    assert(spec_clamp(-uv->0) == -spec_clamp(uv->0));
                }
                -v
            } else {
                v
            }
        },
        None => 0,
    }
}

} // verus!
