//! The traditional Chinese uppercase rendering of a currency amount, as
//! used for the legal amount line on invoices.
//!
//! The amount is taken in integer cents.  Digits are paired with the
//! positional unit ladder from 分 upward; a zero digit contributes a single
//! placeholder 零 (runs are collapsed), except that the 元, 万 and 亿
//! markers are still emitted once even on a zero digit; a 零 directly
//! before a major marker is dropped, a trailing 零 is dropped, and 整 is
//! appended exactly when the amount has no fractional cents.

use vstd::prelude::*;
use crate::num::{spec_round_half_away, append_chars};
use crate::text::chars_to_string;

verus! {

/// The uppercase word for one decimal digit.
pub open spec fn spec_digit_word(d: int) -> char {
    if d == 0 {
        '零'
    } else if d == 1 {
        '壹'
    } else if d == 2 {
        '贰'
    } else if d == 3 {
        '叁'
    } else if d == 4 {
        '肆'
    } else if d == 5 {
        '伍'
    } else if d == 6 {
        '陆'
    } else if d == 7 {
        '柒'
    } else if d == 8 {
        '捌'
    } else {
        '玖'
    }
}

/// The uppercase word for one decimal digit.
pub fn digit_word_of(d: i64) -> (r: char)
    requires
        0 <= d < 10,
    ensures
        r == spec_digit_word(d as int),
{
    if d == 0 {
        '零'
    } else if d == 1 {
        '壹'
    } else if d == 2 {
        '贰'
    } else if d == 3 {
        '叁'
    } else if d == 4 {
        '肆'
    } else if d == 5 {
        '伍'
    } else if d == 6 {
        '陆'
    } else if d == 7 {
        '柒'
    } else if d == 8 {
        '捌'
    } else {
        '玖'
    }
}

/// The positional unit character for one cent-digit position, 分 upward.
pub open spec fn spec_unit_char(i: int) -> char {
    if i == 0 {
        '分'
    } else if i == 1 {
        '角'
    } else if i == 2 {
        '元'
    } else if i == 3 || i == 7 || i == 11 {
        '拾'
    } else if i == 4 || i == 8 || i == 12 {
        '佰'
    } else if i == 5 || i == 9 || i == 13 {
        '仟'
    } else if i == 6 || i == 14 {
        '万'
    } else {
        '亿'
    }
}

/// The positional unit character for one cent-digit position.
pub fn unit_char_of(i: usize) -> (r: char)
    requires
        i < 15,
    ensures
        r == spec_unit_char(i as int),
{
    if i == 0 {
        '分'
    } else if i == 1 {
        '角'
    } else if i == 2 {
        '元'
    } else if i == 3 || i == 7 || i == 11 {
        '拾'
    } else if i == 4 || i == 8 || i == 12 {
        '佰'
    } else if i == 5 || i == 9 || i == 13 {
        '仟'
    } else if i == 6 || i == 14 {
        '万'
    } else {
        '亿'
    }
}

/// The raw digit-and-unit text for the cent digits of `num` from position
/// `idx` upward, most significant first, before any 零 cleanup.  A zero
/// digit yields a placeholder 零 unless the previous (less significant)
/// digit already did, and the 元, 万 and 亿 markers are emitted even on a
/// zero digit (万 only at its first position; at the second it is already
/// present from the first).  Positions beyond the unit ladder are dropped.
pub open spec fn spec_raw_parts(num: int, idx: int, last_zero: bool) -> Seq<char>
    recommends
        0 <= idx,
    decreases 15 - idx,
{
    if num <= 0 || idx >= 15 || idx < 0 {
        Seq::<char>::empty()
    } else {
        let d = num % 10;
        let rest = spec_raw_parts(num / 10, idx + 1, d == 0);
        if d == 0 {
            let zero = if !last_zero {
                seq!['零']
            } else {
                Seq::<char>::empty()
            };
            let marker = if idx == 2 || idx == 6 || idx == 10 {
                seq![spec_unit_char(idx)]
            } else {
                Seq::<char>::empty()
            };
            rest + zero + marker
        } else {
            rest + seq![spec_digit_word(d), spec_unit_char(idx)]
        }
    }
}

/// The text with every run of consecutive 零 collapsed to a single 零.
pub open spec fn spec_collapse_zeros(s: Seq<char>) -> Seq<char>
    decreases s.len(),
{
    if s.len() == 0 {
        Seq::<char>::empty()
    } else if s.len() >= 2 && s[0] == '零' && s[1] == '零' {
        spec_collapse_zeros(s.drop_first())
    } else {
        seq![s[0]] + spec_collapse_zeros(s.drop_first())
    }
}

/// Whether a character is one of the major positional markers.
pub open spec fn spec_is_major(c: char) -> bool {
    c == '亿' || c == '万' || c == '元'
}

/// The text with every 零 that stands directly before a major positional
/// marker dropped.
pub open spec fn spec_drop_zero_before_major(s: Seq<char>) -> Seq<char>
    decreases s.len(),
{
    if s.len() == 0 {
        Seq::<char>::empty()
    } else if s.len() >= 2 && s[0] == '零' && spec_is_major(s[1]) {
        spec_drop_zero_before_major(s.drop_first())
    } else {
        seq![s[0]] + spec_drop_zero_before_major(s.drop_first())
    }
}

/// The text with one trailing 零 dropped, if it ends in one.
pub open spec fn spec_strip_trailing_zero(s: Seq<char>) -> Seq<char> {
    if s.len() > 0 && s.last() == '零' {
        s.drop_last()
    } else {
        s
    }
}

/// The uppercase rendering of an amount given in integer cents.  Zero is
/// the fixed zero-amount text; a whole-unit amount ends in 整; a negative
/// amount has no digit text and renders as the bare exactness mark.
pub open spec fn spec_rmb_from_cents(cents: int) -> Seq<char> {
    if cents == 0 {
        "零元整"@
    } else if cents < 0 {
        "整"@
    } else {
        let core = spec_strip_trailing_zero(
            spec_drop_zero_before_major(spec_collapse_zeros(spec_raw_parts(cents, 0, false))),
        );
        if cents % 100 == 0 {
            core + "整"@
        } else {
            core
        }
    }
}

/// The uppercase rendering of an amount given in milli-units: the amount is
/// first rounded half away from zero to whole cents.
pub open spec fn spec_rmb_from_milli(v: int) -> Seq<char> {
    spec_rmb_from_cents(spec_round_half_away(v, 10))
}

/// Builds the raw digit-and-unit text for a positive amount in cents.
fn raw_parts(cents: i64) -> (r: Vec<char>)
    requires
        cents > 0,
    ensures
        r@ == spec_raw_parts(cents as int, 0, false),
{
    let mut num: i64 = cents;
    let mut idx: usize = 0;
    let mut last_zero: bool = false;
    let mut acc: Vec<char> = Vec::new();
    proof {
        assert(spec_raw_parts(cents as int, 0, false) =~= spec_raw_parts(cents as int, 0, false)
            + acc@);
    }
    while num > 0 && idx < 15
        invariant
            0 <= num,
            idx <= 15,
            spec_raw_parts(cents as int, 0, false) == spec_raw_parts(
                num as int,
                idx as int,
                last_zero,
            ) + acc@,
        decreases 15 - idx,
    {
        let d: i64 = num % 10;
        let mut seg: Vec<char> = Vec::new();
        if d == 0 {
            if !last_zero {
                seg.push('零');
            }
            if idx == 2 || idx == 6 || idx == 10 {
                seg.push(unit_char_of(idx));
            }
        } else {
            seg.push(digit_word_of(d));
            seg.push(unit_char_of(idx));
        }
        append_chars(&mut seg, &acc);
        acc = seg;
        proof {
            assert(spec_raw_parts(num as int, idx as int, last_zero) == spec_raw_parts(
                num as int / 10,
                idx as int + 1,
                num as int % 10 == 0,
            ) + (if num as int % 10 == 0 {
                (if !last_zero {
                    seq!['零']
                } else {
                    Seq::<char>::empty()
                }) + (if idx == 2 || idx == 6 || idx == 10 {
                    seq![spec_unit_char(idx as int)]
                } else {
                    Seq::<char>::empty()
                })
            } else {
                seq![spec_digit_word(num as int % 10), spec_unit_char(idx as int)]
            }));
            assert(spec_raw_parts(cents as int, 0, false) =~= spec_raw_parts(
                num as int / 10,
                idx as int + 1,
                num as int % 10 == 0,
            ) + acc@);
        }
        last_zero = d == 0;
        num = num / 10;
        idx = idx + 1;
    }
    proof {
        assert(spec_raw_parts(num as int, idx as int, last_zero) =~= Seq::<char>::empty());
        assert(spec_raw_parts(cents as int, 0, false) =~= acc@);
    }
    acc
}

/// Collapses every run of consecutive 零 to a single 零.
fn collapse_zeros(s: &Vec<char>) -> (r: Vec<char>)
    ensures
        r@ == spec_collapse_zeros(s@),
{
    let mut out: Vec<char> = Vec::new();
    let mut i: usize = 0;
    proof {
        assert(s@.skip(0) =~= s@);
        assert(Seq::<char>::empty() + spec_collapse_zeros(s@) =~= spec_collapse_zeros(s@));
    }
    while i < s.len()
        invariant
            i <= s.len(),
            spec_collapse_zeros(s@) == out@ + spec_collapse_zeros(s@.skip(i as int)),
        decreases s.len() - i,
    {
        proof {
            assert(s@.skip(i as int)[0] == s@[i as int]);
            if i as int + 1 < s@.len() {
                assert(s@.skip(i as int)[1] == s@[i as int + 1]);
            }
            assert(s@.skip(i as int).drop_first() =~= s@.skip(i as int + 1));
        }
        if s[i] == '零' && i + 1 < s.len() && s[i + 1] == '零' {
        } else {
            out.push(s[i]);
        }
        i = i + 1;
    }
    proof {
        assert(s@.skip(s@.len() as int) =~= Seq::<char>::empty());
        assert(out@ =~= out@ + spec_collapse_zeros(s@.skip(s@.len() as int)));
    }
    out
}

/// Decides whether a character is a major positional marker.
fn is_major(c: char) -> (r: bool)
    ensures
        r == spec_is_major(c),
{
    c == '亿' || c == '万' || c == '元'
}

/// Drops every 零 that stands directly before a major positional marker.
fn drop_zero_before_major(s: &Vec<char>) -> (r: Vec<char>)
    ensures
        r@ == spec_drop_zero_before_major(s@),
{
    let mut out: Vec<char> = Vec::new();
    let mut i: usize = 0;
    proof {
        assert(s@.skip(0) =~= s@);
        assert(Seq::<char>::empty() + spec_drop_zero_before_major(s@)
            =~= spec_drop_zero_before_major(s@));
    }
    while i < s.len()
        invariant
            i <= s.len(),
            spec_drop_zero_before_major(s@) == out@ + spec_drop_zero_before_major(
                s@.skip(i as int),
            ),
        decreases s.len() - i,
    {
        proof {
            assert(s@.skip(i as int)[0] == s@[i as int]);
            if i as int + 1 < s@.len() {
                assert(s@.skip(i as int)[1] == s@[i as int + 1]);
            }
            assert(s@.skip(i as int).drop_first() =~= s@.skip(i as int + 1));
        }
        if s[i] == '零' && i + 1 < s.len() && is_major(s[i + 1]) {
        } else {
            out.push(s[i]);
        }
        i = i + 1;
    }
    proof {
        assert(s@.skip(s@.len() as int) =~= Seq::<char>::empty());
        assert(out@ =~= out@ + spec_drop_zero_before_major(s@.skip(s@.len() as int)));
    }
    out
}

/// The uppercase rendering of an amount in integer cents.
pub fn rmb_upper_from_cents(cents: i64) -> (r: String)
    ensures
        r@ == spec_rmb_from_cents(cents as int),
{
    if cents == 0 {
        return String::from_str("零元整");
    }
    if cents < 0 {
        return String::from_str("整");
    }
    let raw = raw_parts(cents);
    let collapsed = collapse_zeros(&raw);
    let mut core = drop_zero_before_major(&collapsed);
    if core.len() > 0 && core[core.len() - 1] == '零' {
        let _ = core.pop();
        proof {
            assert(core@ =~= spec_strip_trailing_zero(spec_drop_zero_before_major(collapsed@)));
        }
    }
    if cents % 100 == 0 {
        let tail = crate::text::str_chars("整");
        append_chars(&mut core, &tail);
    }
    chars_to_string(&core)
}

/// The uppercase rendering of an amount in milli-units.
pub fn rmb_upper_from_milli(v: i64) -> (r: String)
    requires
        -9_000_000_000_000_000_000 <= v <= 9_000_000_000_000_000_000,
    ensures
        r@ == spec_rmb_from_milli(v as int),
{
    let cents: i64 = if v >= 0 {
        (v + 5) / 10
    } else {
        -((-v + 5) / 10)
    };
    rmb_upper_from_cents(cents)
}

} // verus!
