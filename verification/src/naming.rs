//! Output-name helpers: the page-count field of the upload form and the
//! output file name derived from a custom title.

use vstd::prelude::*;
use crate::text::{spec_trim, trim_chars, spec_replace, replace_chars, str_chars, chars_to_string};
use crate::parse::{spec_is_digit, is_digit, spec_digits_value, spec_digit_prefix_len,
    lemma_digit_prefix_len, lemma_digits_value_nonneg, digit_val};
use crate::num::{spec_pad2, pad2_u128, append_chars};
use crate::clock::{spec_year4, year4};

verus! {

/// The page-count value of a form field: the trimmed text read as a plain
/// number with an optional leading plus sign, one when it is not a number
/// or does not fit the machine word.
pub open spec fn spec_per_page(s: Seq<char>) -> int {
    let t = spec_trim(s);
    let u = if t.len() > 0 && t[0] == '+' {
        t.drop_first()
    } else {
        t
    };
    if u.len() > 0 && spec_digit_prefix_len(u) == u.len() && spec_digits_value(u) <= usize::MAX {
        spec_digits_value(u)
    } else {
        1
    }
}

/// Parses the page-count field leniently: a plain number, or one.
pub fn parse_per_page(s: &str) -> (r: usize)
    ensures
        r == spec_per_page(s@),
{
    let cs = str_chars(s);
    let t = trim_chars(&cs);
    if t.len() == 0 {
        return 1;
    }
    let from: usize = if t[0] == '+' {
        1
    } else {
        0
    };
    let ghost u = if from == 1 {
        t@.drop_first()
    } else {
        t@
    };
    proof {
        if from == 1 {
            assert(u =~= t@.skip(1));
        } else {
            assert(u =~= t@.skip(0));
        }
        assert(forall|j: int| 0 <= j < u.len() ==> u[j] == t@[j + from]);
    }
    if t.len() == from {
        return 1;
    }
    let mut acc: usize = 0;
    let mut i: usize = from;
    let mut over: bool = false;
    while i < t.len()
        invariant
            from <= i <= t@.len(),
            from <= 1,
            u.len() == t@.len() - from,
            forall|j: int| 0 <= j < u.len() ==> u[j] == t@[j + from],
            forall|j: int| 0 <= j < i - from ==> spec_is_digit(#[trigger] u[j]),
            !over ==> acc == spec_digits_value(u.subrange(0, i - from)),
            over ==> spec_digits_value(u.subrange(0, i - from)) > usize::MAX,
        decreases t@.len() - i,
    {
        proof {
            assert(u[i - from] == t@[i as int]);
            assert(u.subrange(0, i - from + 1).drop_last() =~= u.subrange(0, i - from));
            lemma_digits_value_nonneg(u.subrange(0, i - from));
        }
        if !is_digit(t[i]) {
            proof {
                lemma_digit_prefix_len(u, i - from);
            }
            return 1;
        }
        let d = digit_val(t[i]);
        if over {
        } else if acc > (usize::MAX - (d as usize)) / 10 {
            proof {
                assert(spec_digits_value(u.subrange(0, i - from + 1)) > usize::MAX)
                    by (nonlinear_arith)
                    requires
                        spec_digits_value(u.subrange(0, i - from + 1)) == spec_digits_value(
                            u.subrange(0, i - from),
                        ) * 10 + (d as int),
                        spec_digits_value(u.subrange(0, i - from)) == acc,
                        acc > (usize::MAX - (d as usize)) / 10,
                        0 <= d <= 9,
                ;
            }
            over = true;
        } else {
            proof {
                assert(acc * 10 + (d as int) <= usize::MAX) by (nonlinear_arith)
                    requires
                        0 <= acc <= (usize::MAX - (d as usize)) / 10,
                        0 <= d <= 9,
                ;
            }
            acc = acc * 10 + (d as usize);
        }
        i = i + 1;
    }
    proof {
        lemma_digit_prefix_len(u, u.len() as int);
        assert(u.subrange(0, u.len() as int) =~= u);
    }
    if over {
        1
    } else {
        acc
    }
}

/// A custom title cleaned for use as a file name: the date unit characters
/// removed, and separator or reserved characters turned into underscores.
pub open spec fn spec_sanitize_title(s: Seq<char>) -> Seq<char> {
    let s1 = spec_replace(s, "年"@, Seq::<char>::empty());
    let s2 = spec_replace(s1, "月"@, Seq::<char>::empty());
    let s3 = spec_replace(s2, "日"@, Seq::<char>::empty());
    let s4 = spec_replace(s3, " "@, "_"@);
    let s5 = spec_replace(s4, "/"@, "_"@);
    let s6 = spec_replace(s5, "\\"@, "_"@);
    let s7 = spec_replace(s6, ":"@, "_"@);
    let s8 = spec_replace(s7, "*"@, "_"@);
    let s9 = spec_replace(s8, "?"@, "_"@);
    let s10 = spec_replace(s9, "\""@, "_"@);
    let s11 = spec_replace(s10, "<"@, "_"@);
    let s12 = spec_replace(s11, ">"@, "_"@);
    spec_replace(s12, "|"@, "_"@)
}

/// Cleans a custom title for use as a file name.
pub fn sanitize_title(s: &str) -> (r: String)
    ensures
        r@ == spec_sanitize_title(s@),
{
    proof {
        reveal_strlit("年");
        reveal_strlit("月");
        reveal_strlit("日");
        reveal_strlit(" ");
        reveal_strlit("/");
        reveal_strlit("\\");
        reveal_strlit(":");
        reveal_strlit("*");
        reveal_strlit("?");
        reveal_strlit("\"");
        reveal_strlit("<");
        reveal_strlit(">");
        reveal_strlit("|");
    }
    let empty: Vec<char> = Vec::new();
    let under = str_chars("_");
    let mut t = str_chars(s);
    t = replace_chars(&t, &str_chars("年"), &empty);
    t = replace_chars(&t, &str_chars("月"), &empty);
    t = replace_chars(&t, &str_chars("日"), &empty);
    t = replace_chars(&t, &str_chars(" "), &under);
    t = replace_chars(&t, &str_chars("/"), &under);
    t = replace_chars(&t, &str_chars("\\"), &under);
    t = replace_chars(&t, &str_chars(":"), &under);
    t = replace_chars(&t, &str_chars("*"), &under);
    t = replace_chars(&t, &str_chars("?"), &under);
    t = replace_chars(&t, &str_chars("\""), &under);
    t = replace_chars(&t, &str_chars("<"), &under);
    t = replace_chars(&t, &str_chars(">"), &under);
    t = replace_chars(&t, &str_chars("|"), &under);
    chars_to_string(&t)
}

/// The default report file stem: a fixed prefix, the two-digit month, and
/// the four-digit year.
pub open spec fn spec_report_stem(y: int, m: int) -> Seq<char> {
    "report_"@ + spec_pad2(m) + spec_year4(y)
}

/// Renders the default report file stem for a given year and month.
pub fn report_stem(y: i64, m: u64) -> (r: String)
    requires
        -2_147_483_648 <= y <= 2_147_483_647,
        m <= 99,
    ensures
        r@ == spec_report_stem(y as int, m as int),
{
    let mut out = str_chars("report_");
    let mm = pad2_u128(m as u128);
    append_chars(&mut out, &mm);
    let yy = year4(y);
    append_chars(&mut out, &yy);
    proof {
        assert(out@ =~= spec_report_stem(y as int, m as int));
    }
    chars_to_string(&out)
}

} // verus!
