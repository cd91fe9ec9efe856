use water_and_electricity_meter::num::{fmt_fix0_milli, fmt_fix2_milli, fmt_fix3_milli,
    fmt_plain_milli, clamp_milli, line_amount_milli, usage_of, nat_digits_u128};
use water_and_electricity_meter::parse::parse_milli;
use water_and_electricity_meter::rmb::{rmb_upper_from_cents, rmb_upper_from_milli};

fn s(v: Vec<char>) -> String {
    v.into_iter().collect()
}

fn chars(t: &str) -> Vec<char> {
    t.chars().collect()
}

#[test]
fn uppercase_amount_reference_values() {
    assert_eq!(rmb_upper_from_milli(0), "零元整");
    assert_eq!(rmb_upper_from_milli(1_000), "壹元整");
    assert_eq!(rmb_upper_from_milli(100_500), "壹佰元伍角");
    assert_eq!(rmb_upper_from_milli(10_000_000), "壹万元整");
}

#[test]
fn uppercase_amount_digits_and_units() {
    assert_eq!(rmb_upper_from_cents(12_345), "壹佰贰拾叁元肆角伍分");
    assert_eq!(rmb_upper_from_cents(50), "伍角");
    assert_eq!(rmb_upper_from_cents(5), "伍分");
    assert_eq!(rmb_upper_from_cents(200), "贰元整");
    assert_eq!(rmb_upper_from_cents(678_900), "陆仟柒佰捌拾玖元整");
}

#[test]
fn uppercase_amount_keeps_major_markers_over_zero_digits() {
    // ten thousand and fifty: the 元 marker survives the zero digits
    assert_eq!(rmb_upper_from_milli(10_050_000), "壹万零伍拾元整");
    // one hundred thousand
    assert_eq!(rmb_upper_from_milli(100_000_000), "壹拾万元整");
}

#[test]
fn uppercase_amount_rounds_milli_to_cents() {
    // 1.005 units rounds half away from zero to 101 cents
    assert_eq!(rmb_upper_from_milli(1_005), "壹元零壹分");
    // 1.004 truncates to 100 cents
    assert_eq!(rmb_upper_from_milli(1_004), "壹元整");
}

#[test]
fn plain_format_trims_trailing_zeros() {
    assert_eq!(s(fmt_plain_milli(12_500)), "12.5");
    assert_eq!(s(fmt_plain_milli(12_000)), "12");
    assert_eq!(s(fmt_plain_milli(12_050)), "12.05");
    assert_eq!(s(fmt_plain_milli(12_345)), "12.345");
    assert_eq!(s(fmt_plain_milli(0)), "0");
    assert_eq!(s(fmt_plain_milli(-500)), "-0.5");
}

#[test]
fn fixed_formats_round_half_away_from_zero() {
    assert_eq!(s(fmt_fix0_milli(2_500)), "3");
    assert_eq!(s(fmt_fix0_milli(2_499)), "2");
    assert_eq!(s(fmt_fix0_milli(-2_500)), "-3");
    assert_eq!(s(fmt_fix2_milli(1_005)), "1.01");
    assert_eq!(s(fmt_fix2_milli(1_004)), "1.00");
    assert_eq!(s(fmt_fix2_milli(50_000)), "50.00");
    assert_eq!(s(fmt_fix3_milli(2_000)), "2.000");
    assert_eq!(s(fmt_fix3_milli(1_234)), "1.234");
}

#[test]
fn lenient_parse_reads_decimals() {
    assert_eq!(parse_milli(&chars("12.5")), 12_500);
    assert_eq!(parse_milli(&chars(" 3 ")), 3_000);
    assert_eq!(parse_milli(&chars("-2.75")), -2_750);
    assert_eq!(parse_milli(&chars("+4")), 4_000);
    assert_eq!(parse_milli(&chars("5.")), 5_000);
    assert_eq!(parse_milli(&chars(".5")), 500);
    assert_eq!(parse_milli(&chars("1.2345")), 1_235);
    assert_eq!(parse_milli(&chars("1.2344")), 1_234);
}

#[test]
fn lenient_parse_coerces_malformed_text_to_zero() {
    assert_eq!(parse_milli(&chars("abc")), 0);
    assert_eq!(parse_milli(&chars("")), 0);
    assert_eq!(parse_milli(&chars(".")), 0);
    assert_eq!(parse_milli(&chars("-")), 0);
    assert_eq!(parse_milli(&chars("1.2.3")), 0);
    assert_eq!(parse_milli(&chars("12x")), 0);
}

#[test]
fn lenient_parse_saturates_huge_values() {
    assert_eq!(parse_milli(&chars("99999999999")), 1_000_000_000);
    assert_eq!(parse_milli(&chars("-99999999999")), -1_000_000_000);
}

#[test]
fn clamp_and_usage_primitives() {
    assert_eq!(clamp_milli(2_000_000_000), 1_000_000_000);
    assert_eq!(clamp_milli(-2_000_000_000), -1_000_000_000);
    assert_eq!(clamp_milli(7), 7);
    assert_eq!(usage_of(3_000, 1_000), 0);
    assert_eq!(usage_of(1_000, 3_000), 2_000);
    // 2 units at 0.5 each: a whole unit, in milli-units
    assert_eq!(line_amount_milli(2_000, 500), 1_000);
    // 1 unit at 0.5: the half rounds away from zero
    assert_eq!(line_amount_milli(1_000, 500), 1_000);
    assert_eq!(line_amount_milli(1_000, 400), 0);
    assert_eq!(s(nat_digits_u128(90210)), "90210");
}
