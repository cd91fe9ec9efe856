use water_and_electricity_meter::billing::{BillTemplate, MerchantBill};

fn bill(name: &str, wprice: i64, eprice: i64) -> MerchantBill {
    MerchantBill::new(name.to_string(), wprice, eprice)
}

#[test]
fn usage_is_difference_when_meter_advances() {
    let mut b = bill("a", 2000, 400);
    b.set_water_readings(1_000, 3_500);
    assert_eq!(b.water_usage, 2_500);
}

#[test]
fn usage_is_zero_when_meter_regresses() {
    let mut b = bill("a", 2000, 400);
    b.set_water_readings(2_000, 1_000);
    assert_eq!(b.water_usage, 0);
    assert_eq!(b.water_amount, 0);
}

#[test]
fn meter_usage_is_never_negative() {
    let mut b = bill("a", 0, 400);
    b.add_electricity_meter("1".to_string(), 9_000, 2_000);
    assert_eq!(b.electricity_meters[0].usage, 0);
    assert_eq!(b.electricity_usage, 0);
}

#[test]
fn water_amount_rounds_to_whole_units() {
    // usage 2.5 at 2.0 per unit: exactly 5 units
    let mut b = bill("a", 2_000, 0);
    b.set_water_readings(1_000, 3_500);
    assert_eq!(b.water_amount, 5_000);
    // usage 1.25 at 0.4 per unit: 0.5, rounded half away from zero to 1
    let mut c = bill("c", 400, 0);
    c.set_water_readings(0, 1_250);
    assert_eq!(c.water_amount, 1_000);
}

#[test]
fn electricity_total_rounds_once_over_summed_usage() {
    // two meters of 1 unit each at 0.4 per unit: the aggregate rounds
    // 0.8 up to 1, while each per-line display amount rounds 0.4 down to 0
    let mut b = bill("a", 0, 400);
    b.add_electricity_meter("1".to_string(), 0, 1_000);
    b.add_electricity_meter("2".to_string(), 0, 1_000);
    assert_eq!(b.electricity_usage, 2_000);
    assert_eq!(b.electricity_amount, 1_000);
    assert_eq!(b.electricity_meters[0].amount, 0);
    assert_eq!(b.electricity_meters[1].amount, 0);
    let per_line_sum: i64 = b.electricity_meters.iter().map(|m| m.amount).sum();
    assert_ne!(b.electricity_amount, per_line_sum);
}

#[test]
fn total_fee_adds_both_amounts_and_both_flat_fees() {
    let mut b = bill("a", 2_000, 500);
    b.set_water_readings(0, 3_000); // 3 units * 2.0 = 6
    b.add_electricity_meter("1".to_string(), 0, 10_000); // 10 units * 0.5 = 5
    b.set_additional_fees(50_000, 30_000);
    assert_eq!(b.water_amount, 6_000);
    assert_eq!(b.electricity_amount, 5_000);
    assert_eq!(b.total_fee, 6_000 + 5_000 + 50_000 + 30_000);
}

#[test]
fn update_totals_is_idempotent() {
    let mut b = bill("a", 2_000, 500);
    b.set_water_readings(0, 3_000);
    b.add_electricity_meter("1".to_string(), 0, 10_000);
    b.set_additional_fees(50_000, 30_000);
    let before = b.total_fee;
    b.update_totals();
    b.update_totals();
    assert_eq!(b.total_fee, before);
}

#[test]
fn month_label_is_set_at_construction() {
    let b = bill("a", 0, 0);
    assert!(b.month.contains('年'));
    assert!(b.month.ends_with('月'));
}

#[test]
fn electricity_details_lists_every_meter() {
    let mut b = bill("a", 0, 400);
    b.add_electricity_meter("1".to_string(), 100_000, 150_000);
    assert_eq!(b.get_electricity_details(), "电表1: 上期100度, 本期150度, 用量50度, 费用20.00元");
    b.add_electricity_meter("2".to_string(), 0, 2_500);
    assert_eq!(
        b.get_electricity_details(),
        "电表1: 上期100度, 本期150度, 用量50度, 费用20.00元\n电表2: 上期0度, 本期2.5度, 用量2.5度, 费用1.00元"
    );
}

#[test]
fn details_placeholder_for_no_meters() {
    let b = bill("a", 0, 400);
    assert_eq!(b.get_electricity_details(), "无电表数据");
}

#[test]
fn batch_totals_are_exact_sums_over_three_merchants() {
    let mut t = BillTemplate::new("08月".to_string(), "2025".to_string());
    let mut expected_grand: i128 = 0;
    let mut expected_water: i128 = 0;
    for (i, (prev, curr)) in [(0i64, 1_000i64), (500, 4_000), (2_000, 9_500)].iter().enumerate() {
        let mut b = bill(&format!("m{}", i), 2_000, 500);
        b.set_water_readings(*prev, *curr);
        b.add_electricity_meter("1".to_string(), 0, 10_000 + 1_000 * i as i64);
        b.set_additional_fees(50_000, 30_000);
        expected_grand += b.total_fee as i128;
        expected_water += b.water_amount as i128;
        t.add_merchant(b);
    }
    assert_eq!(t.merchants.len(), 3);
    assert_eq!(t.grand_total, expected_grand);
    assert_eq!(t.total_water_amount, expected_water);
    let sum_again: i128 = t.merchants.iter().map(|b| b.total_fee as i128).sum();
    assert_eq!(t.grand_total, sum_again);
}

#[test]
fn readings_saturate_at_the_input_limit() {
    let mut b = bill("a", 1_000, 1_000);
    b.set_water_readings(0, 1_000_000_000);
    assert_eq!(b.water_usage, 1_000_000_000);
}
