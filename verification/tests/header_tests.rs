use water_and_electricity_meter::headers::{find_electricity_columns, find_in_headers,
    find_indices, get_default_headers, normalize, resolve_meter_columns, resolve_required_columns};
use water_and_electricity_meter::BillError;

fn headers(labels: &[&str]) -> Vec<String> {
    labels.iter().map(|s| s.to_string()).collect()
}

fn full_headers() -> Vec<String> {
    headers(&[
        "铺面编号", "店铺名称", "电表1上期读数", "电表1本期读数", "上期水表读数", "本期水表读数", "水费单价", "电费单价", "水电人工费",
        "垃圾处理费",
    ])
}

#[test]
fn normalize_drops_whitespace_and_folds_case() {
    assert_eq!(normalize(" 店铺 名称 "), "店铺名称");
    assert_eq!(normalize("ABC def"), "abcdef");
    assert_eq!(normalize("\u{3000}水费\t单价\n"), "水费单价");
}

#[test]
fn decorated_header_still_resolves_merchant_column() {
    let hs = headers(&[
        "铺面编号", " 店铺 名称 ", "电表1上期读数", "电表1本期读数", "上期水表读数", "本期水表读数", "水费单价", "电费单价", "水电人工费",
        "垃圾处理费",
    ]);
    let ci = resolve_required_columns(&hs).unwrap();
    assert_eq!(ci.merchant, 1);
    assert_eq!(ci.shop_code, 0);
    assert_eq!(ci.garbage_fee, 9);
}

#[test]
fn missing_column_error_names_the_label() {
    let hs = headers(&["铺面编号", "店铺名称"]);
    match resolve_required_columns(&hs) {
        Err(BillError::ColumnNotFound(label)) => assert_eq!(label, "电表1上期读数"),
        _ => panic!("expected a missing-column error"),
    }
}

#[test]
fn meter_columns_count_upward_until_a_number_is_missing() {
    let hs = headers(&[
        "电表1上期读数", "电表1本期读数", "电表2上期读数", "电表2本期读数", "电表4上期读数", "电表4本期读数",
    ]);
    let cols = find_electricity_columns(&hs, "电表").unwrap();
    // meter 3 is missing, so discovery stops after meter 2
    assert_eq!(cols, vec![(0, 1), (2, 3)]);
}

#[test]
fn meter_discovery_fails_without_any_pair() {
    let hs = headers(&["店铺名称", "水费单价"]);
    match find_electricity_columns(&hs, "电表") {
        Err(BillError::NoMeterColumns(prefix)) => assert_eq!(prefix, "电表"),
        _ => panic!("expected a no-meter-columns error"),
    }
}

#[test]
fn first_meter_pair_is_not_duplicated() {
    let hs = full_headers();
    let cols = resolve_meter_columns(&hs, "电表", 2, 3).unwrap();
    assert_eq!(cols, vec![(2, 3)]);
}

#[test]
fn differently_matched_first_pair_is_put_in_front() {
    let hs = headers(&["总电表上期读数", "总电表本期读数", "电表1上期读数", "电表1本期读数"]);
    // the dedicated first pair resolved elsewhere differs from discovery
    let cols = resolve_meter_columns(&hs, "电表", 0, 1).unwrap();
    assert_eq!(cols, vec![(0, 1), (2, 3)]);
}

#[test]
fn find_in_headers_returns_the_first_fuzzy_match() {
    let hs = headers(&["x", "某某水费单价（元）", "水费单价"]);
    let pattern: Vec<char> = "水费单价".chars().collect();
    assert_eq!(find_in_headers(&hs, &pattern), Some(1));
}

#[test]
fn find_indices_prefers_exact_matches() {
    let hs = headers(&["含店铺名称的列", "店铺名称"]);
    let mapping = vec![("店铺名称", "店铺名称")];
    let idxs = find_indices(&hs, &mapping).unwrap();
    // index one matches exactly; the merely containing header is passed over
    assert_eq!(idxs, vec![1]);
}

#[test]
fn find_indices_falls_back_to_containment() {
    let hs = headers(&["编号", "本月店铺名称（全）"]);
    let mapping = vec![("店铺名称", "店铺名称")];
    let idxs = find_indices(&hs, &mapping).unwrap();
    assert_eq!(idxs, vec![1]);
}

#[test]
fn find_indices_reports_the_missing_wanted_label() {
    let hs = headers(&["编号"]);
    let mapping = vec![("店铺名称", "商家名称")];
    match find_indices(&hs, &mapping) {
        Err(BillError::ColumnNotFound(label)) => assert_eq!(label, "店铺名称"),
        _ => panic!("expected a missing-column error"),
    }
}

#[test]
fn default_headers_cover_every_field() {
    let h = get_default_headers();
    assert_eq!(h.merchant, "店铺名称");
    assert_eq!(h.electricity_prefix, "电表");
    let pairs = h.to_pairs();
    assert_eq!(pairs.len(), 5);
    assert_eq!(pairs[0], ("店铺名称", "店铺名称"));
    assert_eq!(pairs[4], ("电费单价", "电费单价"));
}
