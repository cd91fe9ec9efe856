use water_and_electricity_meter::csv::bills_from_csv_text;
use water_and_electricity_meter::headers::{get_default_headers, resolve_meter_columns,
    resolve_required_columns};
use water_and_electricity_meter::rows::{bill_from_cells, build_bills, build_bills_from_table,
    cell_text_at, cell_value_at, CellValue};
use water_and_electricity_meter::BillError;

fn headers() -> Vec<String> {
    ["铺面编号", "店铺名称", "电表1上期读数", "电表1本期读数", "电表2上期读数", "电表2本期读数", "上期水表读数", "本期水表读数", "水费单价",
        "电费单价", "水电人工费", "垃圾处理费"]
        .iter()
        .map(|s| s.to_string())
        .collect()
}

fn text_row(fields: &[&str]) -> Vec<CellValue> {
    fields.iter().map(|s| CellValue::Text(s.to_string())).collect()
}

#[test]
fn cell_coercion_is_lenient() {
    let row = vec![
        CellValue::Number(2_500),
        CellValue::Text(" 3.5 ".to_string()),
        CellValue::Text("oops".to_string()),
        CellValue::Empty,
    ];
    assert_eq!(cell_value_at(&row, 0), 2_500);
    assert_eq!(cell_value_at(&row, 1), 3_500);
    assert_eq!(cell_value_at(&row, 2), 0);
    assert_eq!(cell_value_at(&row, 3), 0);
    // a column past the end of a short row counts as zero
    assert_eq!(cell_value_at(&row, 9), 0);
    let t: String = cell_text_at(&row, 0).into_iter().collect();
    assert_eq!(t, "2.5");
}

#[test]
fn all_zero_meter_pair_is_excluded() {
    let hs = headers();
    let ci = resolve_required_columns(&hs).unwrap();
    let cols = resolve_meter_columns(&hs, "电表", ci.meter1_prev, ci.meter1_curr).unwrap();
    assert_eq!(cols, vec![(2, 3), (4, 5)]);
    // meter 2 has both readings zero and must not appear on the record
    let row = text_row(&["A1", "小店", "10", "20", "0", "0", "1", "2", "2.0", "0.5", "50", "30"]);
    let b = bill_from_cells(&row, &ci, &cols).unwrap();
    assert_eq!(b.electricity_meters.len(), 1);
    assert_eq!(b.electricity_meters[0].meter_id, "1");
    assert_eq!(b.electricity_meters[0].usage, 10_000);
}

#[test]
fn meter_numbering_follows_column_position() {
    let hs = headers();
    let ci = resolve_required_columns(&hs).unwrap();
    let cols = resolve_meter_columns(&hs, "电表", ci.meter1_prev, ci.meter1_curr).unwrap();
    // meter 1 is all zero, meter 2 carries readings: it keeps the number 2
    let row = text_row(&["A1", "小店", "0", "0", "5", "9", "1", "2", "2.0", "0.5", "50", "30"]);
    let b = bill_from_cells(&row, &ci, &cols).unwrap();
    assert_eq!(b.electricity_meters.len(), 1);
    assert_eq!(b.electricity_meters[0].meter_id, "2");
    assert_eq!(b.electricity_meters[0].usage, 4_000);
}

#[test]
fn blank_name_row_yields_no_record() {
    let hs = headers();
    let ci = resolve_required_columns(&hs).unwrap();
    let cols = resolve_meter_columns(&hs, "电表", ci.meter1_prev, ci.meter1_curr).unwrap();
    let row = text_row(&["A1", "  ", "10", "20", "0", "0", "1", "2", "2.0", "0.5", "50", "30"]);
    assert!(bill_from_cells(&row, &ci, &cols).is_none());
}

#[test]
fn batch_skips_blank_names_and_stays_valid() {
    let hs = headers();
    let ci = resolve_required_columns(&hs).unwrap();
    let cols = resolve_meter_columns(&hs, "电表", ci.meter1_prev, ci.meter1_curr).unwrap();
    let rows = vec![
        text_row(&["A1", "甲", "10", "20", "0", "0", "1", "2", "2.0", "0.5", "50", "30"]),
        text_row(&["A2", "", "10", "20", "0", "0", "1", "2", "2.0", "0.5", "50", "30"]),
        text_row(&["A3", "乙", "0", "5", "0", "0", "3", "4", "2.0", "0.5", "50", "30"]),
    ];
    let bills = build_bills(&rows, &ci, &cols).unwrap();
    assert_eq!(bills.len(), 2);
    assert_eq!(bills[0].merchant_name, "甲");
    assert_eq!(bills[1].merchant_name, "乙");
}

#[test]
fn batch_fails_when_every_row_is_excluded() {
    let hs = headers();
    let ci = resolve_required_columns(&hs).unwrap();
    let cols = resolve_meter_columns(&hs, "电表", ci.meter1_prev, ci.meter1_curr).unwrap();
    let rows = vec![
        text_row(&["A1", " ", "10", "20", "0", "0", "1", "2", "2.0", "0.5", "50", "30"]),
        text_row(&["A2", "", "10", "20", "0", "0", "1", "2", "2.0", "0.5", "50", "30"]),
    ];
    match build_bills(&rows, &ci, &cols) {
        Err(BillError::NoRecords) => {},
        _ => panic!("expected a no-records error"),
    }
}

#[test]
fn table_builder_fills_every_field() {
    let hs = headers();
    let map = get_default_headers();
    let rows = vec![text_row(&[
        "A7", "丙", "100", "150", "0", "0", "30", "42.5", "2.0", "0.4", "50", "30",
    ])];
    let bills = build_bills_from_table(&hs, &rows, &map).unwrap();
    assert_eq!(bills.len(), 1);
    let b = &bills[0];
    assert_eq!(b.shop_code, "A7");
    assert_eq!(b.merchant_name, "丙");
    assert_eq!(b.prev_water_reading, 30_000);
    assert_eq!(b.curr_water_reading, 42_500);
    assert_eq!(b.water_usage, 12_500);
    // 12.5 units at 2.0: exactly 25
    assert_eq!(b.water_amount, 25_000);
    // 50 units at 0.4: exactly 20
    assert_eq!(b.electricity_amount, 20_000);
    assert_eq!(b.water_electricity_labor_fee, 50_000);
    assert_eq!(b.garbage_disposal_fee, 30_000);
    assert_eq!(b.total_fee, 25_000 + 20_000 + 50_000 + 30_000);
}

#[test]
fn csv_text_round_trip() {
    let text = "铺面编号,店铺名称,电表1上期读数,电表1本期读数,上期水表读数,本期水表读数,水费单价,电费单价,水电人工费,垃圾处理费\n\
A1,甲,0,10,0,5,2.0,0.5,50,30\n\
,,0,0,0,0,0,0,0,0\n\
A2,乙,5,6,1,2,2.0,0.5,0,0\n";
    let map = get_default_headers();
    let bills = bills_from_csv_text(text, &map).unwrap();
    assert_eq!(bills.len(), 2);
    assert_eq!(bills[0].merchant_name, "甲");
    assert_eq!(bills[0].electricity_usage, 10_000);
    assert_eq!(bills[0].electricity_amount, 5_000);
    assert_eq!(bills[0].water_amount, 10_000);
    assert_eq!(bills[1].merchant_name, "乙");
    assert_eq!(bills[1].total_fee, 2_000 + 1_000);
}

#[test]
fn csv_short_lines_are_skipped() {
    let text = "铺面编号,店铺名称,电表1上期读数,电表1本期读数,上期水表读数,本期水表读数,水费单价,电费单价,水电人工费,垃圾处理费\n\
too,short\n\
A1,甲,0,10,0,5,2.0,0.5,50,30\n";
    let map = get_default_headers();
    let bills = bills_from_csv_text(text, &map).unwrap();
    assert_eq!(bills.len(), 1);
}

#[test]
fn csv_missing_column_is_fatal() {
    let text = "铺面编号,店铺名称\nA1,甲\n";
    let map = get_default_headers();
    match bills_from_csv_text(text, &map) {
        Err(BillError::ColumnNotFound(label)) => assert_eq!(label, "电表1上期读数"),
        _ => panic!("expected a missing-column error"),
    }
}

#[test]
fn csv_handles_carriage_returns_and_blank_lines() {
    let text = "铺面编号,店铺名称,电表1上期读数,电表1本期读数,上期水表读数,本期水表读数,水费单价,电费单价,水电人工费,垃圾处理费\r\n\
\r\n\
A1,甲,0,10,0,5,2.0,0.5,50,30\r\n";
    let map = water_and_electricity_meter::headers::get_default_headers();
    let bills = bills_from_csv_text(text, &map).unwrap();
    assert_eq!(bills.len(), 1);
    assert_eq!(bills[0].merchant_name, "甲");
}

#[test]
fn error_messages_name_the_problem() {
    assert_eq!(
        BillError::ColumnNotFound("水费单价".to_string()).message(),
        "missing column: 水费单价"
    );
    assert_eq!(BillError::NoRecords.message(), "no valid data rows");
    assert_eq!(
        BillError::UnsupportedFormat("pdf".to_string()).message(),
        "unsupported file format: pdf"
    );
    assert_eq!(
        BillError::NoMeterColumns("电表".to_string()).message(),
        "no meter column pairs found in the header row: expected columns containing '电表1上期读数' and '电表1本期读数'"
    );
}

#[test]
fn missing_meter_pairs_name_the_expected_labels() {
    let hs = headers();
    let mut map = get_default_headers();
    map.electricity_prefix = "动力表";
    match build_bills_from_table(&hs, &Vec::new(), &map) {
        Err(e @ BillError::NoMeterColumns(_)) => {
            assert_eq!(
                e.message(),
                "no meter column pairs found in the header row: expected columns containing '动力表1上期读数' and '动力表1本期读数'"
            );
        }
        _ => panic!("expected a no-meter-columns error"),
    }
}

#[test]
fn presentation_metadata_setters_keep_the_record() {
    let hs = headers();
    let ci = resolve_required_columns(&hs).unwrap();
    let cols = resolve_meter_columns(&hs, "电表", ci.meter1_prev, ci.meter1_curr).unwrap();
    let row = text_row(&["A1", "小店", "10", "20", "0", "0", "1", "2", "2.0", "0.5", "50", "30"]);
    let mut b = bill_from_cells(&row, &ci, &cols).unwrap();
    let before = b.total_fee;
    b.set_meter_info(Some("张三".to_string()), Some("2025年08月16日".to_string()));
    b.set_shop_code("B9".to_string());
    assert_eq!(b.meter_reader.as_deref(), Some("张三"));
    assert_eq!(b.meter_date.as_deref(), Some("2025年08月16日"));
    assert_eq!(b.shop_code, "B9");
    assert_eq!(b.total_fee, before);
}
