use water_and_electricity_meter::billing::MerchantBill;
use water_and_electricity_meter::dispatch::{input_kind, extension_lower, InputKind};
use water_and_electricity_meter::doc_model::count_page_breaks;
use water_and_electricity_meter::naming::{parse_per_page, report_stem, sanitize_title};
use water_and_electricity_meter::notice::{assemble_notice, generate_word_document_with_template,
    GenerateOptions};
use water_and_electricity_meter::template::{replace_placeholders, DocumentGenerator,
    MerchantTemplate, Section, SummaryTemplate, TemplateConfig};
use water_and_electricity_meter::BillError;

fn sample_bill(name: &str, curr: i64) -> MerchantBill {
    let mut b = MerchantBill::new(name.to_string(), 2_000, 500);
    b.set_water_readings(0, curr);
    b.add_electricity_meter("1".to_string(), 0, curr * 2);
    b.set_additional_fees(50_000, 30_000);
    b.set_shop_code("A1".to_string());
    b
}

fn sample_bills(n: usize) -> Vec<MerchantBill> {
    (0..n).map(|i| sample_bill(&format!("商{}", i), 1_000 + 1_000 * i as i64)).collect()
}

#[test]
fn five_records_two_per_page_produce_two_internal_breaks() {
    let bills = sample_bills(5);
    let options = Some(GenerateOptions { custom_title: None, per_page: 2 });
    let blocks = assemble_notice(&bills, &options).unwrap();
    // two internal breaks plus the forced break before the summary page
    assert_eq!(count_page_breaks(&blocks), 3);
}

#[test]
fn pagination_off_leaves_only_the_summary_break() {
    let bills = sample_bills(5);
    let options = Some(GenerateOptions { custom_title: None, per_page: 0 });
    let blocks = assemble_notice(&bills, &options).unwrap();
    assert_eq!(count_page_breaks(&blocks), 1);
}

#[test]
fn one_record_per_page_is_the_default() {
    let bills = sample_bills(3);
    let blocks = assemble_notice(&bills, &None).unwrap();
    // breaks after records one and two, plus the summary break
    assert_eq!(count_page_breaks(&blocks), 3);
}

#[test]
fn empty_batch_is_rejected_before_rendering() {
    let bills: Vec<MerchantBill> = Vec::new();
    match assemble_notice(&bills, &None) {
        Err(BillError::NoRecords) => {},
        _ => panic!("expected a no-records error"),
    }
    match generate_word_document_with_template(&bills, None) {
        Err(BillError::NoRecords) => {},
        _ => panic!("expected a no-records error"),
    }
}

#[test]
fn notice_document_renders_as_an_archive() {
    let bills = sample_bills(2);
    let options = Some(
        GenerateOptions { custom_title: Some("帐单标题".to_string()), per_page: 1 },
    );
    let bytes = generate_word_document_with_template(&bills, options).unwrap();
    assert!(bytes.len() > 4);
    assert_eq!(&bytes[0..2], b"PK");
}

fn sample_config() -> TemplateConfig {
    TemplateConfig {
        document_title: "水电费账单".to_string(),
        title_font_size: 12,
        title_alignment: "center".to_string(),
        section_font_size: 10,
        timestamp_font_size: 8,
        merchant_template: MerchantTemplate {
            sections: vec![
                Section {
                    name: "heading".to_string(),
                    kind: "title".to_string(),
                    content: Some("{merchant_name}的账单".to_string()),
                    title: None,
                    items: None,
                    font_size: None,
                    bold: None,
                    color: None,
                    alignment: None,
                },
                Section {
                    name: "water".to_string(),
                    kind: "text".to_string(),
                    content: Some("水费：{water_amount}元".to_string()),
                    title: None,
                    items: None,
                    font_size: Some(11),
                    bold: Some(true),
                    color: Some("FF0000".to_string()),
                    alignment: Some("right".to_string()),
                },
                Section {
                    name: "meters".to_string(),
                    kind: "section".to_string(),
                    content: None,
                    title: Some("电表明细".to_string()),
                    items: Some(vec!["{electricity_details}".to_string()]),
                    font_size: None,
                    bold: None,
                    color: None,
                    alignment: None,
                },
                Section {
                    name: "stamp".to_string(),
                    kind: "timestamp".to_string(),
                    content: Some("生成时间：{datetime}".to_string()),
                    title: None,
                    items: None,
                    font_size: None,
                    bold: None,
                    color: None,
                    alignment: Some("right".to_string()),
                },
            ],
        },
        summary_template: SummaryTemplate {
            sections: vec![
                Section {
                    name: "heading".to_string(),
                    kind: "title".to_string(),
                    content: Some("费用汇总".to_string()),
                    title: None,
                    items: None,
                    font_size: None,
                    bold: None,
                    color: None,
                    alignment: None,
                },
                Section {
                    name: "table".to_string(),
                    kind: "table".to_string(),
                    content: None,
                    title: None,
                    items: None,
                    font_size: None,
                    bold: None,
                    color: None,
                    alignment: None,
                },
            ],
        },
        output_format: "docx".to_string(),
        default_output_name: "bills".to_string(),
        individual_bills: false,
        summary_table: true,
    }
}

#[test]
fn placeholders_substitute_record_values() {
    let b = sample_bill("甲", 1_000);
    let out = replace_placeholders("{merchant_name}:{water_amount}/{total_amount}", &b, 2025, 8);
    // water: 1 unit at 2.0 = 2; electricity: 2 units at 0.5 = 1
    assert_eq!(out, "甲:2.00/83.00");
    let out2 = replace_placeholders("{year}-{month} 共{electricity_meter_count}表", &b, 2025, 8);
    assert_eq!(out2, "2025-8 共1表");
}

#[test]
fn unknown_placeholders_stay_verbatim() {
    let b = sample_bill("甲", 1_000);
    let out = replace_placeholders("{no_such_token}", &b, 2025, 8);
    assert_eq!(out, "{no_such_token}");
}

#[test]
fn template_documents_render_as_archives() {
    let bills = sample_bills(2);
    let gen = DocumentGenerator::new(sample_config());
    let complete = gen.generate_complete_document(&bills).unwrap();
    assert_eq!(&complete[0..2], b"PK");
    let single = gen.generate_merchant_bill(&bills[0]).unwrap();
    assert_eq!(&single[0..2], b"PK");
    let summary = gen.generate_summary_table(&bills).unwrap();
    assert_eq!(&summary[0..2], b"PK");
}

#[test]
fn template_assemblers_pin_the_block_structure() {
    let bills = sample_bills(2);
    let gen = DocumentGenerator::new(sample_config());
    // one record: heading, text, section heading with one item, timestamp,
    // then the trailing page break
    let single = gen.assemble_merchant_bill(&bills[0]);
    assert_eq!(single.len(), 6);
    assert_eq!(count_page_breaks(&single), 1);
    // summary: the heading and the fixed table, no breaks
    let summary = gen.assemble_summary(&bills);
    assert_eq!(summary.len(), 2);
    assert_eq!(count_page_breaks(&summary), 0);
    // complete document: the document heading, five blocks per record, and
    // one break between the two records
    let complete = gen.assemble_complete_document(&bills);
    assert_eq!(complete.len(), 1 + 5 + 1 + 5);
    assert_eq!(count_page_breaks(&complete), 1);
}

#[test]
fn input_kind_dispatches_by_extension() {
    assert!(matches!(input_kind("data.xlsx"), InputKind::Spreadsheet));
    assert!(matches!(input_kind("DATA.XLSX"), InputKind::Spreadsheet));
    assert!(matches!(input_kind("a/b/c.csv"), InputKind::DelimitedText));
    assert!(matches!(input_kind("no_extension"), InputKind::Unknown));
    assert!(matches!(input_kind("archive.tar.csv"), InputKind::DelimitedText));
    assert!(matches!(input_kind("dir.csv/file"), InputKind::Unknown));
    assert_eq!(extension_lower("Report.XLSX"), "xlsx");
    assert_eq!(extension_lower("plain"), "");
}

#[test]
fn naming_helpers_match_the_form_rules() {
    assert_eq!(parse_per_page("3"), 3);
    assert_eq!(parse_per_page(" 7 "), 7);
    assert_eq!(parse_per_page("+7"), 7);
    assert_eq!(parse_per_page("+"), 1);
    assert_eq!(parse_per_page("abc"), 1);
    assert_eq!(parse_per_page(""), 1);
    assert_eq!(parse_per_page("99999999999999999999999999"), 1);
    assert_eq!(sanitize_title("2025年08月 报表/甲:乙"), "202508_报表_甲_乙");
    assert_eq!(report_stem(2025, 8), "report_082025");
}
